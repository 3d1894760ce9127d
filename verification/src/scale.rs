//! Dynamic scaling of the intensity strips: the local maximum of a history
//! window and the scale denominator derived from it.

use vstd::prelude::*;

verus! {

/// The largest sample of a window; zero for an empty window.
pub open spec fn seq_max(s: Seq<u64>) -> u64
    decreases s.len(),
{
    if s.len() == 0 {
        0
    } else if s.len() == 1 {
        s[0]
    } else {
        let m = seq_max(s.drop_last());
        if s.last() > m {
            s.last()
        } else {
            m
        }
    }
}

/// The local maximum a strip is labeled with: the largest sample of the
/// window, defaulting to one for an empty window.
pub open spec fn local_max_spec(s: Seq<u64>) -> u64 {
    if s.len() == 0 {
        1
    } else {
        seq_max(s)
    }
}

/// The denominator a strip is scaled by: the local maximum, floored at one
/// so an empty or all-zero window never divides by zero.
pub open spec fn strip_scale(s: Seq<u64>) -> u64 {
    if local_max_spec(s) == 0 {
        1
    } else {
        local_max_spec(s)
    }
}

/// The largest sample of a non-empty window bounds every sample and is one
/// of them.
pub proof fn lemma_seq_max_is_max(s: Seq<u64>)
    requires
        s.len() > 0,
    ensures
        forall|i: int| 0 <= i < s.len() ==> s[i] <= seq_max(s),
        exists|i: int| 0 <= i < s.len() && s[i] == seq_max(s),
    decreases s.len(),
{
    if s.len() == 1 {
        assert(s[0] == seq_max(s));
    } else {
        lemma_seq_max_is_max(s.drop_last());
        assert forall|i: int| 0 <= i < s.len() implies s[i] <= seq_max(s) by {
            if i < s.len() - 1 {
                assert(s.drop_last()[i] == s[i]);
            }
        }
        if s.last() > seq_max(s.drop_last()) {
            assert(s[s.len() - 1] == seq_max(s));
        } else {
            let j = choose|j: int|
                0 <= j < s.drop_last().len() && s.drop_last()[j] == seq_max(s.drop_last());
            assert(s.drop_last()[j] == s[j]);
            assert(s[j] == seq_max(s));
        }
    }
}

/// The scale denominator is never zero, and is exactly one for an empty
/// window.
pub proof fn lemma_scale_positive(s: Seq<u64>)
    ensures
        strip_scale(s) >= 1,
        s.len() == 0 ==> strip_scale(s) == 1,
{
}

/// The local maximum of the window a strip draws, defaulting to one for an
/// empty window.
pub fn local_max(data: &Vec<u64>) -> (r: u64)
    ensures
        r == local_max_spec(data@),
        data@.len() > 0 ==> r == seq_max(data@),
        data@.len() == 0 ==> r == 1,
{
    if data.len() == 0 {
        1
    } else {
        let mut m: u64 = data[0];
        let mut i: usize = 1;
        proof {
            assert(data@.take(1) =~= seq![data@[0]]);
        }
        while i < data.len()
            invariant
                1 <= i <= data@.len(),
                m == seq_max(data@.take(i as int)),
            decreases data@.len() - i,
        {
            let v = data[i];
            if v > m {
                m = v;
            }
            proof {
                assert(data@.take(i + 1).drop_last() =~= data@.take(i as int));
                assert(data@.take(i + 1).last() == data@[i as int]);
            }
            i = i + 1;
        }
        proof {
            assert(data@.take(data@.len() as int) =~= data@);
        }
        m
    }
}

/// The scale denominator for a window: its local maximum floored at one.
pub fn scale_of(data: &Vec<u64>) -> (r: u64)
    ensures
        r == strip_scale(data@),
        r >= 1,
{
    let m = local_max(data);
    if m == 0 {
        1
    } else {
        m
    }
}

} // verus!
