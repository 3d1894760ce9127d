//! Lookups the renderer performs: process attribution by pid and the
//! used-space history window of a named file system.

use vstd::prelude::*;
use vstd::string::StringExecFns;
use crate::model::{ProcessInfo, SeriesStore, UsedSeries};
use crate::text::dec_rep;

verus! {

/// The first process of the table with the given pid, if any.
pub open spec fn lookup_pid(t: Seq<ProcessInfo>, pid: u32) -> Option<ProcessInfo>
    decreases t.len(),
{
    if t.len() == 0 {
        None
    } else if t[0].pid == pid {
        Some(t[0])
    } else {
        lookup_pid(t.drop_first(), pid)
    }
}

/// Finds the first process of the table with the given pid.
pub fn find_process<'a>(t: &'a Vec<ProcessInfo>, pid: u32) -> (r: Option<&'a ProcessInfo>)
    ensures
        match r {
            Some(p) => lookup_pid(t@, pid) == Some(*p),
            None => lookup_pid(t@, pid) is None,
        },
{
    let mut i: usize = 0;
    proof {
        assert(t@.skip(0) =~= t@);
    }
    while i < t.len()
        invariant
            0 <= i <= t@.len(),
            lookup_pid(t@.skip(i as int), pid) == lookup_pid(t@, pid),
        decreases t@.len() - i,
    {
        proof {
            assert(t@.skip(i as int)[0] == t@[i as int]);
            assert(t@.skip(i as int).drop_first() =~= t@.skip(i + 1));
        }
        if t[i].pid == pid {
            return Some(&t[i]);
        }
        i = i + 1;
    }
    proof {
        assert(t@.skip(t@.len() as int) =~= Seq::<ProcessInfo>::empty());
    }
    None
}

/// The attribution label of one process: its pid, name and owning user.
pub open spec fn proc_label(p: ProcessInfo) -> Seq<char> {
    "["@ + dec_rep(p.pid as nat) + " - "@ + p.name@ + " - "@ + p.user_name@ + "]"@
}

/// The label attributing an aggregate rate to its top-consuming process:
/// empty when no pid was supplied or the pid no longer resolves.
pub open spec fn attribution_label(t: Seq<ProcessInfo>, pid: Option<u32>) -> Seq<char> {
    match pid {
        None => Seq::empty(),
        Some(pid) => match lookup_pid(t, pid) {
            None => Seq::empty(),
            Some(p) => proc_label(p),
        },
    }
}

/// Resolves an optional top-consumer pid to its attribution label; an absent
/// or stale pid yields an empty label, never an error.
pub fn attribution(t: &Vec<ProcessInfo>, pid: Option<u32>) -> (r: String)
    ensures
        r@ == attribution_label(t@, pid),
{
    match pid {
        None => {
            let r = String::new();
            proof {
                assert(r@ =~= attribution_label(t@, pid));
            }
            r
        },
        Some(pid_val) => match find_process(t, pid_val) {
            None => {
                let r = String::new();
                proof {
                    assert(r@ =~= attribution_label(t@, pid));
                }
                r
            },
            Some(p) => {
                let mut r = String::from_str("[");
                let digits = crate::text::u64_to_dec(p.pid as u64);
                r.append(digits.as_str());
                r.append(" - ");
                r.append(p.name.as_str());
                r.append(" - ");
                r.append(p.user_name.as_str());
                r.append("]");
                proof {
                    assert(r@ =~= proc_label(*p));
                }
                r
            },
        },
    }
}

/// The used-space window stored under a device name, if the store tracks it.
pub open spec fn used_lookup(s: Seq<UsedSeries>, name: Seq<char>) -> Option<Seq<u64>>
    decreases s.len(),
{
    if s.len() == 0 {
        None
    } else if s[0].name@ == name {
        Some(s[0].data@)
    } else {
        used_lookup(s.drop_first(), name)
    }
}

impl SeriesStore {
    /// Looks up the used-space history window of a named file system; a name
    /// the store does not track yet is answered with nothing, never an error.
    pub fn get_used<'a>(&'a self, name: &String) -> (r: Option<&'a Vec<u64>>)
        ensures
            match r {
                Some(d) => used_lookup(self.used_space@, name@) == Some(d@),
                None => used_lookup(self.used_space@, name@) is None,
            },
    {
        let mut i: usize = 0;
        proof {
            assert(self.used_space@.skip(0) =~= self.used_space@);
        }
        while i < self.used_space.len()
            invariant
                0 <= i <= self.used_space@.len(),
                used_lookup(self.used_space@.skip(i as int), name@) == used_lookup(
                    self.used_space@,
                    name@,
                ),
            decreases self.used_space@.len() - i,
        {
            proof {
                assert(self.used_space@.skip(i as int)[0] == self.used_space@[i as int]);
                assert(self.used_space@.skip(i as int).drop_first() =~= self.used_space@.skip(
                    i + 1,
                ));
            }
            if self.used_space[i].name.eq(name) {
                return Some(&self.used_space[i].data);
            }
            i = i + 1;
        }
        proof {
            assert(self.used_space@.skip(self.used_space@.len() as int)
                =~= Seq::<UsedSeries>::empty());
        }
        None
    }
}

} // verus!
