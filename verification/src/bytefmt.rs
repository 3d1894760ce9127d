//! Human-readable byte labels, produced by the `byte_unit` crate.

use vstd::prelude::*;
use vstd::utf8::is_ascii_chars;

verus! {

/// The human-readable label `byte_unit` gives a byte count: the count scaled
/// to the largest fitting decimal unit, written with the unit's symbol and no
/// spaces ("1000B", "1.02KB"). The label is a function of the count alone.
pub uninterp spec fn byte_label(v: u64) -> Seq<char>;

/// Relies on byte_unit::Byte::from_bytes, Byte::get_appropriate_unit and
/// AdjustedByte's Display: the label depends only on the byte count, and is
/// built from digits, a dot and unit symbols, so it is ASCII.
#[verifier::external_body]
pub(crate) fn byte_string(v: u64) -> (r: String)
    ensures
        r@ == byte_label(v),
        is_ascii_chars(r@),
{
    let b = byte_unit::Byte::from_bytes(v as u128);
    b.get_appropriate_unit(false).to_string().replace(' ', "")
}

} // verus!
