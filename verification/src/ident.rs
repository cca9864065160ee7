//! Sentinel-encoded optional identifiers.
//!
//! The formats store "no identifier" as the signed value `-1`.  Every other
//! value is an identifier; the decoders convert at the boundary instead of
//! letting raw sentinels flow into the records.  Identifier fields narrower
//! than 32 bits are widened to `i32`, value for value.

use vstd::prelude::*;

verus! {

/// The raw value that stands for an absent identifier.
pub open spec fn absent_sentinel() -> int {
    -1
}

/// Decode a raw signed value as an optional identifier.
pub open spec fn opt_id(v: int) -> Option<i32>
    recommends
        -0x8000_0000 <= v < 0x8000_0000,
{
    if v == absent_sentinel() {
        None
    } else {
        Some(v as i32)
    }
}

pub fn optional_id(v: i32) -> (r: Option<i32>)
    ensures
        r == opt_id(v as int),
{
    if v == -1 {
        None
    } else {
        Some(v)
    }
}

/// The sentinel decodes to "absent" and nothing else does: any value other
/// than the sentinel decodes to "present" with that very value as identity.
/// This is the rule every optional field of every decoder goes through.
pub proof fn lemma_optional_id_sentinel(v: int)
    requires
        -0x8000_0000 <= v < 0x8000_0000,
    ensures
        (opt_id(v) is None) <==> v == absent_sentinel(),
        v != absent_sentinel() ==> opt_id(v) == Some(v as i32) && opt_id(v)->Some_0 == v,
{
}

} // verus!
