//! Conversions of signed script-level integers to machine sizes.

use vstd::prelude::*;

verus! {

/// The value nearest to `value` that a `usize` can hold.
pub open spec fn clamp_to_usize(value: int) -> int {
    if value < 0 {
        0
    } else if value > usize::MAX {
        usize::MAX as int
    } else {
        value
    }
}

/// Converts an `i64` to a `usize`, clamping it between zero and `usize::MAX`.
pub fn clamp_i64_to_usize(value: i64) -> (r: usize)
    ensures
        r as int == clamp_to_usize(value as int),
{
    if value < 0 {
        0
    } else if value as u64 > usize::MAX as u64 {
        usize::MAX
    } else {
        value as usize
    }
}

} // verus!
