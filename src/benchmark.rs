//! Reporting of measured durations.
use vstd::prelude::*;

verus! {

/// A millisecond count as a `usize`, saturating at `usize::MAX`.
pub fn millis_to_usize(ms: u128) -> (r: usize)
    ensures
        r == (if ms > usize::MAX as u128 {
            usize::MAX as u128
        } else {
            ms
        }),
{
    if ms > usize::MAX as u128 {
        usize::MAX
    } else {
        ms as usize
    }
}

} // verus!
