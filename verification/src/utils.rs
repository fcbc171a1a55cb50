//! Small arithmetic helpers shared by the per-crew counters.

use vstd::prelude::*;

verus! {

/// The mathematical value of `original + change` clamped into the
/// inclusive band `[lo, hi]` (the lower bound wins when the band is
/// empty, mirroring how the counters are adjusted).
pub open spec fn spec_change_and_clamp(original: u32, change: i32, lo: u32, hi: u32) -> int {
    let changed = original + change;
    if changed < lo {
        lo as int
    } else if changed > hi {
        hi as int
    } else {
        changed
    }
}

/// Adds a signed change to a counter and clamps the result into the
/// inclusive band given by `clamp`.
pub fn change_and_clamp(original: u32, change: i32, clamp: (u32, u32)) -> (r: u32)
    ensures
        r == spec_change_and_clamp(original, change, clamp.0, clamp.1),
{
    let new: i64 = original as i64 + change as i64;
    if new < clamp.0 as i64 {
        clamp.0
    } else if new > clamp.1 as i64 {
        clamp.1
    } else {
        new as u32
    }
}

} // verus!
