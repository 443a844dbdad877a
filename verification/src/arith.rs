//! Whole-unit coordinates and the arithmetic on them.
//!
//! Coordinates and accumulators are signed 64-bit whole units. Sums that would
//! leave that range stop at its nearest end, so every operation on them is
//! total.

use vstd::prelude::*;

verus! {

/// The value of the coordinate range that is nearest to `v`.
pub open spec fn clamp(v: int) -> i64 {
    if v > i64::MAX {
        i64::MAX
    } else if v < i64::MIN {
        i64::MIN
    } else {
        v as i64
    }
}

/// `a + b`, stopped at the ends of the coordinate range.
pub fn sat_add(a: i64, b: i64) -> (sum: i64)
    ensures
        sum == clamp(a + b),
{
    match a.checked_add(b) {
        Some(sum) => sum,
        None => if b > 0 {
            i64::MAX
        } else {
            i64::MIN
        },
    }
}

/// `a - b`, stopped at the ends of the coordinate range.
pub fn sat_sub(a: i64, b: i64) -> (difference: i64)
    ensures
        difference == clamp(a - b),
{
    match a.checked_sub(b) {
        Some(difference) => difference,
        None => if b > 0 {
            i64::MIN
        } else {
            i64::MAX
        },
    }
}

} // verus!
