//! Saturating arithmetic on the pet's gauges.
//!
//! A gauge is a `u8`: it never leaves the range from 0 to 255, and a change
//! that would carry it past either end stops at that end.

use vstd::prelude::*;

verus! {

/// The largest value a gauge can hold.
pub const GAUGE_MAX: u8 = 255;

/// A gauge after it was raised by `by`, stopping at 255.
pub open spec fn raised(gauge: int, by: int) -> int {
    if gauge + by > 255 {
        255
    } else {
        gauge + by
    }
}

/// A gauge after it was lowered by `by`, stopping at 0.
pub open spec fn lowered(gauge: int, by: int) -> int {
    if gauge - by < 0 {
        0
    } else {
        gauge - by
    }
}

/// Whether `gauge` is a value that a gauge can hold.
pub open spec fn in_range(gauge: int) -> bool {
    0 <= gauge <= 255
}

/// Raising or lowering a gauge by any amount that is not negative leaves it
/// between 0 and 255: it saturates and never wraps around.
pub proof fn lemma_gauge_stays_in_range(gauge: int, by: int)
    requires
        in_range(gauge),
        by >= 0,
    ensures
        in_range(raised(gauge, by)),
        in_range(lowered(gauge, by)),
        raised(gauge, by) == gauge + by || raised(gauge, by) == 255,
        lowered(gauge, by) == gauge - by || lowered(gauge, by) == 0,
{
}

} // verus!
