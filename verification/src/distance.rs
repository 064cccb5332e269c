//! Conversion of elapsed echo time to a distance reading.
//!
//! The linear scale factor is 0.171 mm of range per microsecond of pulse
//! width (round-trip halving already baked in). The library works in exact
//! integers: 0.171 mm/us is 171 micrometres per microsecond, so the distance
//! in micrometres is `elapsed_us * 171` with no rounding at all, and the
//! millimetre reading is its floor division by 1000.

use vstd::prelude::*;

verus! {

/// Micrometres of sensed range per microsecond of echo-pulse width
/// (0.171 mm/us, the speed-of-sound-derived constant).
pub const UM_PER_US: u64 = 171;

/// Exact distance in micrometres for `elapsed_us` microseconds of pulse width.
pub open spec fn spec_distance_um(elapsed_us: int) -> int {
    elapsed_us * 171
}

/// Distance in whole millimetres: `elapsed_us * 171 / 1000`, floor division.
/// This equals the millimetre distance `elapsed_us * 0.171` truncated to an
/// integer.
pub open spec fn spec_distance_mm(elapsed_us: int) -> int {
    elapsed_us * 171 / 1000
}

/// Exact distance in micrometres.
pub fn distance_um(elapsed_us: u64) -> (um: u64)
    requires
        elapsed_us * 171 <= u64::MAX,
    ensures
        um == spec_distance_um(elapsed_us as int),
{
    elapsed_us * UM_PER_US
}

/// Distance truncated to whole millimetres.
pub fn distance_mm(elapsed_us: u64) -> (mm: u64)
    requires
        elapsed_us * 171 <= u64::MAX,
    ensures
        mm == spec_distance_mm(elapsed_us as int),
{
    distance_um(elapsed_us) / 1000
}

/// Law: the distance conversion is monotonically non-decreasing in the
/// elapsed time, both in exact micrometres and after truncation to
/// millimetres.
pub proof fn lemma_distance_monotonic(t1: int, t2: int)
    requires
        0 <= t1 <= t2,
    ensures
        spec_distance_um(t1) <= spec_distance_um(t2),
        spec_distance_mm(t1) <= spec_distance_mm(t2),
{
    vstd::arithmetic::div_mod::lemma_div_is_ordered(t1 * 171, t2 * 171, 1000);
}

} // verus!
