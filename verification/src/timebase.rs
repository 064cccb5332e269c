//! Time base of the capture timer: converts tick counts to microseconds.

use vstd::prelude::*;

verus! {

/// Rate of the clock that drives the capture timer, fixed at system start.
#[derive(Clone, Copy, PartialEq, Eq, Structural, Debug)]
pub struct TimebaseConfig {
    /// Capture-clock ticks per second. Must be positive.
    pub capture_freq_hz: u32,
}

impl TimebaseConfig {
    /// A usable time base has a positive clock rate.
    pub open spec fn wf(self) -> bool {
        self.capture_freq_hz >= 1
    }
}

/// Elapsed microseconds spanned by `delta` ticks of a `freq_hz` clock:
/// `delta * 1_000_000 / freq_hz`, with floor division.
pub open spec fn spec_ticks_to_microseconds(delta: int, freq_hz: int) -> int {
    delta * 1_000_000 / freq_hz
}

/// Converts a tick delta to elapsed microseconds over the given time base.
///
/// The quotient is truncated toward zero; for capture frequencies that do not
/// divide 1,000,000 evenly this truncation is an accepted measurement bias.
pub fn ticks_to_microseconds(delta: u32, timebase: &TimebaseConfig) -> (elapsed_us: u64)
    requires
        timebase.wf(),
    ensures
        elapsed_us == spec_ticks_to_microseconds(delta as int, timebase.capture_freq_hz as int),
{
    (delta as u64) * 1_000_000 / (timebase.capture_freq_hz as u64)
}

} // verus!
