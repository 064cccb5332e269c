//! Heartbeat indicator pattern.
//!
//! The heartbeat task drives an indicator line through a fixed asymmetric
//! cycle — two short low blips, one after a short high hold and one after a
//! long high hold — independent of the acquisition pipeline. The step
//! function here decides the next line level and how long to hold it; the
//! caller drives the physical line and waits out the hold.

use vstd::prelude::*;

verus! {

/// Level driven onto the indicator line.
#[derive(Clone, Copy, PartialEq, Eq, Structural, Debug)]
pub enum LineLevel {
    /// Line driven low.
    Low,
    /// Line driven high.
    High,
}

/// One step of the heartbeat: drive the line to `level` and hold it for
/// `hold_ms` milliseconds before the next step.
#[derive(Clone, Copy, PartialEq, Eq, Structural, Debug)]
pub struct HeartbeatStep {
    /// Level to drive for this step.
    pub level: LineLevel,
    /// How long to hold it, in milliseconds.
    pub hold_ms: u64,
}

/// Position in the four-step heartbeat cycle.
#[derive(Clone, Copy, PartialEq, Eq, Structural, Debug)]
pub enum HeartbeatPhase {
    /// First blip: line low for 10 ms.
    FirstBlip,
    /// Short rest: line high for 300 ms.
    ShortRest,
    /// Second blip: line low for 10 ms.
    SecondBlip,
    /// Long rest: line high for 1000 ms.
    LongRest,
}

/// The step taken in each phase, and the phase that follows it. The cycle is
/// low 10 ms, high 300 ms, low 10 ms, high 1000 ms, then over again.
pub open spec fn spec_heartbeat_step(phase: HeartbeatPhase) -> (HeartbeatStep, HeartbeatPhase) {
    match phase {
        HeartbeatPhase::FirstBlip => (
            HeartbeatStep { level: LineLevel::Low, hold_ms: 10 },
            HeartbeatPhase::ShortRest,
        ),
        HeartbeatPhase::ShortRest => (
            HeartbeatStep { level: LineLevel::High, hold_ms: 300 },
            HeartbeatPhase::SecondBlip,
        ),
        HeartbeatPhase::SecondBlip => (
            HeartbeatStep { level: LineLevel::Low, hold_ms: 10 },
            HeartbeatPhase::LongRest,
        ),
        HeartbeatPhase::LongRest => (
            HeartbeatStep { level: LineLevel::High, hold_ms: 1000 },
            HeartbeatPhase::FirstBlip,
        ),
    }
}

/// Decides the next heartbeat step: the level to drive, how long to hold it,
/// and the phase the cycle moves to.
pub fn heartbeat_step(phase: HeartbeatPhase) -> (r: (HeartbeatStep, HeartbeatPhase))
    ensures
        r == spec_heartbeat_step(phase),
{
    match phase {
        HeartbeatPhase::FirstBlip => (
            HeartbeatStep { level: LineLevel::Low, hold_ms: 10 },
            HeartbeatPhase::ShortRest,
        ),
        HeartbeatPhase::ShortRest => (
            HeartbeatStep { level: LineLevel::High, hold_ms: 300 },
            HeartbeatPhase::SecondBlip,
        ),
        HeartbeatPhase::SecondBlip => (
            HeartbeatStep { level: LineLevel::Low, hold_ms: 10 },
            HeartbeatPhase::LongRest,
        ),
        HeartbeatPhase::LongRest => (
            HeartbeatStep { level: LineLevel::High, hold_ms: 1000 },
            HeartbeatPhase::FirstBlip,
        ),
    }
}

/// Law: the heartbeat cycle is closed — four steps from the first phase
/// return to the first phase, and the whole cycle lasts 1320 ms.
pub proof fn lemma_heartbeat_cycle()
    ensures
        ({
            let (s1, p1) = spec_heartbeat_step(HeartbeatPhase::FirstBlip);
            let (s2, p2) = spec_heartbeat_step(p1);
            let (s3, p3) = spec_heartbeat_step(p2);
            let (s4, p4) = spec_heartbeat_step(p3);
            &&& p4 == HeartbeatPhase::FirstBlip
            &&& s1.hold_ms + s2.hold_ms + s3.hold_ms + s4.hold_ms == 1320
        }),
{
}

} // verus!
