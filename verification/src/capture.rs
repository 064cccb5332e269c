//! Edge-pair echo capture: measuring pulse width from rising/falling edge
//! events of a 16-bit capture timer.
//!
//! The engine waits for a rising edge, records its tick count, then waits for
//! the following falling edge and emits the wrap-safe tick difference. An
//! out-of-order edge never produces a width: a falling edge with no recorded
//! rising edge is ignored, and a second rising edge restarts the pair at the
//! newer rising edge, so the engine resynchronizes on the next valid pair.

use vstd::prelude::*;

verus! {

/// Direction of a transition on the echo line.
#[derive(Clone, Copy, PartialEq, Eq, Structural, Debug)]
pub enum Edge {
    /// Low-to-high transition: the echo pulse starts.
    Rising,
    /// High-to-low transition: the echo pulse ends.
    Falling,
}

/// An instantaneous edge observation with the capture counter's tick count
/// snapshot taken by hardware at the moment of the edge.
#[derive(Clone, Copy, PartialEq, Eq, Structural, Debug)]
pub struct PulseEdgeEvent {
    /// Which transition was observed.
    pub edge: Edge,
    /// Counter snapshot at the edge, in capture ticks.
    pub ticks: u16,
}

/// State of the edge-pair capture engine between edge events.
#[derive(Clone, Copy, PartialEq, Eq, Structural, Debug)]
pub enum CaptureState {
    /// No pulse in flight: waiting for the next rising edge.
    AwaitRising,
    /// A rising edge was seen at the recorded tick count: waiting for the
    /// matching falling edge.
    AwaitFalling {
        /// Counter snapshot of the rising edge that opened the pulse.
        rising_ticks: u16,
    },
}

/// Tick span from `rising` to `falling` on a counter that wraps modulo
/// 2^16: `(falling - rising) mod 65536`.
pub open spec fn spec_wrapping_delta(rising: int, falling: int) -> int {
    (falling - rising) % 65536
}

/// What one edge event does to the engine: the next state, and the pulse
/// width emitted, if any. Only the falling edge that closes a recorded
/// rising edge emits a width.
pub open spec fn spec_on_edge(state: CaptureState, ev: PulseEdgeEvent) -> (CaptureState, Option<
    u16,
>) {
    match (state, ev.edge) {
        (CaptureState::AwaitRising, Edge::Rising) => (
            CaptureState::AwaitFalling { rising_ticks: ev.ticks },
            None,
        ),
        (CaptureState::AwaitRising, Edge::Falling) => (CaptureState::AwaitRising, None),
        (CaptureState::AwaitFalling { rising_ticks: _ }, Edge::Rising) => (
            CaptureState::AwaitFalling { rising_ticks: ev.ticks },
            None,
        ),
        (CaptureState::AwaitFalling { rising_ticks }, Edge::Falling) => (
            CaptureState::AwaitRising,
            Some(spec_wrapping_delta(rising_ticks as int, ev.ticks as int) as u16),
        ),
    }
}

/// Wrap-safe tick difference on the 16-bit counter.
///
/// When the counter wrapped between the two snapshots (`falling < rising`),
/// the span still comes out right: ticks to the wrap point plus ticks after
/// it, never a large underflowed value.
pub fn wrapping_delta(rising: u16, falling: u16) -> (delta: u16)
    ensures
        delta == spec_wrapping_delta(rising as int, falling as int),
{
    proof {
        if falling >= rising {
            vstd::arithmetic::div_mod::lemma_small_mod((falling - rising) as nat, 65536);
        } else {
            vstd::arithmetic::div_mod::lemma_mod_add_multiples_vanish(
                falling as int - rising as int,
                65536,
            );
            vstd::arithmetic::div_mod::lemma_small_mod(
                (falling as int - rising as int + 65536) as nat,
                65536,
            );
        }
    }
    if falling >= rising {
        falling - rising
    } else {
        (0xFFFF - rising) + falling + 1
    }
}

impl CaptureState {
    /// A fresh engine, waiting for the first rising edge.
    pub fn new() -> (s: Self)
        ensures
            s == CaptureState::AwaitRising,
    {
        CaptureState::AwaitRising
    }

    /// Feeds one hardware edge event to the engine and returns the measured
    /// pulse width in ticks when this event completes a rising/falling pair.
    pub fn on_edge(&mut self, ev: PulseEdgeEvent) -> (width: Option<u16>)
        ensures
            (*final(self), width) == spec_on_edge(*old(self), ev),
    {
        match (*self, ev.edge) {
            (CaptureState::AwaitRising, Edge::Rising) => {
                *self = CaptureState::AwaitFalling { rising_ticks: ev.ticks };
                None
            },
            (CaptureState::AwaitRising, Edge::Falling) => None,
            (CaptureState::AwaitFalling { rising_ticks: _ }, Edge::Rising) => {
                *self = CaptureState::AwaitFalling { rising_ticks: ev.ticks };
                None
            },
            (CaptureState::AwaitFalling { rising_ticks }, Edge::Falling) => {
                *self = CaptureState::AwaitRising;
                Some(wrapping_delta(rising_ticks, ev.ticks))
            },
        }
    }
}

/// Law: from any engine state, a rising edge followed by a falling edge emits
/// exactly one width, the wrap-safe difference `falling - rising (mod 2^16)`,
/// and leaves the engine waiting for the next rising edge. The rising edge
/// itself emits nothing.
pub proof fn lemma_edge_pair_yields_width(s: CaptureState, rising: u16, falling: u16)
    ensures
        ({
            let (s1, w1) = spec_on_edge(s, PulseEdgeEvent { edge: Edge::Rising, ticks: rising });
            let (s2, w2) = spec_on_edge(s1, PulseEdgeEvent { edge: Edge::Falling, ticks: falling });
            &&& w1 is None
            &&& w2 == Some(spec_wrapping_delta(rising as int, falling as int) as u16)
            &&& s2 == CaptureState::AwaitRising
        }),
{
}

/// Law: two rising edges in a row emit no width; the engine restarts the
/// pair at the newer rising edge, so the next falling edge measures from it.
pub proof fn lemma_missed_falling_resync(s: CaptureState, first: u16, second: u16)
    ensures
        ({
            let (s1, w1) = spec_on_edge(s, PulseEdgeEvent { edge: Edge::Rising, ticks: first });
            let (s2, w2) = spec_on_edge(s1, PulseEdgeEvent { edge: Edge::Rising, ticks: second });
            &&& w1 is None
            &&& w2 is None
            &&& s2 == CaptureState::AwaitFalling { rising_ticks: second }
        }),
{
}

/// Law: a falling edge with no pulse in flight is discarded: no width, state
/// unchanged.
pub proof fn lemma_stray_falling_discarded(ticks: u16)
    ensures
        spec_on_edge(CaptureState::AwaitRising, PulseEdgeEvent { edge: Edge::Falling, ticks }) == (
            CaptureState::AwaitRising,
            Option::<u16>::None,
        ),
{
}

} // verus!
