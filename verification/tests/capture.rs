use echo_ranging::capture::{wrapping_delta, CaptureState, Edge, PulseEdgeEvent};

fn rising(ticks: u16) -> PulseEdgeEvent {
    PulseEdgeEvent { edge: Edge::Rising, ticks }
}

fn falling(ticks: u16) -> PulseEdgeEvent {
    PulseEdgeEvent { edge: Edge::Falling, ticks }
}

#[test]
fn edge_pair_yields_width() {
    let mut engine = CaptureState::new();
    assert_eq!(engine.on_edge(rising(100)), None);
    assert_eq!(engine.on_edge(falling(350)), Some(250));
    assert_eq!(engine, CaptureState::AwaitRising);
}

#[test]
fn missed_falling_edge_resynchronizes() {
    // Two rising edges in a row: no width, and the pair restarts at the
    // newer rising edge.
    let mut engine = CaptureState::new();
    assert_eq!(engine.on_edge(rising(100)), None);
    assert_eq!(engine.on_edge(rising(200)), None);
    assert_eq!(engine.on_edge(falling(500)), Some(300));
}

#[test]
fn stray_falling_edge_is_discarded() {
    // A falling edge with no pulse in flight never produces a reading.
    let mut engine = CaptureState::new();
    assert_eq!(engine.on_edge(falling(50)), None);
    assert_eq!(engine, CaptureState::AwaitRising);
    assert_eq!(engine.on_edge(rising(60)), None);
    assert_eq!(engine.on_edge(falling(90)), Some(30));
}

#[test]
fn counter_wraparound_delta() {
    // Rising at 65530, falling at 20 on the 16-bit counter: the span is
    // (65536 - 65530) + 20 = 26, not a large underflowed value.
    assert_eq!(wrapping_delta(65530, 20), 26);
    let mut engine = CaptureState::new();
    assert_eq!(engine.on_edge(rising(65530)), None);
    assert_eq!(engine.on_edge(falling(20)), Some(26));
}

#[test]
fn wrapping_delta_plain_cases() {
    assert_eq!(wrapping_delta(0, 0), 0);
    assert_eq!(wrapping_delta(100, 350), 250);
    assert_eq!(wrapping_delta(65535, 0), 1);
    assert_eq!(wrapping_delta(0, 65535), 65535);
}
