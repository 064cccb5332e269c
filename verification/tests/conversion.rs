use echo_ranging::distance::{distance_mm, distance_um};
use echo_ranging::timebase::{ticks_to_microseconds, TimebaseConfig};

#[test]
fn ticks_to_microseconds_megahertz_clock() {
    // A 1 MHz capture clock makes one tick one microsecond.
    let tb = TimebaseConfig { capture_freq_hz: 1_000_000 };
    assert_eq!(ticks_to_microseconds(1000, &tb), 1000);
    assert_eq!(ticks_to_microseconds(0, &tb), 0);
    assert_eq!(ticks_to_microseconds(65535, &tb), 65535);
}

#[test]
fn ticks_to_microseconds_ten_kilohertz_clock() {
    // 10 kHz: one tick is 100 microseconds.
    let tb = TimebaseConfig { capture_freq_hz: 10_000 };
    assert_eq!(ticks_to_microseconds(50, &tb), 5000);
}

#[test]
fn ticks_to_microseconds_non_dividing_clock() {
    // 3 Hz does not divide 1,000,000: the quotient is truncated.
    let tb = TimebaseConfig { capture_freq_hz: 3 };
    assert_eq!(ticks_to_microseconds(1, &tb), 333_333);
    assert_eq!(ticks_to_microseconds(2, &tb), 666_666);
}

#[test]
fn distance_of_one_millisecond_echo() {
    // 1000 us of pulse width is exactly 171.000 mm of range.
    assert_eq!(distance_um(1000), 171_000);
    assert_eq!(distance_mm(1000), 171);
}

#[test]
fn distance_truncates_to_whole_millimetres() {
    // 59 us -> 10.089 mm -> 10 mm; 65 us -> 11.115 mm -> 11 mm.
    assert_eq!(distance_um(59), 10_089);
    assert_eq!(distance_mm(59), 10);
    assert_eq!(distance_mm(65), 11);
    assert_eq!(distance_mm(0), 0);
}

#[test]
fn distance_matches_float_scale_factor() {
    // The integer conversion agrees with the 0.171 mm/us scale factor.
    for t in [0u64, 1, 59, 65, 1000, 65_535, 1_000_000] {
        let exact_mm = t as f64 * 0.171;
        let mm = distance_mm(t) as f64;
        assert!(mm <= exact_mm + 1e-6 && exact_mm < mm + 1.0 + 1e-6);
    }
}

#[test]
fn distance_is_monotonic() {
    let mut previous: u64 = 0;
    for t in 0u64..2000 {
        let mm = distance_mm(t);
        assert!(mm >= previous);
        previous = mm;
    }
}
