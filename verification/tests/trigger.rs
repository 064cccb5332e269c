use echo_ranging::trigger::TriggerConfig;

#[test]
fn stock_trigger_is_ten_hertz_tenth_duty() {
    let cfg = TriggerConfig::default();
    assert_eq!(cfg.period_hz, 10);
    assert_eq!(cfg.duty_numerator, 1);
    assert_eq!(cfg.duty_denominator, 10);
}

#[test]
fn duty_setting_is_a_tenth_of_full_scale() {
    let cfg = TriggerConfig::default();
    assert_eq!(cfg.duty_setting(1000), 100);
    assert_eq!(cfg.duty_setting(0), 0);
    assert_eq!(cfg.duty_setting(u16::MAX), u16::MAX / 10);
}

#[test]
fn full_duty_never_exceeds_full_scale() {
    let cfg = TriggerConfig { period_hz: 1, duty_numerator: 7, duty_denominator: 7 };
    assert_eq!(cfg.duty_setting(1234), 1234);
}

#[test]
fn duty_setting_truncates() {
    let cfg = TriggerConfig { period_hz: 10, duty_numerator: 1, duty_denominator: 3 };
    assert_eq!(cfg.duty_setting(100), 33);
}
