//! Trigger pulse configuration.
//!
//! The trigger generator stimulates the sensor with a periodic pulse of a
//! fixed period and duty fraction, independent of echo timing. The PWM
//! peripheral that drives the pin takes a duty setting relative to its own
//! full-scale value; the conversion from the configured fraction to that
//! setting is here.

use vstd::prelude::*;

verus! {

/// Period and duty fraction of the trigger pulse train.
#[derive(Clone, Copy, PartialEq, Eq, Structural, Debug)]
pub struct TriggerConfig {
    /// Pulse repetition rate in hertz.
    pub period_hz: u32,
    /// Numerator of the active-time fraction of each period.
    pub duty_numerator: u32,
    /// Denominator of the active-time fraction; the fraction is at most one.
    pub duty_denominator: u32,
}

impl TriggerConfig {
    /// A usable configuration: positive rate, and a duty fraction between
    /// zero and one.
    pub open spec fn wf(&self) -> bool {
        &&& self.period_hz >= 1
        &&& self.duty_denominator >= 1
        &&& self.duty_numerator <= self.duty_denominator
    }

    /// The duty setting for a PWM peripheral whose full-scale setting is
    /// `max_duty`: the configured fraction of full scale, floor division,
    /// never above full scale.
    pub fn duty_setting(&self, max_duty: u16) -> (duty: u16)
        requires
            self.wf(),
        ensures
            duty == max_duty as int * self.duty_numerator as int / (self.duty_denominator as int),
            duty <= max_duty,
    {
        proof {
            vstd::arithmetic::mul::lemma_mul_upper_bound(
                max_duty as int,
                u16::MAX as int,
                self.duty_numerator as int,
                u32::MAX as int,
            );
            vstd::arithmetic::mul::lemma_mul_inequality(
                self.duty_numerator as int,
                self.duty_denominator as int,
                max_duty as int,
            );
            vstd::arithmetic::mul::lemma_mul_is_commutative(
                max_duty as int,
                self.duty_numerator as int,
            );
            vstd::arithmetic::mul::lemma_mul_is_commutative(
                max_duty as int,
                self.duty_denominator as int,
            );
            vstd::arithmetic::div_mod::lemma_div_is_ordered(
                max_duty as int * self.duty_numerator as int,
                max_duty as int * self.duty_denominator as int,
                self.duty_denominator as int,
            );
            vstd::arithmetic::div_mod::lemma_div_by_multiple(
                max_duty as int,
                self.duty_denominator as int,
            );
        }
        ((max_duty as u64) * (self.duty_numerator as u64) / (self.duty_denominator as u64)) as u16
    }
}

impl Default for TriggerConfig {
    /// The stock trigger: ten pulses a second, active a tenth of each period.
    fn default() -> (cfg: Self)
        ensures
            cfg == (TriggerConfig { period_hz: 10, duty_numerator: 1, duty_denominator: 10 }),
            cfg.wf(),
    {
        TriggerConfig { period_hz: 10, duty_numerator: 1, duty_denominator: 10 }
    }
}

} // verus!
