use vstd::prelude::*;
use crate::timing::{millis_to_ticks, ticks_from_millis};

verus! {

/// Auto-reload value of the original timer set-up (`500 - 1`): the ramp
/// value is a compare value against this period.
pub const ARR_C: u32 = 499;

/// PWM frequency, in kilohertz.
pub const PWM_HZ: u32 = 2;

/// The ramp turns down once its value exceeds this.
pub const STEP_MAX: u32 = 300;

/// The LED is lit by a low output (low-active compare polarity).
pub const ACTIVE_LOW: bool = true;

/// Pause between two ramp steps, in milliseconds.
pub const STEP_MS: u64 = 10;

/// Duty cycle for ramp value `val` before the polarity is applied: `val`
/// out of `ARR_C` scaled to `0..=max`, rounded down, then truncated to 32
/// bits as the `as u32` of the computation does.
pub open spec fn raw_duty(max: u32, val: u32) -> u32 {
    (max * val / ARR_C as int) as u32
}

/// Duty cycle written to the channel for ramp value `val`: with a
/// low-active output the raw duty is inverted, saturating at 0.
pub open spec fn duty_of(max: u32, val: u32) -> u32 {
    if ACTIVE_LOW {
        if raw_duty(max, val) <= max {
            (max - raw_duty(max, val)) as u32
        } else {
            0
        }
    } else {
        raw_duty(max, val)
    }
}

/// The duty cycle for ramp value `val` against the channel's maximum duty
/// `max`.
pub fn duty_for(max: u32, val: u32) -> (r: u32)
    ensures
        r == duty_of(max, val),
{
    assert(max * val <= u64::MAX) by (nonlinear_arith)
        requires
            max <= u32::MAX,
            val <= u32::MAX,
    ;
    let mut duty = #[verifier::truncate] ((max as u64 * val as u64 / ARR_C as u64) as u32);
    if ACTIVE_LOW {
        duty = max.saturating_sub(duty);
    }
    duty
}

/// Ramp values up to the period map to raw duties no larger than `max`.
proof fn lemma_raw_duty_le_max(max: u32, val: u32)
    requires
        val <= ARR_C,
    ensures
        max * val / (ARR_C as int) <= max,
{
    let m = max as int;
    let v = val as int;
    assert(m * v / 499 <= m) by (nonlinear_arith)
        requires
            0 <= m,
            0 <= v <= 499,
    ;
}

/// Within the period the duty cycle never exceeds the channel's maximum
/// duty, and with the low-active output it falls as the ramp value rises:
/// for every `v1 <= v2 <= ARR_C`, `duty_of(max, v2) <= duty_of(max, v1) <= max`.
pub proof fn law_duty_falls_as_ramp_rises(max: u32, v1: u32, v2: u32)
    requires
        v1 <= v2 <= ARR_C,
    ensures
        duty_of(max, v2) <= duty_of(max, v1) <= max,
{
    lemma_raw_duty_le_max(max, v1);
    lemma_raw_duty_le_max(max, v2);
    let m = max as int;
    let a = v1 as int;
    let b = v2 as int;
    assert(m * a <= m * b) by (nonlinear_arith)
        requires
            0 <= m,
            a <= b,
    ;
    vstd::arithmetic::div_mod::lemma_div_is_ordered(m * a, m * b, 499);
}

/// Direction of the ramp after the turn check of a step from `val`.
pub open spec fn next_rising(val: u32, rising: bool) -> bool {
    if val > STEP_MAX {
        false
    } else if val == 0 {
        true
    } else {
        rising
    }
}

/// Ramp value after a step from `val`: one up or one down in the new
/// direction, saturating.
pub open spec fn next_val(val: u32, rising: bool) -> u32 {
    if next_rising(val, rising) {
        if val == u32::MAX {
            u32::MAX
        } else {
            (val + 1) as u32
        }
    } else {
        if val == 0 {
            0
        } else {
            (val - 1) as u32
        }
    }
}

/// The ramp never leaves `0..=STEP_MAX + 1`: a step from a value in that
/// range lands in it again, turning down from the top and up from 0.
pub proof fn law_ramp_stays_in_range(val: u32, rising: bool)
    requires
        val <= STEP_MAX + 1,
    ensures
        next_val(val, rising) <= STEP_MAX + 1,
        val == STEP_MAX + 1 ==> next_val(val, rising) == STEP_MAX && !next_rising(val, rising),
        val == 0 ==> next_val(val, rising) == 1 && next_rising(val, rising),
{
}

/// State of the breathing ramp: the compare value and its direction.
pub struct PwmRamp {
    val: u32,
    inc: bool,
}

impl PwmRamp {
    /// The ramp value stays within `0..=STEP_MAX + 1`.
    #[verifier::type_invariant]
    closed spec fn in_range(&self) -> bool {
        self.val <= STEP_MAX + 1
    }

    /// The ramp value.
    pub closed spec fn val(&self) -> u32 {
        self.val
    }

    /// Whether the ramp is rising.
    pub closed spec fn rising(&self) -> bool {
        self.inc
    }

    /// A ramp at 0, rising.
    pub fn new() -> (r: Self)
        ensures
            r.val() == 0,
            r.rising(),
    {
        PwmRamp { val: 0, inc: true }
    }

    /// The current ramp value, always within `0..=STEP_MAX + 1`.
    pub fn value(&self) -> (r: u32)
        ensures
            r == self.val(),
            r <= STEP_MAX + 1,
    {
        proof {
            use_type_invariant(self);
        }
        self.val
    }

    /// One step of the ramp: the direction turns down above `STEP_MAX` and up
    /// at 0; the duty for the current value is returned; then the value
    /// moves one step in its direction, saturating.
    pub fn step(&mut self, max: u32) -> (duty: u32)
        ensures
            duty == duty_of(max, old(self).val()),
            final(self).rising() == next_rising(old(self).val(), old(self).rising()),
            final(self).val() == next_val(old(self).val(), old(self).rising()),
            final(self).val() <= STEP_MAX + 1,
    {
        proof {
            use_type_invariant(&*self);
            law_ramp_stays_in_range(self.val, self.inc);
        }
        if self.val > STEP_MAX {
            self.inc = false;
        }
        if self.val == 0 {
            self.inc = true;
        }
        let duty = duty_for(max, self.val);
        if self.inc {
            self.val = self.val.saturating_add(1);
        } else {
            self.val = self.val.saturating_sub(1);
        }
        duty
    }
}

/// `embassy_stm32::time::khz(kilohertz).0`: the frequency in hertz.
///
/// Claimed: the source returns `Hertz(kilohertz * 1_000)`; the product
/// overflows beyond the bound in `requires`.
#[verifier::external_body]
fn embassy_khz(kilohertz: u32) -> (hz: u32)
    requires
        kilohertz * 1000 <= u32::MAX,
    ensures
        hz == kilohertz * 1000,
{
    embassy_stm32::time::khz(kilohertz).0
}

/// The PWM frequency in hertz, as the timer is configured with it.
pub fn pwm_frequency_hz() -> (hz: u32)
    ensures
        hz == PWM_HZ * 1000,
{
    embassy_khz(PWM_HZ)
}

/// Ticks of the pause between two ramp steps.
pub fn step_ticks() -> (r: u64)
    ensures
        r == ticks_from_millis(STEP_MS as nat),
{
    match millis_to_ticks(STEP_MS) {
        Some(t) => t,
        None => 0,
    }
}

} // verus!
