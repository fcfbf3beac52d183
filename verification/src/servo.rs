//! Servo façade: an angle maps linearly to a pulse-width time, which is
//! converted to timer ticks and written to the servo's PWM channel.

use vstd::prelude::*;
use crate::error::{HatError, Phase};
use crate::pin::{PinType, spec_is_pwm_pin, spec_pwm_channel};
use crate::pwm::PWM;
use crate::utils::map_range;

verus! {

/// The servo signal frequency in Hz.
pub const FREQ: u32 = 50;

/// The fixed timer period programmed for a servo channel.
pub const PERIOD: u32 = 4095;

/// The shortest pulse-width time, in microseconds, reached at -90 degrees.
pub const MIN_PW: u16 = 500;

/// The longest pulse-width time, in microseconds, reached at 90 degrees.
pub const MAX_PW: u16 = 2500;

/// The reference clock the prescaler is derived from, in Hz.
pub const CPU_CLOCK: u32 = 72_000_000;

/// An angle clamped into the servo's -90..90 degree range.
pub open spec fn spec_clamped_angle(angle: int) -> int {
    if angle < -90 {
        -90
    } else if angle > 90 {
        90
    } else {
        angle
    }
}

/// The pulse-width time an angle maps to: -90..90 degrees linearly onto
/// 500..2500 microseconds.
pub open spec fn spec_angle_pulse_us(angle: int) -> int {
    500 + (spec_clamped_angle(angle) + 90) * 2000 / 180
}

/// Map an angle in degrees to its pulse-width time in microseconds,
/// clamping the angle into -90..90 first.
pub fn angle_pulse_width_us(angle: i32) -> (r: i32)
    ensures
        r == spec_angle_pulse_us(angle as int),
        MIN_PW <= r <= MAX_PW,
{
    let a: i64 = if angle < -90 {
        -90
    } else if angle > 90 {
        90
    } else {
        angle as i64
    };
    proof {
        assert((a + 90) * 2000 <= 360000) by (nonlinear_arith)
            requires
                -90 <= a <= 90,
        ;
        assert((a + 90) * 2000 >= 0) by (nonlinear_arith)
            requires
                -90 <= a <= 90,
        ;
        vstd::arithmetic::div_mod::lemma_div_is_ordered((a + 90) * 2000, 360000, 180);
        vstd::arithmetic::div_mod::lemma_div_pos_is_pos((a + 90) * 2000, 180);
    }
    let pw = map_range(a, (-90i64, 90i64), (MIN_PW as i64, MAX_PW as i64));
    pw as i32
}

/// The tick count a pulse-width time converts to: the time's share of the
/// 20 ms servo frame, scaled by the fixed 4095-tick period and truncated.
pub open spec fn spec_pulse_ticks(pw_time: int) -> int {
    pw_time * 4095 / 20000
}

/// Convert a pulse-width time in microseconds to timer ticks.
pub fn pulse_ticks(pw_time: i32) -> (r: u16)
    requires
        0 <= pw_time <= 2500,
    ensures
        r == spec_pulse_ticks(pw_time as int),
        r <= 511,
{
    ((pw_time * 4095) / 20000) as u16
}

/// A servo on one PWM channel, programmed for a 50 Hz frame.
pub struct Servo {
    /// The servo's PWM channel handle.
    pub pwm: PWM,
}

impl Servo {
    /// Open a servo on a PWM pin: a fixed 4095-tick period, and a
    /// prescaler derived from the reference clock for a 50 Hz frame.
    /// Non-PWM pins are rejected before any hardware is touched.
    pub fn new(pwm_pin: PinType) -> (r: Result<Servo, HatError>)
        ensures
            !spec_is_pwm_pin(pwm_pin) ==> (r matches Err(e) && e matches HatError::NotPwmPin(p)
                && p == pwm_pin),
            r matches Ok(s) ==> {
                &&& spec_is_pwm_pin(pwm_pin)
                &&& s.pwm.wf()
                &&& s.pwm.channel == spec_pwm_channel(pwm_pin)
                &&& s.pwm.period@[spec_pwm_channel(pwm_pin) as int / 4] == 4094
            },
            r matches Err(e) ==> (spec_is_pwm_pin(pwm_pin) ==> e is I2c),
    {
        let mut pwm = PWM::new(pwm_pin)?;
        pwm.period(PERIOD as u16)?;
        let prescaler = ((CPU_CLOCK / FREQ) / PERIOD) as u16;
        pwm.prescaler(prescaler)?;

        Ok(Servo { pwm })
    }

    /// Write a pulse-width time, given in microseconds, to the servo's
    /// channel as timer ticks.
    pub fn pulse_width_time(&mut self, pw_time: i32) -> (r: Result<(), HatError>)
        requires
            old(self).pwm.wf(),
            0 <= pw_time <= 2500,
        ensures
            *final(self) == *old(self),
            r matches Err(e) ==> e matches HatError::I2c(Phase::PulseWrite, _),
    {
        let value = pulse_ticks(pw_time);
        self.pwm.pulse_width(value)?;

        Ok(())
    }

    /// Drive the servo to an angle in degrees, clamped into -90..90. The
    /// write is best-effort: a transport failure is discarded.
    pub fn angle(&mut self, angle: i32)
        requires
            old(self).pwm.wf(),
        ensures
            *final(self) == *old(self),
    {
        let pw_time = angle_pulse_width_us(angle);
        let _ = self.pulse_width_time(pw_time);
    }
}

} // verus!
