//! PWM register interface.
//!
//! Channels come four per timer group; prescaler and period registers are
//! per-group, pulse-width registers per-channel. 16-bit values go on the
//! wire byte-swapped, and prescaler and period are written as the value
//! minus one (the hardware counts from zero).

use vstd::prelude::*;
use crate::error::{HatError, Phase};
use crate::hw;
use crate::pin::{PinType, spec_is_pwm_pin, spec_pwm_channel};
use crate::utils::init_i2c;

verus! {

/// Base address of the per-channel pulse-width registers.
pub const REG_PW: u8 = 0x20;

/// Base address of the per-group prescaler registers.
pub const REG_PSC: u8 = 0x40;

/// Base address of the per-group period registers.
pub const REG_PER: u8 = 0x44;

/// The prescaler register of a channel's timer group.
pub fn prescaler_register(channel: u8) -> (r: u8)
    requires
        channel < 14,
    ensures
        r == REG_PSC + channel / 4,
{
    REG_PSC + channel / 4
}

/// The period register of a channel's timer group.
pub fn period_register(channel: u8) -> (r: u8)
    requires
        channel < 14,
    ensures
        r == REG_PER + channel / 4,
{
    REG_PER + channel / 4
}

/// The pulse-width register of a channel.
pub fn pulse_width_register(channel: u8) -> (r: u8)
    requires
        channel < 14,
    ensures
        r == REG_PW + channel,
{
    REG_PW + channel
}

/// A 16-bit value with its bytes exchanged, as the co-processor expects
/// words on the wire.
pub open spec fn spec_swap_u16(v: u16) -> u16 {
    ((v % 256) * 256 + v / 256) as u16
}

/// Exchange the two bytes of a 16-bit value.
pub fn swap_u16(v: u16) -> (r: u16)
    ensures
        r == spec_swap_u16(v),
{
    (v % 256) * 256 + v / 256
}

/// The pulse width that a duty request of `percent` yields against a
/// cached period: the period times the percentage, truncated.
pub open spec fn spec_duty_ticks(period: u16, percent: u32) -> u16 {
    (period * percent / 100) as u16
}

/// Compute the pulse width for a duty request of `percent` against the
/// cached period of the channel's timer group.
pub fn duty_ticks(period: u16, percent: u32) -> (r: u16)
    requires
        percent <= 100,
    ensures
        r == spec_duty_ticks(period, percent),
        r <= period,
{
    proof {
        assert(period * percent <= 65535 * 100) by (nonlinear_arith)
            requires
                period <= 65535,
                percent <= 100,
        ;
        assert(period * percent <= period * 100) by (nonlinear_arith)
            requires
                percent <= 100,
                period >= 0,
        ;
        vstd::arithmetic::div_mod::lemma_div_is_ordered(
            period as int * percent as int,
            period as int * 100,
            100,
        );
        vstd::arithmetic::div_mod::lemma_div_by_multiple(period as int, 100);
    }
    ((period as u32) * percent / 100) as u16
}

/// A handle on one PWM channel: its channel index, the cached period of
/// each of the four timer groups, and an exclusive bus session.
pub struct PWM {
    /// The channel index, 0-13.
    pub channel: u8,
    /// The last period value written to each timer group's period
    /// register (already minus one), zero where none was written yet.
    /// Duty-cycle requests are computed against this cache.
    pub period: [u16; 4],
    /// The exclusive bus session the registers are written over.
    pub bus: rppal::i2c::I2c,
}

impl PWM {
    /// The channel index stays inside the fourteen channels, so the timer
    /// group index stays inside the cache.
    pub open spec fn wf(&self) -> bool {
        self.channel < 14
    }

    /// Open a bus session on a PWM pin and program a 50 Hz default via
    /// [`PWM::freq`]. Non-PWM pins are rejected before any hardware is
    /// touched.
    pub fn new(pwm_pin: PinType) -> (r: Result<PWM, HatError>)
        ensures
            !spec_is_pwm_pin(pwm_pin) ==> (r matches Err(e) && e matches HatError::NotPwmPin(p)
                && p == pwm_pin),
            r matches Ok(pwm) ==> {
                &&& spec_is_pwm_pin(pwm_pin)
                &&& pwm.wf()
                &&& pwm.channel == spec_pwm_channel(pwm_pin)
                &&& pwm.period@ == seq![0u16, 0u16, 0u16, 0u16].update(
                    spec_pwm_channel(pwm_pin) as int / 4,
                    1199u16,
                )
            },
            r matches Err(e) ==> (spec_is_pwm_pin(pwm_pin) ==> e is I2c),
    {
        if !pwm_pin.is_pwm_pin() {
            return Err(HatError::NotPwmPin(pwm_pin));
        }
        let channel = pwm_pin.pwm_channel();
        let period = [0u16, 0u16, 0u16, 0u16];
        let bus = init_i2c()?;
        let mut pwm = PWM { channel, period, bus };

        pwm.freq(50)?;

        Ok(pwm)
    }

    /// Program the channel's timer group for roughly the given frequency:
    /// prescaler and period are both set to `freq * 24`, a documented
    /// linear approximation rather than an exact divisor search.
    pub fn freq(&mut self, freq: u16) -> (r: Result<(), HatError>)
        requires
            old(self).wf(),
            1 <= freq <= 2730,
        ensures
            final(self).wf(),
            final(self).channel == old(self).channel,
            r matches Ok(_) ==> final(self).period@ == old(self).period@.update(
                old(self).channel as int / 4,
                (freq * 24 - 1) as u16,
            ),
            r matches Err(e) ==> (e matches HatError::I2c(p, _) && (p == Phase::PrescalerWrite
                || p == Phase::PeriodWrite)),
    {
        let psc: u16 = freq * 24;
        let per: u16 = freq * 24;

        self.prescaler(psc)?;
        self.period(per)?;

        Ok(())
    }

    /// Write `prescaler - 1`, byte-swapped, to the timer group's prescaler
    /// register. The cache is untouched.
    pub fn prescaler(&mut self, prescaler: u16) -> (r: Result<(), HatError>)
        requires
            old(self).wf(),
            prescaler >= 1,
        ensures
            *final(self) == *old(self),
            r matches Err(e) ==> e matches HatError::I2c(Phase::PrescalerWrite, _),
    {
        let reg = prescaler_register(self.channel);
        match hw::i2c_write_word(&self.bus, reg, swap_u16(prescaler - 1)) {
            Ok(()) => Ok(()),
            Err(e) => Err(HatError::I2c(Phase::PrescalerWrite, e)),
        }
    }

    /// Write `per - 1`, byte-swapped, to the timer group's period register
    /// and record `per - 1` in the group's cache slot. The cache is updated
    /// even when the write fails: the protocol has no partial-state
    /// recovery.
    pub fn period(&mut self, per: u16) -> (r: Result<(), HatError>)
        requires
            old(self).wf(),
            per >= 1,
        ensures
            final(self).wf(),
            final(self).channel == old(self).channel,
            final(self).period@ == old(self).period@.update(
                old(self).channel as int / 4,
                (per - 1) as u16,
            ),
            r matches Err(e) ==> e matches HatError::I2c(Phase::PeriodWrite, _),
    {
        let timer = self.channel / 4;
        let reg = period_register(self.channel);
        self.period[timer as usize] = per - 1;
        let value = self.period[timer as usize];
        match hw::i2c_write_word(&self.bus, reg, swap_u16(value)) {
            Ok(()) => Ok(()),
            Err(e) => Err(HatError::I2c(Phase::PeriodWrite, e)),
        }
    }

    /// Write a pulse width, unmodified except for the byte swap, to the
    /// channel's pulse-width register.
    pub fn pulse_width(&mut self, pw: u16) -> (r: Result<(), HatError>)
        requires
            old(self).wf(),
        ensures
            *final(self) == *old(self),
            r matches Err(e) ==> e matches HatError::I2c(Phase::PulseWrite, _),
    {
        let reg = pulse_width_register(self.channel);
        match hw::i2c_write_word(&self.bus, reg, swap_u16(pw)) {
            Ok(()) => Ok(()),
            Err(e) => Err(HatError::I2c(Phase::PulseWrite, e)),
        }
    }

    /// Request a duty cycle as a percentage of the timer group's cached
    /// period: the pulse width written is the cached period times the
    /// percentage, truncated. A group whose period was never set has a
    /// zero cache and silently yields a zero pulse width.
    pub fn pulse_width_percent(&mut self, pulse_width_percent: u32) -> (r: Result<(), HatError>)
        requires
            old(self).wf(),
            pulse_width_percent <= 100,
        ensures
            *final(self) == *old(self),
            r matches Err(e) ==> e matches HatError::I2c(Phase::PulseWrite, _),
    {
        let timer = self.channel / 4;
        let pulse_width = duty_ticks(self.period[timer as usize], pulse_width_percent);
        self.pulse_width(pulse_width)?;

        Ok(())
    }
}

/// Requesting half duty after setting period `per` yields `per * 50 / 100`
/// whenever `per` is odd (the cache holds `per - 1`; for even `per` the
/// computed width is one tick short of that expression).
pub proof fn lemma_half_duty_of_odd_period(per: u16)
    requires
        per >= 1,
        per % 2 == 1,
    ensures
        spec_duty_ticks((per - 1) as u16, 50) == per * 50 / 100,
{
    let k = (per - 1) / 2;
    assert(per == 2 * k + 1);
    assert((per - 1) * 50 == 100 * k) by (nonlinear_arith)
        requires per == 2 * k + 1;
    assert(per * 50 == 100 * k + 50) by (nonlinear_arith)
        requires per == 2 * k + 1;
    assert((100 * k) / 100 == k) by (nonlinear_arith);
    assert((100 * k + 50) / 100 == k) by (nonlinear_arith);
}

} // verus!
