//! Motor façades: a single motor pairs a PWM channel with a digital
//! direction line; the differential drive pairs two motors and negates
//! the second motor's sign.

use vstd::prelude::*;
use crate::error::{HatError, Phase};
use crate::hw;
use crate::pin::{PinType, RHPin, spec_is_digital_pin, spec_is_pwm_pin, spec_pwm_channel};
use crate::pwm::PWM;

verus! {

/// The fixed timer period programmed for a motor channel.
pub const PERIOD: u16 = 4095;

/// The fixed prescaler programmed for a motor channel.
pub const PRESCALER: u16 = 10;

/// The duty percentage a signed speed commands: its magnitude.
pub fn motor_duty(speed: i8) -> (r: u8)
    requires
        -100 <= speed <= 100,
    ensures
        r == (if speed >= 0 { speed as int } else { -(speed as int) }),
        r <= 100,
{
    if speed >= 0 {
        speed as u8
    } else {
        (-speed) as u8
    }
}

/// The direction level a signed speed commands: high for positive speeds.
pub fn motor_dir_high(speed: i8) -> (r: bool)
    ensures
        r == (speed > 0),
{
    speed > 0
}

/// The two speeds a differential-drive command applies: the left motor
/// gets the left speed as is, the right motor the right speed negated.
pub fn drive_pair(left_speed: i8, right_speed: i8) -> (r: (i8, i8))
    requires
        -100 <= left_speed <= 100,
        -100 <= right_speed <= 100,
    ensures
        r.0 == left_speed,
        r.1 == -right_speed,
{
    (left_speed, -right_speed)
}

/// One motor: a PWM channel for the magnitude, a digital line for the
/// direction, and the last speed it was commanded.
pub struct Motor {
    /// The motor's PWM channel handle.
    pub pwm: PWM,
    /// The digital line that selects the direction.
    pub dir: rppal::gpio::OutputPin,
    /// The last speed this motor was commanded, zero at construction.
    pub cmd: i8,
}

impl Motor {
    /// Open a motor on a PWM pin and a digital direction pin: period 4095,
    /// prescaler 10, zero duty, direction low. Mismatched pin roles are
    /// rejected before any hardware is touched.
    pub fn new(pwm_pin: PinType, dir_pin: PinType) -> (r: Result<Motor, HatError>)
        ensures
            !spec_is_pwm_pin(pwm_pin) ==> (r matches Err(e) && e matches HatError::NotPwmPin(p)
                && p == pwm_pin),
            spec_is_pwm_pin(pwm_pin) && !spec_is_digital_pin(dir_pin) ==> (r matches Err(e)
                && e matches HatError::NotDigitalPin(p) && p == dir_pin),
            r matches Ok(m) ==> {
                &&& spec_is_pwm_pin(pwm_pin)
                &&& spec_is_digital_pin(dir_pin)
                &&& m.pwm.wf()
                &&& m.pwm.channel == spec_pwm_channel(pwm_pin)
                &&& m.pwm.period@[spec_pwm_channel(pwm_pin) as int / 4] == 4094
                &&& m.cmd == 0
            },
            r matches Err(e) ==> (spec_is_pwm_pin(pwm_pin) && spec_is_digital_pin(dir_pin)
                ==> (e is I2c || e is Gpio)),
    {
        if !pwm_pin.is_pwm_pin() {
            return Err(HatError::NotPwmPin(pwm_pin));
        }
        if !dir_pin.is_digital_pin() {
            return Err(HatError::NotDigitalPin(dir_pin));
        }
        let mut pwm = PWM::new(pwm_pin)?;
        let dir_pin = RHPin::new(dir_pin)?;
        let mut dir = hw::pin_into_output(dir_pin.gpio_pin);

        pwm.period(PERIOD)?;
        pwm.prescaler(PRESCALER)?;
        // zero duty and direction low until the first command
        pwm.pulse_width_percent(0)?;
        hw::output_write(&mut dir, false);

        Ok(Motor { pwm, dir, cmd: 0 })
    }

    /// Command a signed speed: the sign drives the direction line, the
    /// magnitude the duty cycle.
    pub fn speed(&mut self, speed: i8) -> (r: Result<(), HatError>)
        requires
            old(self).pwm.wf(),
            -100 <= speed <= 100,
        ensures
            final(self).cmd == speed,
            final(self).pwm == old(self).pwm,
            r matches Err(e) ==> e matches HatError::I2c(Phase::PulseWrite, _),
    {
        self.cmd = speed;
        let duty = motor_duty(speed);
        self.pwm.pulse_width_percent(duty as u32)?;
        let high = motor_dir_high(speed);
        hw::output_write(&mut self.dir, high);

        Ok(())
    }
}

/// A differential drive: two motors on a fixed pin assignment.
pub struct Motors {
    /// Left motor, on PWM pin `P12` and direction pin `D4`.
    pub left_motor: Motor,
    /// Right motor, on PWM pin `P13` and direction pin `D5`.
    pub right_motor: Motor,
}

impl Motors {
    /// Open both motors on the fixed pin assignment: the left motor on
    /// PWM pin `P12` and direction pin `D4`, the right motor on `P13`
    /// and `D5`.
    pub fn new() -> (r: Result<Motors, HatError>)
        ensures
            r matches Ok(m) ==> {
                &&& m.left_motor.pwm.wf()
                &&& m.right_motor.pwm.wf()
                &&& m.left_motor.pwm.channel == 12
                &&& m.right_motor.pwm.channel == 13
                &&& m.left_motor.cmd == 0
                &&& m.right_motor.cmd == 0
            },
            r matches Err(e) ==> (e is I2c || e is Gpio),
    {
        let left_motor = Motor::new(PinType::P12, PinType::D4)?;
        let right_motor = Motor::new(PinType::P13, PinType::D5)?;

        Ok(Motors { left_motor, right_motor })
    }

    /// Stop both motors, discarding transport failures.
    pub fn stop(&mut self)
        requires
            old(self).left_motor.pwm.wf(),
            old(self).right_motor.pwm.wf(),
        ensures
            final(self).left_motor.cmd == 0,
            final(self).right_motor.cmd == 0,
            final(self).left_motor.pwm == old(self).left_motor.pwm,
            final(self).right_motor.pwm == old(self).right_motor.pwm,
    {
        let _ = self.left_motor.speed(0);
        let _ = self.right_motor.speed(0);
    }

    /// Command both motors, negating the right motor's sign, and
    /// discarding transport failures.
    fn speed(&mut self, left_speed: i8, right_speed: i8)
        requires
            old(self).left_motor.pwm.wf(),
            old(self).right_motor.pwm.wf(),
            -100 <= left_speed <= 100,
            -100 <= right_speed <= 100,
        ensures
            final(self).left_motor.cmd == left_speed,
            final(self).right_motor.cmd == -right_speed,
            final(self).left_motor.pwm == old(self).left_motor.pwm,
            final(self).right_motor.pwm == old(self).right_motor.pwm,
    {
        let (l, r) = drive_pair(left_speed, right_speed);
        let _ = self.left_motor.speed(l);
        let _ = self.right_motor.speed(r);
    }

    /// Drive forward: the left motor is commanded `speed`, the right
    /// motor `-speed` (its mounting mirrors the left one).
    pub fn forward(&mut self, speed: i8)
        requires
            old(self).left_motor.pwm.wf(),
            old(self).right_motor.pwm.wf(),
            0 <= speed <= 100,
        ensures
            final(self).left_motor.cmd == speed,
            final(self).right_motor.cmd == -speed,
            final(self).left_motor.pwm == old(self).left_motor.pwm,
            final(self).right_motor.pwm == old(self).right_motor.pwm,
    {
        self.speed(speed, speed);
    }

    /// Drive backward: the left motor is commanded `-speed`, the right
    /// motor `speed`.
    pub fn backward(&mut self, speed: i8)
        requires
            old(self).left_motor.pwm.wf(),
            old(self).right_motor.pwm.wf(),
            0 <= speed <= 100,
        ensures
            final(self).left_motor.cmd == -speed,
            final(self).right_motor.cmd == speed,
            final(self).left_motor.pwm == old(self).left_motor.pwm,
            final(self).right_motor.pwm == old(self).right_motor.pwm,
    {
        self.speed(-speed, -speed);
    }

    /// Turn left: both motors are commanded `-speed` (which, with the
    /// right motor's mirrored mounting, spins the chassis left).
    pub fn turn_left(&mut self, speed: i8)
        requires
            old(self).left_motor.pwm.wf(),
            old(self).right_motor.pwm.wf(),
            0 <= speed <= 100,
        ensures
            final(self).left_motor.cmd == -speed,
            final(self).right_motor.cmd == -speed,
            final(self).left_motor.pwm == old(self).left_motor.pwm,
            final(self).right_motor.pwm == old(self).right_motor.pwm,
    {
        self.speed(-speed, speed);
    }

    /// Turn right: both motors are commanded `speed`.
    pub fn turn_right(&mut self, speed: i8)
        requires
            old(self).left_motor.pwm.wf(),
            old(self).right_motor.pwm.wf(),
            0 <= speed <= 100,
        ensures
            final(self).left_motor.cmd == speed,
            final(self).right_motor.cmd == speed,
            final(self).left_motor.pwm == old(self).left_motor.pwm,
            final(self).right_motor.pwm == old(self).right_motor.pwm,
    {
        self.speed(speed, -speed);
    }
}

} // verus!
