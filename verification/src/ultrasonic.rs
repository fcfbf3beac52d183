//! Ultrasonic ranging sensor: a trigger pulse, a busy-polled echo window,
//! and a time-of-flight division.

use vstd::prelude::*;
use crate::error::HatError;
use crate::hw;
use crate::pin::{PinType, RHPin, spec_is_digital_pin};

verus! {

/// The distance in centimetres that an echo of the given length reports:
/// the elapsed microseconds divided by 58, truncated (and truncated again
/// into 64 bits, which only matters for elapsed times beyond any echo the
/// sensor can produce).
pub fn distance_cm(elapsed_us: u128) -> (r: u64)
    ensures
        r == (elapsed_us / 58) as u64,
{
    (elapsed_us / 58) as u64
}

/// How many times each echo edge is polled before the cycle is abandoned.
/// A bounded poll turns a stuck echo line into a reported failure instead
/// of an indefinite block.
pub const ECHO_POLL_LIMIT: u32 = 10_000_000;

/// An ultrasonic ranger on two digital lines: trigger out, echo in.
pub struct Ultrasonic {
    trig: rppal::gpio::OutputPin,
    echo: rppal::gpio::InputPin,
}

impl Ultrasonic {
    /// Claim the trigger and echo lines. Non-digital pins are rejected
    /// before any hardware is touched.
    pub fn new(trig_pin: PinType, echo_pin: PinType) -> (r: Result<Ultrasonic, HatError>)
        ensures
            !spec_is_digital_pin(trig_pin) ==> (r matches Err(e)
                && e matches HatError::NotDigitalPin(p) && p == trig_pin),
            spec_is_digital_pin(trig_pin) && !spec_is_digital_pin(echo_pin) ==> (r matches Err(e)
                && e matches HatError::NotDigitalPin(p) && p == echo_pin),
            r matches Err(e) ==> (spec_is_digital_pin(trig_pin) && spec_is_digital_pin(echo_pin)
                ==> e is Gpio),
    {
        if !trig_pin.is_digital_pin() {
            return Err(HatError::NotDigitalPin(trig_pin));
        }
        if !echo_pin.is_digital_pin() {
            return Err(HatError::NotDigitalPin(echo_pin));
        }

        let trig_pin = RHPin::new(trig_pin)?;
        let echo_pin = RHPin::new(echo_pin)?;
        let trig = hw::pin_into_output(trig_pin.gpio_pin);
        let echo = hw::pin_into_input(echo_pin.gpio_pin);

        Ok(Ultrasonic { trig, echo })
    }

    /// Fire a ranging cycle and report the distance in centimetres: hold
    /// the trigger low for 5 us, pulse it high for 10 us, busy-poll the
    /// echo line for its rising and then its falling edge, and divide the
    /// elapsed microseconds by 58.
    ///
    /// Each edge is polled at most [`ECHO_POLL_LIMIT`] times; a stuck echo
    /// line yields `None` instead of blocking the caller indefinitely.
    pub fn read(&mut self) -> Option<u64> {
        hw::output_write(&mut self.trig, false);
        hw::wait_micros(5);

        hw::output_write(&mut self.trig, true);
        hw::wait_micros(10);
        hw::output_write(&mut self.trig, false);

        let mut polls: u32 = 0;
        while !hw::input_is_high(&self.echo)
            invariant
                polls <= ECHO_POLL_LIMIT,
            decreases ECHO_POLL_LIMIT - polls,
        {
            if polls == ECHO_POLL_LIMIT {
                return None;
            }
            polls = polls + 1;
        }

        let pulse_start = hw::instant_now();
        let mut polls: u32 = 0;
        while !hw::input_is_low(&self.echo)
            invariant
                polls <= ECHO_POLL_LIMIT,
            decreases ECHO_POLL_LIMIT - polls,
        {
            if polls == ECHO_POLL_LIMIT {
                return None;
            }
            polls = polls + 1;
        }

        let time_taken = hw::elapsed_micros(&pulse_start);

        Some(distance_cm(time_taken))
    }
}

} // verus!
