//! The library's error taxonomy: configuration errors for mismatched
//! logical-pin roles, and phase-tagged transport errors.

use vstd::prelude::*;
use crate::pin::PinType;

verus! {

/// Which transaction a transport error surfaced from.
#[derive(Copy, Clone, Debug, PartialEq, Eq, Structural)]
pub enum Phase {
    /// Opening the GPIO peripheral.
    GpioOpen,
    /// Claiming a physical line.
    LineClaim,
    /// Opening the addressed serial bus.
    BusOpen,
    /// Selecting the co-processor's bus address.
    SetAddress,
    /// One of the three handshake bytes.
    Handshake,
    /// A prescaler register write.
    PrescalerWrite,
    /// A period register write.
    PeriodWrite,
    /// A pulse-width register write.
    PulseWrite,
    /// The zero-word write that arms an ADC conversion.
    AdcArm,
    /// Reading the most-significant ADC byte.
    AdcReadHigh,
    /// Reading the least-significant ADC byte.
    AdcReadLow,
}

/// An error of the library: a rejected pin role, or a failed bus / line
/// transaction together with the phase it failed in.
#[derive(Debug)]
pub enum HatError {
    /// The constructor needs a PWM pin (`P0`-`P13`).
    NotPwmPin(PinType),
    /// The constructor needs a digital pin (`D0`-`D16`).
    NotDigitalPin(PinType),
    /// ADC channels range over 0-7.
    InvalidAdcChannel(u8),
    /// A GPIO transaction failed.
    Gpio(Phase, rppal::gpio::Error),
    /// A bus transaction failed.
    I2c(Phase, rppal::i2c::Error),
}

impl HatError {
    /// The phase a transport error surfaced from, if this is one.
    pub fn phase(&self) -> (r: Option<Phase>)
        ensures
            match *self {
                HatError::Gpio(p, _) => r == Some(p),
                HatError::I2c(p, _) => r == Some(p),
                _ => r is None,
            },
    {
        match self {
            HatError::Gpio(p, _) => Some(*p),
            HatError::I2c(p, _) => Some(*p),
            _ => None,
        }
    }
}

} // verus!
