//! ADC register interface.
//!
//! Eight channels, addressed in reverse with the read-mode bit set. A
//! conversion is a zero-word write that arms the channel, followed by two
//! single-byte reads, most-significant first.

use vstd::prelude::*;
use crate::error::{HatError, Phase};
use crate::hw;
use crate::utils::init_i2c;

verus! {

/// The register that addresses an ADC channel: the channel number
/// reversed, with the read-mode bit set.
pub fn adc_register(channel: u8) -> (r: u8)
    requires
        channel < 8,
    ensures
        r == (7 - channel) as u8 | 0x10,
        r == 23 - channel,
    {
    let reg = (7 - channel) | 0x10;
    proof {
        assert(channel < 8 ==> ((7 - channel) as u8 | 0x10) == (23 - channel) as u8)
            by (bit_vector);
    }
    reg
}

/// Combine the two bytes of an ADC word read, most-significant first.
pub fn combine_bytes(high: u8, low: u8) -> (r: u16)
    ensures
        r == high * 256 + low,
{
    (high as u16) * 256 + (low as u16)
}

/// An ADC conversion result scaled to millivolts of the 3.3 V reference:
/// `raw * 3300 / 4095`, truncated.
pub fn voltage_millivolts(raw: u16) -> (r: u32)
    ensures
        r == raw * 3300 / 4095,
{
    (raw as u32) * 3300 / 4095
}

/// A handle on one ADC channel: its derived register address and an
/// exclusive bus session.
#[derive(Debug)]
pub struct ADC {
    /// The register the channel answers on.
    pub reg: u8,
    /// The exclusive bus session the channel is read over.
    pub bus: rppal::i2c::I2c,
}

impl ADC {
    /// Open a bus session on an ADC channel (0-7). Channels out of range
    /// are rejected before any hardware is touched.
    pub fn new(channel: u8) -> (r: Result<ADC, HatError>)
        ensures
            channel >= 8 ==> (r matches Err(e) && e matches HatError::InvalidAdcChannel(c)
                && c == channel),
            r matches Ok(a) ==> channel < 8 && a.reg == (23 - channel) as u8,
            r matches Err(e) ==> (channel < 8 ==> (e matches HatError::I2c(p, _)
                && (p == Phase::BusOpen || p == Phase::SetAddress || p == Phase::Handshake))),
    {
        if channel >= 8 {
            return Err(HatError::InvalidAdcChannel(channel));
        }
        let reg = adc_register(channel);
        let bus = init_i2c()?;

        Ok(ADC { reg, bus })
    }

    /// Read the channel: arm it with a zero-word write, then read the two
    /// bytes of the conversion, most-significant first. The board reports
    /// twelve-bit conversions, 0-4095.
    pub fn read_value(&mut self) -> (r: Result<u16, HatError>)
        ensures
            *final(self) == *old(self),
            r matches Err(e) ==> (e matches HatError::I2c(p, _) && (p == Phase::AdcArm
                || p == Phase::AdcReadHigh || p == Phase::AdcReadLow)),
    {
        match hw::i2c_write_word(&self.bus, self.reg, 0) {
            Ok(()) => (),
            Err(e) => {
                return Err(HatError::I2c(Phase::AdcArm, e));
            }
        }
        let value_h = match hw::i2c_read_byte(&self.bus, self.reg) {
            Ok(b) => b,
            Err(e) => {
                return Err(HatError::I2c(Phase::AdcReadHigh, e));
            }
        };
        let value_l = match hw::i2c_read_byte(&self.bus, self.reg) {
            Ok(b) => b,
            Err(e) => {
                return Err(HatError::I2c(Phase::AdcReadLow, e));
            }
        };

        Ok(combine_bytes(value_h, value_l))
    }
}

} // verus!
