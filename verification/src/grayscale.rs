//! Three-channel grayscale line sensor.

use vstd::prelude::*;
use crate::adc::ADC;
use crate::error::{HatError, Phase};

verus! {

/// The default per-channel reference value.
pub const GRAYSCALE_REF: u16 = 1000;

/// Channel statuses: a channel reads bright (true) exactly when its raw
/// value strictly exceeds its reference value.
pub fn status_of(values: &[u16; 3], refs: &[u16; 3]) -> (r: [bool; 3])
    ensures
        forall|i: int| 0 <= i < 3 ==> r@[i] == (values@[i] > refs@[i]),
{
    [values[0] > refs[0], values[1] > refs[1], values[2] > refs[2]]
}

/// A grayscale sensor: three ADC channels read together, each compared to
/// a per-channel reference.
pub struct Grayscale {
    /// The left channel.
    pub left: ADC,
    /// The middle channel.
    pub middle: ADC,
    /// The right channel.
    pub right: ADC,
    /// The per-channel reference values, 1000 by default.
    pub refs: [u16; 3],
}

impl Grayscale {
    /// Open the sensor's three ADC channels (each 0-7, left to right).
    /// Channels out of range are rejected, leftmost first, before any
    /// hardware is touched.
    pub fn new(left: u8, middle: u8, right: u8) -> (r: Result<Grayscale, HatError>)
        ensures
            left >= 8 ==> (r matches Err(e) && e matches HatError::InvalidAdcChannel(c)
                && c == left),
            left < 8 && middle >= 8 ==> (r matches Err(e)
                && e matches HatError::InvalidAdcChannel(c) && c == middle),
            left < 8 && middle < 8 && right >= 8 ==> (r matches Err(e)
                && e matches HatError::InvalidAdcChannel(c) && c == right),
            r matches Ok(g) ==> {
                &&& left < 8 && middle < 8 && right < 8
                &&& g.left.reg == 23 - left
                &&& g.middle.reg == 23 - middle
                &&& g.right.reg == 23 - right
                &&& g.refs@ == seq![GRAYSCALE_REF, GRAYSCALE_REF, GRAYSCALE_REF]
            },
            r matches Err(e) ==> (left < 8 && middle < 8 && right < 8 ==> (e matches
                HatError::I2c(p, _) && (p == Phase::BusOpen || p == Phase::SetAddress
                || p == Phase::Handshake))),
    {
        if left >= 8 {
            return Err(HatError::InvalidAdcChannel(left));
        }
        if middle >= 8 {
            return Err(HatError::InvalidAdcChannel(middle));
        }
        if right >= 8 {
            return Err(HatError::InvalidAdcChannel(right));
        }
        let left = ADC::new(left)?;
        let middle = ADC::new(middle)?;
        let right = ADC::new(right)?;

        Ok(Grayscale {
            left,
            middle,
            right,
            refs: [GRAYSCALE_REF, GRAYSCALE_REF, GRAYSCALE_REF],
        })
    }

    /// Set the per-channel reference values.
    pub fn set_reference_values(&mut self, refs: [u16; 3])
        ensures
            final(self).refs == refs,
            final(self).left == old(self).left,
            final(self).middle == old(self).middle,
            final(self).right == old(self).right,
    {
        self.refs = refs;
    }

    /// Read the three channels' raw values, left to right.
    pub fn read_values(&mut self) -> (r: Result<[u16; 3], HatError>)
        ensures
            *final(self) == *old(self),
            r matches Err(e) ==> (e matches HatError::I2c(p, _) && (p == Phase::AdcArm
                || p == Phase::AdcReadHigh || p == Phase::AdcReadLow)),
    {
        let v0 = self.left.read_value()?;
        let v1 = self.middle.read_value()?;
        let v2 = self.right.read_value()?;

        Ok([v0, v1, v2])
    }

    /// Read the three channels and compare each to its reference: true
    /// (bright) exactly when the raw value strictly exceeds the reference.
    pub fn read_status(&mut self) -> (r: Result<[bool; 3], HatError>)
        ensures
            *final(self) == *old(self),
            r matches Err(e) ==> (e matches HatError::I2c(p, _) && (p == Phase::AdcArm
                || p == Phase::AdcReadHigh || p == Phase::AdcReadLow)),
    {
        let values = self.read_values()?;

        Ok(status_of(&values, &self.refs))
    }
}

} // verus!
