//! Bus session setup and integer range mapping.

use vstd::prelude::*;
use crate::error::{HatError, Phase};
use crate::hw;

verus! {

/// Index of the bus the co-processor sits on.
pub const I2C_BUS: u8 = 1;

/// The co-processor's bus address.
pub const SLAVE_ADDR: u16 = 0x14;

/// Open a session with the co-processor: open the bus at its fixed index,
/// select the fixed target address, write the handshake bytes 0x2C, 0x00,
/// 0x00 in order, then wait one second for the co-processor to settle
/// (traffic sent earlier produces a transport error).
///
/// Any failure aborts the session; the error names the phase.
pub fn init_i2c() -> (r: Result<rppal::i2c::I2c, HatError>)
    ensures
        r matches Err(e) ==> (e matches HatError::I2c(p, _)
            && (p == Phase::BusOpen || p == Phase::SetAddress || p == Phase::Handshake)),
{
    let mut i2c = match hw::i2c_with_bus(I2C_BUS) {
        Ok(b) => b,
        Err(e) => {
            return Err(HatError::I2c(Phase::BusOpen, e));
        }
    };
    match hw::i2c_set_slave_address(&mut i2c, SLAVE_ADDR) {
        Ok(()) => (),
        Err(e) => {
            return Err(HatError::I2c(Phase::SetAddress, e));
        }
    }
    match hw::i2c_send_byte(&i2c, 0x2C) {
        Ok(()) => (),
        Err(e) => {
            return Err(HatError::I2c(Phase::Handshake, e));
        }
    }
    match hw::i2c_send_byte(&i2c, 0x00) {
        Ok(()) => (),
        Err(e) => {
            return Err(HatError::I2c(Phase::Handshake, e));
        }
    }
    match hw::i2c_send_byte(&i2c, 0x00) {
        Ok(()) => (),
        Err(e) => {
            return Err(HatError::I2c(Phase::Handshake, e));
        }
    }
    hw::wait_micros(1_000_000);

    Ok(i2c)
}

/// Map `value` from `from_range` onto `to_range` linearly, rounding down.
pub fn map_range(value: i64, from_range: (i64, i64), to_range: (i64, i64)) -> (r: i64)
    requires
        from_range.0 <= value <= from_range.1,
        from_range.0 < from_range.1,
        to_range.0 <= to_range.1,
        value - from_range.0 <= i64::MAX,
        from_range.1 - from_range.0 <= i64::MAX,
        to_range.1 - to_range.0 <= i64::MAX,
        (value - from_range.0) * (to_range.1 - to_range.0) <= u64::MAX,
        (value - from_range.0) * (to_range.1 - to_range.0) / (from_range.1 - from_range.0)
            <= i64::MAX,
        to_range.0 + (value - from_range.0) * (to_range.1 - to_range.0) / (from_range.1
            - from_range.0) <= i64::MAX,
    ensures
        r == to_range.0 + (value - from_range.0) * (to_range.1 - to_range.0) / (from_range.1
            - from_range.0),
{
    let num = (value - from_range.0) as u64 * (to_range.1 - to_range.0) as u64;
    let q = num / (from_range.1 - from_range.0) as u64;
    to_range.0 + q as i64
}

} // verus!
