//! Trusted declarations of the GPIO / I2C transport collaborators.
//!
//! Everything the board does on the wires happens in the `rppal` crate;
//! each wrapper here holds exactly one such call. The levels read and the
//! outcomes of bus transactions depend on the hardware, so the contracts
//! promise nothing about them; the verified logic above states what holds
//! whatever came back.

use vstd::prelude::*;

verus! {

#[verifier::external_type_specification]
#[verifier::external_body]
pub struct ExGpio(rppal::gpio::Gpio);

#[verifier::external_type_specification]
#[verifier::external_body]
pub struct ExGpioPin(rppal::gpio::Pin);

#[verifier::external_type_specification]
#[verifier::external_body]
pub struct ExInputPin(rppal::gpio::InputPin);

#[verifier::external_type_specification]
#[verifier::external_body]
pub struct ExOutputPin(rppal::gpio::OutputPin);

#[verifier::external_type_specification]
#[verifier::external_body]
pub struct ExGpioError(rppal::gpio::Error);

#[verifier::external_type_specification]
#[verifier::external_body]
pub struct ExI2c(rppal::i2c::I2c);

#[verifier::external_type_specification]
#[verifier::external_body]
pub struct ExI2cError(rppal::i2c::Error);

#[verifier::external_type_specification]
#[verifier::external_body]
pub struct ExInstant(std::time::Instant);

/// Relies on `rppal::gpio::Gpio::new`: opens the GPIO peripheral.
#[verifier::external_body]
pub(crate) fn gpio_new() -> (r: Result<rppal::gpio::Gpio, rppal::gpio::Error>) {
    rppal::gpio::Gpio::new()
}

/// Relies on `rppal::gpio::Gpio::get`: claims the line with the given BCM
/// number; fails when the line is unavailable or out of range.
#[verifier::external_body]
pub(crate) fn gpio_get(gpio: &rppal::gpio::Gpio, bcm: u8) -> (r: Result<
    rppal::gpio::Pin,
    rppal::gpio::Error,
>) {
    gpio.get(bcm)
}

/// Relies on `rppal::gpio::Pin::into_input`: configures the line as an input.
#[verifier::external_body]
pub(crate) fn pin_into_input(pin: rppal::gpio::Pin) -> (r: rppal::gpio::InputPin) {
    pin.into_input()
}

/// Relies on `rppal::gpio::Pin::into_output`: configures the line as an output.
#[verifier::external_body]
pub(crate) fn pin_into_output(pin: rppal::gpio::Pin) -> (r: rppal::gpio::OutputPin) {
    pin.into_output()
}

/// Relies on `rppal::gpio::InputPin::is_high`: reads the line's level.
#[verifier::external_body]
pub(crate) fn input_is_high(pin: &rppal::gpio::InputPin) -> (r: bool) {
    pin.is_high()
}

/// Relies on `rppal::gpio::InputPin::is_low`: reads the line's level.
#[verifier::external_body]
pub(crate) fn input_is_low(pin: &rppal::gpio::InputPin) -> (r: bool) {
    pin.is_low()
}

/// Relies on `rppal::gpio::OutputPin::write`: drives the line high or low.
#[verifier::external_body]
pub(crate) fn output_write(pin: &mut rppal::gpio::OutputPin, high: bool) {
    pin.write(if high {
        rppal::gpio::Level::High
    } else {
        rppal::gpio::Level::Low
    })
}

/// Relies on `rppal::i2c::I2c::with_bus`: opens the I2C bus with the given
/// index.
#[verifier::external_body]
pub(crate) fn i2c_with_bus(bus: u8) -> (r: Result<rppal::i2c::I2c, rppal::i2c::Error>) {
    rppal::i2c::I2c::with_bus(bus)
}

/// Relies on `rppal::i2c::I2c::set_slave_address`: selects the target
/// device for the following transactions.
#[verifier::external_body]
pub(crate) fn i2c_set_slave_address(i2c: &mut rppal::i2c::I2c, addr: u16) -> (r: Result<
    (),
    rppal::i2c::Error,
>) {
    i2c.set_slave_address(addr)
}

/// Relies on `rppal::i2c::I2c::smbus_send_byte`: sends one byte to the
/// selected device.
#[verifier::external_body]
pub(crate) fn i2c_send_byte(i2c: &rppal::i2c::I2c, value: u8) -> (r: Result<
    (),
    rppal::i2c::Error,
>) {
    i2c.smbus_send_byte(value)
}

/// Relies on `rppal::i2c::I2c::smbus_write_word`: sends a register address
/// and a 16-bit value (low byte on the wire first).
#[verifier::external_body]
pub(crate) fn i2c_write_word(i2c: &rppal::i2c::I2c, reg: u8, value: u16) -> (r: Result<
    (),
    rppal::i2c::Error,
>) {
    i2c.smbus_write_word(reg, value)
}

/// Relies on `rppal::i2c::I2c::smbus_read_byte`: sends a register address
/// and receives one byte.
#[verifier::external_body]
pub(crate) fn i2c_read_byte(i2c: &rppal::i2c::I2c, reg: u8) -> (r: Result<
    u8,
    rppal::i2c::Error,
>) {
    i2c.smbus_read_byte(reg)
}

/// Relies on `rppal::hal::Delay`'s `embedded_hal::delay::DelayNs`
/// implementation: suspends the caller for the given number of
/// microseconds.
#[verifier::external_body]
pub(crate) fn wait_micros(us: u32) {
    let mut delay = rppal::hal::Delay::new();
    embedded_hal::delay::DelayNs::delay_us(&mut delay, us)
}

/// Relies on `std::time::Instant::now`: a monotonic timestamp.
#[verifier::external_body]
pub(crate) fn instant_now() -> (r: std::time::Instant) {
    std::time::Instant::now()
}

/// Relies on `std::time::Instant::elapsed`: the microseconds that passed
/// since the timestamp was taken.
#[verifier::external_body]
pub(crate) fn elapsed_micros(start: &std::time::Instant) -> (r: u128) {
    start.elapsed().as_micros()
}

} // verus!
