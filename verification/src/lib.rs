//! Hardware abstraction library for a robot HAT co-processor board.
//!
//! The board is reached over an addressed serial bus (PWM timer and ADC
//! registers) and discrete digital lines (direction pins, trigger/echo,
//! the board-revision probe). This crate verifies the addressing,
//! conversion and decision logic; the bus and GPIO transport is provided
//! by the `rppal` crate behind trusted wrappers.

pub mod adc;
pub mod error;
pub mod grayscale;
mod hw;
pub mod motor;
pub mod pin;
pub mod pwm;
pub mod servo;
pub mod ultrasonic;
pub mod utils;
