//! Register addressing, byte swapping, and duty-cycle arithmetic.

use robot_hat::adc::{adc_register, combine_bytes, voltage_millivolts};
use robot_hat::pwm::{
    duty_ticks, period_register, prescaler_register, pulse_width_register, swap_u16,
};

#[test]
fn prescaler_and_period_registers_are_per_group() {
    for channel in 0u8..14 {
        assert_eq!(prescaler_register(channel), 0x40 + channel / 4);
        assert_eq!(period_register(channel), 0x44 + channel / 4);
    }
    assert_eq!(prescaler_register(0), 0x40);
    assert_eq!(prescaler_register(3), 0x40);
    assert_eq!(prescaler_register(4), 0x41);
    assert_eq!(period_register(13), 0x47);
}

#[test]
fn pulse_width_registers_are_per_channel() {
    for channel in 0u8..14 {
        assert_eq!(pulse_width_register(channel), 0x20 + channel);
    }
}

#[test]
fn adc_registers_reverse_the_channel_and_set_the_read_bit() {
    for channel in 0u8..8 {
        assert_eq!(adc_register(channel), (7 - channel) | 0x10);
        assert_eq!(adc_register(channel), 23 - channel);
    }
    assert_eq!(adc_register(0), 0x17);
    assert_eq!(adc_register(7), 0x10);
}

#[test]
fn words_are_byte_swapped() {
    assert_eq!(swap_u16(0x1234), 0x3412);
    assert_eq!(swap_u16(0x00FF), 0xFF00);
    assert_eq!(swap_u16(0), 0);
    assert_eq!(swap_u16(0x04AF), 0xAF04);
}

#[test]
fn duty_is_the_cached_period_times_the_percentage() {
    // setting period 4095 caches 4094; half duty is floor(4095 * 50 / 100)
    assert_eq!(duty_ticks(4094, 50), 2047);
    assert_eq!(4095 * 50 / 100, 2047);
    assert_eq!(duty_ticks(4094, 0), 0);
    assert_eq!(duty_ticks(4094, 100), 4094);
    // a group whose period was never set computes against a zero cache
    assert_eq!(duty_ticks(0, 100), 0);
    assert_eq!(duty_ticks(1199, 50), 599);
}

#[test]
fn adc_bytes_combine_most_significant_first() {
    assert_eq!(combine_bytes(0x0F, 0xFF), 4095);
    assert_eq!(combine_bytes(0, 0), 0);
    assert_eq!(combine_bytes(0x01, 0x02), 258);
}

#[test]
fn voltage_conversion_spans_the_reference() {
    assert_eq!(voltage_millivolts(4095), 3300);
    assert_eq!(voltage_millivolts(0), 0);
    assert_eq!(voltage_millivolts(2048), 1650);
}
