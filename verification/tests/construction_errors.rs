//! Constructors reject mismatched pin roles before touching hardware, and
//! tag transport failures with the phase they surfaced from.

use robot_hat::adc::ADC;
use robot_hat::error::{HatError, Phase};
use robot_hat::motor::Motor;
use robot_hat::pin::PinType;
use robot_hat::pwm::PWM;
use robot_hat::servo::Servo;
use robot_hat::ultrasonic::Ultrasonic;

#[test]
fn pwm_rejects_non_pwm_pins() {
    match PWM::new(PinType::D0) {
        Err(HatError::NotPwmPin(PinType::D0)) => {}
        _ => panic!("a digital pin must be rejected as a PWM channel"),
    }
    match PWM::new(PinType::Led) {
        Err(HatError::NotPwmPin(PinType::Led)) => {}
        _ => panic!("a fixed-function pin must be rejected as a PWM channel"),
    }
}

#[test]
fn servo_rejects_non_pwm_pins() {
    match Servo::new(PinType::D3) {
        Err(HatError::NotPwmPin(PinType::D3)) => {}
        _ => panic!("a digital pin must be rejected as a servo channel"),
    }
}

#[test]
fn motor_rejects_mismatched_roles() {
    match Motor::new(PinType::D4, PinType::D5) {
        Err(HatError::NotPwmPin(PinType::D4)) => {}
        _ => panic!("a digital pin must be rejected as a motor's PWM channel"),
    }
    match Motor::new(PinType::P12, PinType::P13) {
        Err(HatError::NotDigitalPin(PinType::P13)) => {}
        _ => panic!("a PWM pin must be rejected as a motor's direction line"),
    }
}

#[test]
fn adc_rejects_channels_out_of_range() {
    match ADC::new(8) {
        Err(HatError::InvalidAdcChannel(8)) => {}
        _ => panic!("channel 8 must be rejected"),
    }
    match ADC::new(255) {
        Err(HatError::InvalidAdcChannel(255)) => {}
        _ => panic!("channel 255 must be rejected"),
    }
}

#[test]
fn ultrasonic_rejects_non_digital_pins() {
    match Ultrasonic::new(PinType::P0, PinType::D0) {
        Err(HatError::NotDigitalPin(PinType::P0)) => {}
        _ => panic!("a PWM pin must be rejected as the trigger line"),
    }
    match Ultrasonic::new(PinType::D0, PinType::SW) {
        Err(HatError::NotDigitalPin(PinType::SW)) => {}
        _ => panic!("a fixed-function pin must be rejected as the echo line"),
    }
}

#[test]
fn transport_failures_carry_their_phase() {
    // On a machine without the co-processor's bus, opening a PWM channel
    // fails in the bus-open phase; on the real board it succeeds instead.
    match PWM::new(PinType::P0) {
        Err(e) => match e.phase() {
            Some(Phase::BusOpen) | Some(Phase::SetAddress) | Some(Phase::Handshake)
            | Some(Phase::PrescalerWrite) | Some(Phase::PeriodWrite) => {}
            other => panic!("unexpected phase for a PWM construction failure: {:?}", other),
        },
        Ok(_) => {}
    }
}

#[test]
fn grayscale_rejects_channels_out_of_range() {
    match robot_hat::grayscale::Grayscale::new(9, 0, 1) {
        Err(HatError::InvalidAdcChannel(9)) => {}
        _ => panic!("the left channel must be rejected"),
    }
    match robot_hat::grayscale::Grayscale::new(0, 1, 100) {
        Err(HatError::InvalidAdcChannel(100)) => {}
        _ => panic!("the right channel must be rejected"),
    }
}
