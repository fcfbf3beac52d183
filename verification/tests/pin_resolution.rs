//! Pin resolution across board revisions.

use robot_hat::pin::PinType;

#[test]
fn digital_pins_resolve() {
    assert_eq!(PinType::D0.bcm_num(true), 17);
    assert_eq!(PinType::D0.bcm_num(false), 17);
    assert_eq!(PinType::D2.bcm_num(true), 27);
    assert_eq!(PinType::D5.bcm_num(false), 24);
    assert_eq!(PinType::D7.bcm_num(true), 4);
    assert_eq!(PinType::D16.bcm_num(false), 21);
}

#[test]
fn pwm_pins_resolve_to_their_channel_number() {
    assert_eq!(PinType::P0.bcm_num(true), 0);
    assert_eq!(PinType::P0.bcm_num(false), 0);
    assert_eq!(PinType::P12.bcm_num(true), 12);
    assert_eq!(PinType::P13.bcm_num(false), 13);
}

#[test]
fn fixed_function_pins_resolve() {
    assert_eq!(PinType::Led.bcm_num(true), 26);
    assert_eq!(PinType::Led.bcm_num(false), 26);
    assert_eq!(PinType::BoardType.bcm_num(true), 12);
    assert_eq!(PinType::BoardType.bcm_num(false), 12);
    assert_eq!(PinType::Rst.bcm_num(true), 16);
    assert_eq!(PinType::BleInt.bcm_num(false), 13);
    assert_eq!(PinType::BleRst.bcm_num(true), 20);
}

#[test]
fn revision_dependent_pins_differ_between_revisions() {
    assert_eq!(PinType::D1.bcm_num(true), 18);
    assert_eq!(PinType::D1.bcm_num(false), 4);
    assert_eq!(PinType::SW.bcm_num(true), 19);
    assert_eq!(PinType::SW.bcm_num(false), 25);
    assert_eq!(PinType::User.bcm_num(true), 19);
    assert_eq!(PinType::User.bcm_num(false), 25);
    assert_eq!(PinType::McuRst.bcm_num(true), 21);
    assert_eq!(PinType::McuRst.bcm_num(false), 5);
}

#[test]
fn resolution_is_revision_invariant_outside_the_documented_subset() {
    let pins = [
        PinType::D0,
        PinType::D2,
        PinType::D3,
        PinType::D4,
        PinType::D5,
        PinType::D6,
        PinType::D7,
        PinType::D8,
        PinType::D9,
        PinType::D10,
        PinType::D11,
        PinType::D12,
        PinType::D13,
        PinType::D14,
        PinType::D15,
        PinType::D16,
        PinType::P0,
        PinType::P1,
        PinType::P2,
        PinType::P3,
        PinType::P4,
        PinType::P5,
        PinType::P6,
        PinType::P7,
        PinType::P8,
        PinType::P9,
        PinType::P10,
        PinType::P11,
        PinType::P12,
        PinType::P13,
        PinType::Led,
        PinType::BoardType,
        PinType::Rst,
        PinType::BleInt,
        PinType::BleRst,
    ];
    for pin in pins {
        assert_eq!(pin.bcm_num(true), pin.bcm_num(false));
    }
}

#[test]
fn pin_role_predicates() {
    assert!(PinType::D0.is_digital_pin());
    assert!(PinType::D16.is_digital_pin());
    assert!(!PinType::P0.is_digital_pin());
    assert!(!PinType::Led.is_digital_pin());
    assert!(PinType::P0.is_pwm_pin());
    assert!(PinType::P13.is_pwm_pin());
    assert!(!PinType::D3.is_pwm_pin());
    assert!(!PinType::SW.is_pwm_pin());
}

#[test]
fn pwm_channel_indices() {
    assert_eq!(PinType::P0.pwm_channel(), 0);
    assert_eq!(PinType::P7.pwm_channel(), 7);
    assert_eq!(PinType::P12.pwm_channel(), 12);
    assert_eq!(PinType::P13.pwm_channel(), 13);
}
