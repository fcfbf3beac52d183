//! Servo mapping, grayscale comparison, ranging division, differential
//! drive, and range mapping.

use robot_hat::grayscale::status_of;
use robot_hat::motor::{drive_pair, motor_dir_high, motor_duty};
use robot_hat::servo::{angle_pulse_width_us, pulse_ticks};
use robot_hat::ultrasonic::distance_cm;
use robot_hat::utils::map_range;

#[test]
fn servo_angles_map_linearly_to_pulse_times() {
    assert_eq!(angle_pulse_width_us(-90), 500);
    assert_eq!(angle_pulse_width_us(0), 1500);
    assert_eq!(angle_pulse_width_us(90), 2500);
    assert_eq!(angle_pulse_width_us(45), 2000);
}

#[test]
fn servo_angles_clamp_into_range() {
    assert_eq!(angle_pulse_width_us(-1000), 500);
    assert_eq!(angle_pulse_width_us(91), 2500);
    assert_eq!(angle_pulse_width_us(i32::MIN), 500);
    assert_eq!(angle_pulse_width_us(i32::MAX), 2500);
}

#[test]
fn pulse_times_convert_to_ticks() {
    assert_eq!(pulse_ticks(500), 102);
    assert_eq!(pulse_ticks(1500), 307);
    assert_eq!(pulse_ticks(2500), 511);
}

#[test]
fn grayscale_status_is_a_strict_comparison() {
    let status = status_of(&[1001, 999, 1000], &[1000, 1000, 1000]);
    assert_eq!(status, [true, false, false]);
    let status = status_of(&[0, 4095, 500], &[100, 100, 500]);
    assert_eq!(status, [false, true, false]);
}

#[test]
fn ultrasonic_distance_divides_by_58() {
    assert_eq!(distance_cm(580), 10);
    assert_eq!(distance_cm(0), 0);
    assert_eq!(distance_cm(57), 0);
    assert_eq!(distance_cm(58), 1);
    assert_eq!(distance_cm(11600), 200);
}

#[test]
fn differential_drive_negates_the_right_speed() {
    // the forward command hands both motors the same speed
    assert_eq!(drive_pair(50, 50), (50, -50));
    // the turn-left command hands them (-speed, speed)
    assert_eq!(drive_pair(-50, 50), (-50, -50));
    // the backward command hands them (-speed, -speed)
    assert_eq!(drive_pair(-50, -50), (-50, 50));
    assert_eq!(drive_pair(0, 0), (0, 0));
}

#[test]
fn motor_speed_splits_into_direction_and_magnitude() {
    assert_eq!(motor_duty(50), 50);
    assert_eq!(motor_duty(-50), 50);
    assert_eq!(motor_duty(0), 0);
    assert!(motor_dir_high(50));
    assert!(!motor_dir_high(-50));
    assert!(!motor_dir_high(0));
}

#[test]
fn map_range_is_linear_and_truncates() {
    assert_eq!(map_range(0, (-90, 90), (500, 2500)), 1500);
    assert_eq!(map_range(-90, (-90, 90), (500, 2500)), 500);
    assert_eq!(map_range(90, (-90, 90), (500, 2500)), 2500);
    assert_eq!(map_range(1, (0, 3), (0, 10)), 3);
    assert_eq!(map_range(5, (0, 10), (100, 200)), 150);
}
