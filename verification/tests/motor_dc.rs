//! Tests of motor dc.

use isochron::motor::dc::{DcMotor, DcMotorConfig};
use isochron::traits::motor::{DcDriverType, DcMotorDriver, DcMotorState, MotorDriver, MotorError};
use isochron::traits::stepper::Direction;

#[test]
fn dc_test_initial_state() {
    let motor = DcMotor::new(DcMotorConfig::default());

    assert!(!motor.is_enabled());
    assert!(motor.is_stopped());
    assert_eq!(motor.get_speed(), 0);
    assert_eq!(motor.get_actual_speed(), 0);
    assert_eq!(motor.state(), DcMotorState::Stopped);
}

#[test]
fn dc_test_enable_disable() {
    let mut motor = DcMotor::new(DcMotorConfig::default());

    motor.enable(true);
    assert!(motor.is_enabled());

    motor.enable(false);
    assert!(!motor.is_enabled());
    assert!(motor.is_stopped());
}

#[test]
fn dc_test_start_requires_enable() {
    let mut motor = DcMotor::new(DcMotorConfig::default());

    motor.set_speed(50);
    let result = motor.start();
    assert_eq!(result, Err(MotorError::Disabled));
}

#[test]
fn test_start_requires_speed() {
    let mut motor = DcMotor::new(DcMotorConfig::default());

    motor.enable(true);
    let result = motor.start();
    assert_eq!(result, Err(MotorError::InvalidSpeed));
}

#[test]
fn test_soft_start() {
    let config = DcMotorConfig {
        min_duty: 0,
        soft_start_ms: 100,
        soft_stop_ms: 100,
        has_direction: true,
    };
    let mut motor = DcMotor::new(config);

    motor.enable(true);
    motor.set_speed(100);
    motor.start().unwrap();

    assert_eq!(motor.state(), DcMotorState::Starting);

    // After 50ms, should be at ~50%
    for _ in 0..50 {
        motor.update();
    }
    assert!(motor.get_actual_speed() >= 40 && motor.get_actual_speed() <= 60);
    assert_eq!(motor.state(), DcMotorState::Starting);

    // After 100ms total, should be at 100%
    for _ in 0..50 {
        motor.update();
    }
    assert_eq!(motor.get_actual_speed(), 100);
    assert_eq!(motor.state(), DcMotorState::Running);
}

#[test]
fn test_soft_stop() {
    let config = DcMotorConfig {
        min_duty: 0,
        soft_start_ms: 0, // Instant start
        soft_stop_ms: 100,
        has_direction: true,
    };
    let mut motor = DcMotor::new(config);

    motor.enable(true);
    motor.set_speed(100);
    motor.start().unwrap();
    motor.update(); // Get to running state

    assert_eq!(motor.state(), DcMotorState::Running);
    assert_eq!(motor.get_actual_speed(), 100);

    motor.stop();
    assert_eq!(motor.state(), DcMotorState::Stopping);

    // After 50ms, should be at ~50%
    for _ in 0..50 {
        motor.update();
    }
    assert!(motor.get_actual_speed() <= 60);

    // After 100ms total, should be at 0%
    for _ in 0..60 {
        motor.update();
    }
    assert_eq!(motor.get_actual_speed(), 0);
    assert_eq!(motor.state(), DcMotorState::Stopped);
}

#[test]
fn test_instant_start_stop() {
    let config = DcMotorConfig {
        min_duty: 0,
        soft_start_ms: 0,
        soft_stop_ms: 0,
        has_direction: true,
    };
    let mut motor = DcMotor::new(config);

    motor.enable(true);
    motor.set_speed(80);
    motor.start().unwrap();
    motor.update();

    // Should immediately be at speed
    assert_eq!(motor.get_actual_speed(), 80);
    assert_eq!(motor.state(), DcMotorState::Running);

    motor.stop();
    motor.update();

    // Should immediately stop
    assert_eq!(motor.get_actual_speed(), 0);
    assert_eq!(motor.state(), DcMotorState::Stopped);
}

#[test]
fn test_duty_scaling() {
    let config = DcMotorConfig {
        min_duty: 20,
        soft_start_ms: 0,
        soft_stop_ms: 0,
        has_direction: true,
    };
    let mut motor = DcMotor::new(config);

    motor.enable(true);

    // 0% should be 0 (off) - can't start with 0 speed
    motor.set_speed(0);
    assert_eq!(motor.start(), Err(MotorError::InvalidSpeed));
    let duty = motor.update();
    assert_eq!(duty, 0);

    // 100% should be 100
    motor.set_speed(100);
    motor.start().unwrap();
    let duty = motor.update();
    assert_eq!(duty, 100);

    // Stop and restart at 50%
    motor.stop();
    motor.update();

    motor.set_speed(50);
    motor.start().unwrap();
    let duty = motor.update();
    // 50% should be scaled: 20 + (50% of 80) = 20 + 40 = 60
    assert_eq!(duty, 60);
}

#[test]
fn dc_test_direction_change_only_when_stopped() {
    let mut motor = DcMotor::new(DcMotorConfig::default());

    motor.set_direction(Direction::CounterClockwise);
    assert_eq!(motor.get_direction(), Direction::CounterClockwise);

    motor.enable(true);
    motor.set_speed(50);
    motor.start().unwrap();
    motor.update();

    // Try to change direction while running - should be ignored
    motor.set_direction(Direction::Clockwise);
    assert_eq!(motor.get_direction(), Direction::CounterClockwise);

    // Stop and change
    motor.stop();
    while motor.state() != DcMotorState::Stopped {
        motor.update();
    }

    motor.set_direction(Direction::Clockwise);
    assert_eq!(motor.get_direction(), Direction::Clockwise);
}
