//! Tests of motor ac.

use isochron::motor::ac::{AcMotor, AcMotorConfig, AcRelayType};
use isochron::traits::motor::{AcMotorDriver, AcMotorState, MotorDriver, MotorError};
use isochron::traits::stepper::Direction;

#[test]
fn ac_test_initial_state() {
    let motor = AcMotor::new(AcMotorConfig::default());

    assert!(!motor.is_enabled());
    assert!(motor.is_stopped());
    assert_eq!(motor.state(), AcMotorState::Off);
    assert!(!motor.relay_state());
}

#[test]
fn ac_test_enable_disable() {
    let mut motor = AcMotor::new(AcMotorConfig::default());

    motor.enable(true);
    assert!(motor.is_enabled());

    motor.enable(false);
    assert!(!motor.is_enabled());
    assert!(motor.is_stopped());
}

#[test]
fn ac_test_start_requires_enable() {
    let mut motor = AcMotor::new(AcMotorConfig::default());

    let result = motor.start();
    assert_eq!(result, Err(MotorError::Disabled));
}

#[test]
fn test_start_and_run() {
    let config = AcMotorConfig {
        min_switch_delay_ms: 10,
        ..Default::default()
    };
    let mut motor = AcMotor::new(config);

    motor.enable(true);
    motor.start().unwrap();

    assert_eq!(motor.state(), AcMotorState::SwitchDelay);
    assert!(motor.relay_state()); // Relay should be active

    // After switch delay, should be running
    for _ in 0..15 {
        motor.update();
    }
    assert_eq!(motor.state(), AcMotorState::On);
    assert!(motor.is_running());
}

#[test]
fn test_stop() {
    let config = AcMotorConfig {
        min_switch_delay_ms: 10,
        ..Default::default()
    };
    let mut motor = AcMotor::new(config);

    motor.enable(true);
    motor.start().unwrap();

    // Wait for switch delay
    for _ in 0..15 {
        motor.update();
    }
    assert!(motor.is_running());

    motor.stop();
    assert_eq!(motor.state(), AcMotorState::SwitchDelay);
    assert!(!motor.relay_state()); // Relay should be off

    // After switch delay, should be stopped
    for _ in 0..15 {
        motor.update();
    }
    assert!(motor.is_stopped());
}

#[test]
fn test_switch_too_fast_protection() {
    let config = AcMotorConfig {
        min_switch_delay_ms: 100,
        ..Default::default()
    };
    let mut motor = AcMotor::new(config);

    motor.enable(true);
    motor.start().unwrap();

    // Wait for switch delay
    for _ in 0..110 {
        motor.update();
    }

    motor.stop();

    // Try to start again immediately - should fail
    for _ in 0..50 {
        motor.update();
    }

    let result = motor.start();
    assert_eq!(result, Err(MotorError::SwitchTooFast));

    // Wait for full delay
    for _ in 0..100 {
        motor.update();
    }

    let result = motor.start();
    assert!(result.is_ok());
}

#[test]
fn ac_test_direction_change_only_when_stopped() {
    let config = AcMotorConfig {
        min_switch_delay_ms: 10,
        has_direction: true,
        ..Default::default()
    };
    let mut motor = AcMotor::new(config);

    motor.enable(true);
    motor.set_direction(Direction::CounterClockwise);
    assert_eq!(motor.get_direction(), Direction::CounterClockwise);

    motor.start().unwrap();

    // Wait for running
    for _ in 0..15 {
        motor.update();
    }

    // Try to change direction while running - should queue but not apply
    motor.set_direction(Direction::Clockwise);
    assert_eq!(motor.get_direction(), Direction::CounterClockwise);

    // Stop and wait
    motor.stop();
    for _ in 0..15 {
        motor.update();
    }

    // Now direction should change
    motor.update();
    assert_eq!(motor.get_direction(), Direction::Clockwise);
}

#[test]
fn test_active_low_relay() {
    let config = AcMotorConfig {
        active_high: false,
        min_switch_delay_ms: 10,
        ..Default::default()
    };
    let mut motor = AcMotor::new(config);

    // When off, active-low relay should output HIGH
    assert!(motor.relay_state());

    motor.enable(true);
    motor.start().unwrap();

    // When on, active-low relay should output LOW
    assert!(!motor.relay_state());
}

#[test]
fn test_ssr_config() {
    let config = AcMotorConfig::ssr();

    assert_eq!(config.relay_type, AcRelayType::Ssr);
    assert_eq!(config.min_switch_delay_ms, 10);
    assert!(config.active_high);
}

#[test]
fn test_mechanical_config() {
    let config = AcMotorConfig::mechanical();

    assert_eq!(config.relay_type, AcRelayType::Mechanical);
    assert_eq!(config.min_switch_delay_ms, 100);
}

#[test]
fn relay_agrees_with_on_and_off() {
    let mut motor = AcMotor::new(AcMotorConfig { min_switch_delay_ms: 10, ..AcMotorConfig::default() });
    motor.enable(true);
    for step in 0..200u32 {
        if step % 50 == 0 {
            let _ = motor.start();
        }
        if step % 50 == 25 {
            motor.stop();
        }
        motor.update_with_delta(1);
        let active = motor.relay_state() == motor.config().active_high;
        match motor.state() {
            AcMotorState::On => assert!(active),
            AcMotorState::Off => assert!(!active),
            AcMotorState::SwitchDelay => {}
        }
    }
}
