//! Tests of heater pid.

use isochron::heater::pid::{PidCoefficients, PidConfig, PidController};
use isochron::traits::heater::{HeaterController, HeaterOutput, SensorError, TemperatureSensor};

struct MockSensor {
    temp_x10: i16,
}

impl TemperatureSensor for MockSensor {
    fn read_celsius_x10(&mut self) -> Result<i16, SensorError> {
        Ok(self.temp_x10)
    }
}

struct MockHeater {
    on: bool,
}

impl HeaterOutput for MockHeater {
    fn set_on(&mut self, on: bool) {
        self.on = on;
    }

    fn is_on(&self) -> bool {
        self.on
    }
}

#[test]
fn test_coefficients_from_scaled() {
    let coeffs = PidCoefficients::from_scaled_100(150, 100, 50);
    assert!(coeffs.is_configured());
    assert_eq!(coeffs.kp.to_scaled_100(), 150);
    // Values that are multiples of 100 round-trip perfectly
    assert_eq!(coeffs.ki.to_scaled_100(), 100);
    assert_eq!(coeffs.kd.to_scaled_100(), 50);

    // Test that small values still work (may have slight rounding)
    let small = PidCoefficients::from_scaled_100(10, 10, 10);
    // 10/100 = 0.1, which doesn't round-trip perfectly in Q16.16
    // The error is at most 1 in the scaled-100 representation
    assert!((small.kp.to_scaled_100() - 10).abs() <= 1);
}

#[test]
fn test_pid_heating_needed() {
    let sensor = MockSensor { temp_x10: 400 }; // 40°C
    let heater = MockHeater { on: false };
    let config = PidConfig {
        coefficients: PidCoefficients::from_scaled_100(100, 0, 0), // P-only
        pwm_period_ticks: 1,                                       // Immediate response
        ..Default::default()
    };

    let mut controller = PidController::new(sensor, heater, config);
    controller.set_target(50); // 50°C target
    controller.enable(true);

    // Update should result in heating (temp below target)
    controller.update().unwrap();
    assert!(controller.duty() > 0);
}

#[test]
fn test_pid_at_target() {
    let sensor = MockSensor { temp_x10: 450 }; // 45°C
    let heater = MockHeater { on: false };
    let config = PidConfig {
        coefficients: PidCoefficients::from_scaled_100(100, 0, 0),
        pwm_period_ticks: 1,
        deadband_x10: 50, // 5°C deadband
        ..Default::default()
    };

    let mut controller = PidController::new(sensor, heater, config);
    controller.set_target(45); // 45°C target
    controller.enable(true);

    // Within deadband - should output zero
    controller.update().unwrap();
    assert_eq!(controller.duty(), 0);
    assert!(controller.is_at_target());
}

#[test]
fn test_pid_safety_cutoff() {
    let sensor = MockSensor { temp_x10: 560 }; // 56°C (above 55°C max)
    let heater = MockHeater { on: true };
    let config = PidConfig::default();

    let mut controller = PidController::new(sensor, heater, config);
    controller.set_target(60); // Even with high target
    controller.enable(true);

    controller.update().unwrap();
    assert!(!controller.heater().is_on()); // Should be forced off
}

#[test]
fn test_pid_enable_disable() {
    let sensor = MockSensor { temp_x10: 400 };
    let heater = MockHeater { on: true };
    let config = PidConfig {
        coefficients: PidCoefficients::from_scaled_100(100, 10, 0),
        ..Default::default()
    };

    let mut controller = PidController::new(sensor, heater, config);
    controller.set_target(50);
    controller.enable(true);
    controller.update().unwrap();

    // Disable should turn off heater and reset state
    controller.enable(false);
    assert!(!controller.heater().is_on());
    assert!(!controller.is_enabled());
}
