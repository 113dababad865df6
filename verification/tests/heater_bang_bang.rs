//! Tests of heater bang bang.

use isochron::heater::bang_bang::{BangBangConfig, BangBangController};
use isochron::traits::heater::{HeaterController, HeaterOutput, SensorError, TemperatureSensor};

// Mock sensor for testing
struct MockSensor {
    temp_x10: i16,
    valid: bool,
}

impl TemperatureSensor for MockSensor {
    fn read_celsius_x10(&mut self) -> Result<i16, SensorError> {
        if self.valid {
            Ok(self.temp_x10)
        } else {
            Err(SensorError::OpenCircuit)
        }
    }
}

// Mock heater for testing
struct MockHeater {
    on: bool,
}

impl HeaterOutput for MockHeater {
    fn set_on(&mut self, on: bool) {
        self.on = on;
    }

    fn is_on(&self) -> bool {
        self.on
    }
}

#[test]
fn test_controller_enable_disable() {
    let sensor = MockSensor {
        temp_x10: 400,
        valid: true,
    };
    let heater = MockHeater { on: false };
    let mut controller = BangBangController::new(sensor, heater, BangBangConfig::default());

    controller.set_target(45);
    controller.enable(true);
    controller.update().unwrap();

    // Temperature (40°C) is below target (45°C) - hysteresis
    assert!(controller.heater().is_on());

    // Disable controller
    controller.enable(false);
    assert!(!controller.heater().is_on());
}

#[test]
fn over_temperature_switches_the_heater_off() {
    let sensor = MockSensor { temp_x10: 400, valid: true };
    let heater = MockHeater { on: false };
    let mut controller = BangBangController::new(sensor, heater, BangBangConfig::default());
    controller.set_target(45);
    controller.enable(true);
    controller.update().unwrap();
    assert!(controller.heater().is_on());
    // A reading at the maximum temperature forces the heater off.
    let mut hot = BangBangController::new(
        MockSensor { temp_x10: BangBangConfig::default().max_temp_x10, valid: true },
        MockHeater { on: true },
        BangBangConfig::default(),
    );
    hot.set_target(45);
    hot.enable(true);
    hot.update().unwrap();
    assert!(!hot.heater().is_on());
}
