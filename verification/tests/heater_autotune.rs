//! Tests of heater autotune.

use isochron::heater::autotune::{AutotuneConfig, AutotuneError, AutotuneState, Autotuner};
use isochron::traits::heater::{HeaterOutput, SensorError, TemperatureSensor};

struct MockSensor {
    temps: &'static [i16],
    index: usize,
}

impl MockSensor {
    fn new(temps: &'static [i16]) -> Self {
        Self { temps, index: 0 }
    }
}

impl TemperatureSensor for MockSensor {
    fn read_celsius_x10(&mut self) -> Result<i16, SensorError> {
        let temp = self.temps.get(self.index).copied().unwrap_or(450);
        self.index = (self.index + 1) % self.temps.len();
        Ok(temp)
    }
}

struct MockHeater {
    on: bool,
}

impl HeaterOutput for MockHeater {
    fn set_on(&mut self, on: bool) {
        self.on = on;
    }

    fn is_on(&self) -> bool {
        self.on
    }
}

#[test]
fn test_autotune_initial_state() {
    let sensor = MockSensor::new(&[400, 410, 420]);
    let heater = MockHeater { on: false };
    let config = AutotuneConfig::default();

    let tuner = Autotuner::new(sensor, heater, config);
    assert_eq!(tuner.state(), AutotuneState::Idle);
}

#[test]
fn test_autotune_start() {
    let sensor = MockSensor::new(&[400]);
    let heater = MockHeater { on: false };
    let config = AutotuneConfig::default();

    let mut tuner = Autotuner::new(sensor, heater, config);
    tuner.start();

    assert_eq!(tuner.state(), AutotuneState::Heating);
    assert!(tuner.heater().is_on());
}

#[test]
fn test_autotune_cancel() {
    let sensor = MockSensor::new(&[400]);
    let heater = MockHeater { on: false };
    let config = AutotuneConfig::default();

    let mut tuner = Autotuner::new(sensor, heater, config);
    tuner.start();
    tuner.cancel();

    assert_eq!(
        tuner.state(),
        AutotuneState::Failed(AutotuneError::Cancelled)
    );
    assert!(!tuner.heater().is_on());
}

#[test]
fn test_autotune_overtemp_protection() {
    let sensor = MockSensor::new(&[560]); // Over max temp
    let heater = MockHeater { on: false };
    let config = AutotuneConfig::default();

    let mut tuner = Autotuner::new(sensor, heater, config);
    tuner.start();
    tuner.update().unwrap();

    assert_eq!(
        tuner.state(),
        AutotuneState::Failed(AutotuneError::OverTemp)
    );
    assert!(!tuner.heater().is_on());
}

#[test]
fn test_ziegler_nichols_formula() {
    // Test the Ziegler-Nichols calculations manually
    // Given Ku = 10.0 (1000 as x100), Tu = 20 ticks
    let ku_x100: i32 = 1000;
    let tu_ticks: u32 = 20;

    // Kp = 0.6 * Ku = 6.0 -> 600 as x100
    let kp_x100 = (60 * ku_x100) / 100;
    assert_eq!(kp_x100, 600);

    // Ki = 1.2 * Ku / Tu = 1.2 * 10 / 20 = 0.6 -> 60 as x100
    let ki_x100 = (120 * ku_x100) / (100 * tu_ticks as i32);
    assert_eq!(ki_x100, 60);

    // Kd = 0.075 * Ku * Tu = 0.075 * 10 * 20 = 15.0 -> 1500 as x100
    let kd_x100 = (75 * ku_x100 * tu_ticks as i32) / 10000;
    assert_eq!(kd_x100, 150); // Note: 1500/10 due to scaling
}
