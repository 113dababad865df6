//! Tests of a complete relay autotune run.

use isochron::heater::autotune::{AutotuneConfig, AutotuneError, AutotuneState, Autotuner};
use isochron::heater::fixed::Fixed32;
use isochron::traits::heater::{HeaterOutput, SensorError, TemperatureSensor};

struct Wave {
    temps: Vec<i16>,
    index: usize,
    fail: bool,
}

impl TemperatureSensor for Wave {
    fn read_celsius_x10(&mut self) -> Result<i16, SensorError> {
        if self.fail {
            return Err(SensorError::OpenCircuit);
        }
        let t = self.temps[self.index % self.temps.len()];
        self.index += 1;
        Ok(t)
    }
}

struct Relay {
    on: bool,
}

impl HeaterOutput for Relay {
    fn set_on(&mut self, on: bool) {
        self.on = on;
    }

    fn is_on(&self) -> bool {
        self.on
    }
}

#[test]
fn triangle_wave_tunes_with_ziegler_nichols() {
    let sensor = Wave { temps: vec![450, 455, 460, 455, 450, 445, 440, 445], index: 0, fail: false };
    let mut tuner = Autotuner::new(sensor, Relay { on: false }, AutotuneConfig::default());
    tuner.start();
    assert!(tuner.heater().is_on());
    let mut n = 0;
    while tuner.state() == AutotuneState::Heating || tuner.state() == AutotuneState::Cycling {
        tuner.update().unwrap();
        n += 1;
        assert!(n < 500);
    }
    assert_eq!(tuner.state(), AutotuneState::Complete);
    assert!(!tuner.heater().is_on());
    assert_eq!(tuner.peak_count(), 12);
    let r = tuner.result().unwrap();
    assert_eq!(r.amplitude_x10, 10);
    assert_eq!(r.tu_ticks, 8);
    // Ku = 4 * 255 * 10000 / (314 * 10)
    assert_eq!(r.ku_x100, 3248);
    let (kp, ki, kd) = r.to_fixed_coefficients();
    assert_eq!(kp, Fixed32::from_scaled_100(1948));
    assert_eq!(ki, Fixed32::from_scaled_100(487));
    assert_eq!(kd, Fixed32::from_scaled_100(194));
    // Further updates change nothing.
    let ticks = tuner.elapsed_ticks();
    tuner.update().unwrap();
    assert_eq!(tuner.elapsed_ticks(), ticks);
}

#[test]
fn flat_temperature_times_out() {
    let sensor = Wave { temps: vec![400], index: 0, fail: false };
    let mut tuner = Autotuner::new(sensor, Relay { on: false }, AutotuneConfig::default());
    tuner.start();
    for _ in 0..2399 {
        tuner.update().unwrap();
        assert_eq!(tuner.state(), AutotuneState::Heating);
    }
    tuner.update().unwrap();
    assert_eq!(tuner.state(), AutotuneState::Failed(AutotuneError::Timeout));
    assert!(!tuner.heater().is_on());
    assert_eq!(tuner.elapsed_ticks(), 2400);
}

#[test]
fn sensor_error_is_returned() {
    let sensor = Wave { temps: vec![400], index: 0, fail: true };
    let mut tuner = Autotuner::new(sensor, Relay { on: false }, AutotuneConfig::default());
    // Idle: the sensor is not read.
    assert_eq!(tuner.update(), Ok(()));
    tuner.start();
    assert_eq!(tuner.update(), Err(SensorError::OpenCircuit));
    assert_eq!(tuner.state(), AutotuneState::Heating);
    assert_eq!(tuner.elapsed_ticks(), 0);
}

#[test]
fn small_oscillation_fails() {
    let sensor = Wave { temps: vec![450, 452, 454, 452, 450, 448, 446, 448], index: 0, fail: false };
    let mut tuner = Autotuner::new(sensor, Relay { on: false }, AutotuneConfig::default());
    tuner.start();
    let mut n = 0;
    while tuner.state() == AutotuneState::Heating || tuner.state() == AutotuneState::Cycling {
        tuner.update().unwrap();
        n += 1;
        assert!(n < 500);
    }
    // Amplitude (454 - 446) / 2 = 4 is under the 0.5 C minimum.
    assert_eq!(tuner.state(), AutotuneState::Failed(AutotuneError::NoOscillation));
    assert!(tuner.result().is_none());
}
