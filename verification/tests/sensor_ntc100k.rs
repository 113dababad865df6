//! Tests of sensor ntc100k.

use isochron::sensor::ntc100k::{DummyAdc, Ntc100kSensor};
use isochron::traits::heater::SensorError;

#[test]
fn test_resistance_to_temp() {
    // 100K ohms = 25°C (reference point)
    let temp = Ntc100kSensor::<DummyAdc>::resistance_to_temp_x10(100_000).unwrap();
    assert_eq!(temp, 250);

    // 40K ohms ≈ 45°C
    let temp = Ntc100kSensor::<DummyAdc>::resistance_to_temp_x10(40_000).unwrap();
    assert!((temp - 450).abs() < 50); // Within 5°C

    // 25K ohms ≈ 55°C
    let temp = Ntc100kSensor::<DummyAdc>::resistance_to_temp_x10(25_000).unwrap();
    assert!((temp - 550).abs() < 50);
}

#[test]
fn test_adc_to_resistance() {
    // With 4.7K pullup and 12-bit ADC:
    // At 100K NTC: adc = 4096 * 100K / (4.7K + 100K) ≈ 3913
    let sensor = Ntc100kSensor::new(DummyAdc(0), 3300, 4700);

    // Mid-range ADC should give reasonable resistance
    let r = sensor.adc_to_resistance(2048).unwrap();
    assert!(r > 0);
    assert!(r < 1_000_000);
}

#[test]
fn test_open_circuit() {
    let sensor = Ntc100kSensor::new(DummyAdc(0), 3300, 4700);

    // ADC at max = open circuit
    let result = sensor.adc_to_resistance(4095);
    assert!(matches!(result, Err(SensorError::OpenCircuit)));
}

#[test]
fn test_short_circuit() {
    let sensor = Ntc100kSensor::new(DummyAdc(0), 3300, 4700);

    // ADC at zero = short circuit
    let result = sensor.adc_to_resistance(0);
    assert!(matches!(result, Err(SensorError::ShortCircuit)));
}

#[test]
fn lower_resistance_never_reads_colder() {
    let mut last = i16::MIN;
    let mut r: u32 = 1_750_000;
    while r >= 1_000 {
        let t = Ntc100kSensor::<DummyAdc>::resistance_to_temp_x10(r).unwrap();
        assert!(t >= last);
        last = t;
        r -= 997;
    }
}
