//! Tests of config calibration.

use isochron::config::calibration::{CalibrationData, HeaterCalibration, CALIBRATION_MAGIC, CALIBRATION_VERSION};

#[test]
fn test_calibration_data_default() {
    let data = CalibrationData::default();
    assert!(data.is_valid());
    assert_eq!(data.magic, CALIBRATION_MAGIC);
    assert_eq!(data.version, CALIBRATION_VERSION);
}

#[test]
fn test_set_and_get_calibration() {
    let mut data = CalibrationData::new();

    let cal = HeaterCalibration::new(0, 150, 10, 50);
    assert!(data.set(cal));

    let retrieved = data.get(0);
    assert!(retrieved.is_some());
    let retrieved = retrieved.unwrap();
    assert_eq!(retrieved.kp_x100, 150);
    assert_eq!(retrieved.ki_x100, 10);
    assert_eq!(retrieved.kd_x100, 50);
}

#[test]
fn test_crc_consistency() {
    let mut data = CalibrationData::new();
    data.set(HeaterCalibration::new(0, 150, 10, 50));
    data.update_crc();

    assert!(data.verify_crc());

    // Modify data without updating CRC
    data.heaters[0].kp_x100 = 200;
    assert!(!data.verify_crc());
}

#[test]
fn test_clear_heater() {
    let mut data = CalibrationData::new();
    data.set(HeaterCalibration::new(0, 150, 10, 50));

    assert!(data.get(0).is_some());

    data.clear_heater(0);
    assert!(data.get(0).is_none());
}

#[test]
fn any_single_field_change_fails_the_crc() {
    let mut data = CalibrationData::new();
    data.set(HeaterCalibration::from_autotune(3, 150, 10, 50, 400, 120));
    data.update_crc();
    assert!(data.verify_crc());

    let mut magic = data.clone();
    magic.magic ^= 0x8000_0001;
    assert!(!magic.verify_crc());

    let mut version = data.clone();
    version.version = 2;
    assert!(!version.verify_crc());

    for i in 0..4 {
        let mut slot = data.clone();
        slot.heaters[i].tu_ticks ^= 0x0101;
        assert!(!slot.verify_crc());
        let mut valid = data.clone();
        valid.heaters[i].valid = !valid.heaters[i].valid;
        assert!(!valid.verify_crc());
    }
}
