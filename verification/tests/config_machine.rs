//! Tests of machine configuration lookups and calibration storage.

use heapless::String;
use isochron::config::calibration::{CalibrationData, HeaterCalibration};
use isochron::config::hardware::{
    AcMotorHwConfig, AcRelayType, DcDriverType, DcMotorHwConfig, MachineConfig, MotorType, PinConfig,
    StepperHwConfig,
};
use isochron::config::types::{HeaterConfig, JarConfig, MachineCapabilities, ProfileConfig, ProgramConfig, ProgramStep};

fn label(s: &str) -> String<16> {
    let mut l = String::new();
    l.push_str(s).unwrap();
    l
}

fn stepper(name: &str, microsteps: u8) -> StepperHwConfig {
    StepperHwConfig {
        name: label(name),
        step_pin: PinConfig::new(1),
        dir_pin: PinConfig::new(2),
        enable_pin: PinConfig::inverted(3),
        endstop_pin: None,
        full_steps_per_rotation: 200,
        microsteps,
        rotation_distance: 8,
        gear_ratio_num: 1,
        gear_ratio_den: 1,
        position_min: 0,
        position_max: None,
        position_endstop: None,
        homing_speed: None,
        homing_retract_dist: None,
        homing_positive_dir: None,
    }
}

#[test]
fn automated_machine_has_z_and_x() {
    let mut config = MachineConfig::new();
    assert!(!config.is_automated());
    assert!(!config.has_basket_motor());
    config.steppers.push(stepper("basket", 16)).ok().unwrap();
    config.steppers.push(stepper("z", 8)).ok().unwrap();
    assert!(!config.is_automated());
    config.steppers.push(stepper("x", 4)).ok().unwrap();
    assert!(config.is_automated());
    assert!(config.has_basket_motor());
    assert_eq!(config.find_stepper("x").unwrap().microsteps, 4);
    assert_eq!(config.basket_stepper().unwrap().microsteps, 16);
    assert!(config.find_stepper("y").is_none());
    // Steppers do not count on a DC machine.
    config.motor_type = MotorType::Dc;
    assert!(!config.is_automated());
    assert!(config.basket_dc_motor().is_none());
}

#[test]
fn first_profile_with_a_label_wins() {
    let mut config = MachineConfig::new();
    let mut a = ProfileConfig::default();
    a.label = label("Clean");
    a.rpm = 100;
    let mut b = ProfileConfig::default();
    b.label = label("Clean");
    b.rpm = 200;
    config.profiles.push(a).ok().unwrap();
    config.profiles.push(b).ok().unwrap();
    assert_eq!(config.find_profile("Clean").unwrap().rpm, 100);
    assert!(config.find_profile("clean").is_none());
}

#[test]
fn capabilities_from_config() {
    assert!(MachineCapabilities::from_config(true, true, false, 1).is_automated);
    assert!(!MachineCapabilities::from_config(true, false, true, 1).is_automated);
    let c = MachineCapabilities::from_config(false, true, true, 3);
    assert_eq!(c.heater_count, 3);
    assert!(c.has_lid && c.has_tower && !c.has_lift);
}

#[test]
fn calibration_slots_fill_up() {
    let mut data = CalibrationData::new();
    for i in 0..4u8 {
        assert!(data.set(HeaterCalibration::new(i + 1, 100 + i as i16, 10, 5)));
    }
    // Every slot is taken by another heater.
    assert!(!data.set(HeaterCalibration::new(9, 1, 1, 1)));
    // Updating a known heater still works.
    assert!(data.set(HeaterCalibration::new(3, 777, 1, 1)));
    assert_eq!(data.get(3).unwrap().kp_x100, 777);
    assert_eq!(data.get(4).unwrap().kp_x100, 103);
    assert!(data.get(9).is_none());
}

#[test]
fn calibration_crc_value() {
    let data = CalibrationData::new();
    // CRC-32 of the 53 covered bytes of fresh data, computed bit by bit.
    let mut bytes = Vec::new();
    bytes.extend_from_slice(&0x50494443u32.to_le_bytes());
    bytes.push(1);
    for _ in 0..4 {
        bytes.extend_from_slice(&[0u8; 12]);
    }
    let mut crc: u32 = 0xFFFF_FFFF;
    for b in bytes {
        crc ^= b as u32;
        for _ in 0..8 {
            crc = if crc & 1 != 0 { (crc >> 1) ^ 0xEDB8_8320 } else { crc >> 1 };
        }
    }
    assert_eq!(data.calculate_crc(), !crc);
}

#[test]
fn calibration_from_autotune_and_clear() {
    let mut cal = HeaterCalibration::from_autotune(2, 600, 60, 150, 1000, 20);
    assert!(cal.is_valid());
    assert_eq!(cal.ku_x100, 1000);
    cal.clear();
    assert!(!cal.is_valid());
    assert_eq!(cal.heater_index, 2);
    assert_eq!(cal.kp_x100, 0);
    let mut data = CalibrationData::default();
    data.magic = 0;
    assert!(!data.is_valid());
}

#[test]
fn lookups_of_every_kind() {
    let mut config = MachineConfig::default();
    let mut heater = HeaterConfig::default();
    heater.name = label("jar1");
    heater.max_temp = 60;
    config.heaters.push(heater).ok().unwrap();
    let mut jar = JarConfig::default();
    jar.name = label("rinse");
    jar.tower_pos = 90;
    config.jars.push(jar).ok().unwrap();
    let mut program = ProgramConfig::default();
    program.label = label("Full");
    program.steps.push(ProgramStep { jar: label("rinse"), profile: label("Rinse") }).ok().unwrap();
    config.programs.push(program.clone()).ok().unwrap();
    config.dc_motors.push(DcMotorHwConfig {
        name: label("z"),
        pwm_pin: PinConfig::new(5),
        dir_pin: None,
        enable_pin: None,
        driver_type: DcDriverType::HBridge,
        pwm_frequency: 25_000,
        min_duty: 10,
        soft_start_ms: 100,
        soft_stop_ms: 100,
        endstop_up: None,
        endstop_down: None,
        endstop_home: None,
        position_min: 0,
        position_max: None,
        position_endstop: None,
    }).ok().unwrap();
    config.ac_motors.push(AcMotorHwConfig {
        name: label("basket"),
        enable_pin: PinConfig::with_pullup(7),
        direction_pin: None,
        relay_type: AcRelayType::Ssr,
        active_high: true,
        endstop_up: None,
        endstop_down: None,
        endstop_home: None,
        position_min: 0,
        position_max: None,
        position_endstop: None,
    }).ok().unwrap();
    assert_eq!(config.find_heater("jar1").unwrap().max_temp, 60);
    assert_eq!(config.find_jar("rinse").unwrap().tower_pos, 90);
    let found = config.find_program("Full").unwrap();
    assert_eq!(found.steps.len(), 1);
    assert_eq!(found.steps[0].profile.as_str(), "Rinse");
    assert_eq!(program.steps[0].jar.as_str(), "rinse");
    assert_eq!(config.find_dc_motor("z").unwrap().pwm_frequency, 25_000);
    assert!(config.find_dc_motor("x").is_none());
    config.motor_type = MotorType::Ac;
    assert!(config.has_basket_motor());
    assert!(config.basket_ac_motor().unwrap().active_high);
    assert!(!config.is_automated());
}
