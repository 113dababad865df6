//! Tests of stepper tmc2209.

use isochron::stepper::tmc2209::{
    build_read_request, build_write_datagram, crc8, parse_read_response, reg, DrvStatus, SYNC_BYTE,
    Tmc2209Config, Tmc2209Driver, Tmc2209Error,
};
use isochron::traits::stepper::{Direction, StepperDriver};

#[test]
fn test_mres_conversion() {
    let mut config = Tmc2209Config::default();

    config.microsteps = 256;
    assert_eq!(config.mres(), 0);

    config.microsteps = 16;
    assert_eq!(config.mres(), 4);

    config.microsteps = 1;
    assert_eq!(config.mres(), 8);
}

#[test]
fn test_current_conversion() {
    // 800mA should give roughly CS=11
    let cs = Tmc2209Config::current_to_cs(800);
    assert!(cs >= 10 && cs <= 13);

    // 400mA should be lower
    let cs_low = Tmc2209Config::current_to_cs(400);
    assert!(cs_low < cs);
}

#[test]
fn test_crc8() {
    // Test with known values
    let data = [0x05, 0x00, 0x00];
    let crc = crc8(&data);
    // CRC should be non-zero for this data
    assert!(crc != 0);
}

#[test]
fn test_write_datagram() {
    let datagram = build_write_datagram(0, reg::GCONF, 0x00000140);

    assert_eq!(datagram[0], SYNC_BYTE);
    assert_eq!(datagram[1], 0); // address
    assert_eq!(datagram[2], reg::GCONF | 0x80); // register + write bit
                                                // Data bytes in big-endian
    assert_eq!(datagram[3], 0x00);
    assert_eq!(datagram[4], 0x00);
    assert_eq!(datagram[5], 0x01);
    assert_eq!(datagram[6], 0x40);
    // CRC is calculated
    assert_eq!(datagram[7], crc8(&datagram[..7]));
}

#[test]
fn test_init_datagrams() {
    let config = Tmc2209Config::default();
    let driver = Tmc2209Driver::new(config);

    let datagrams = driver.init_datagrams();
    assert_eq!(datagrams.len(), 6);

    // All should have sync byte
    for dg in &datagrams {
        assert_eq!(dg[0], SYNC_BYTE);
    }
}

#[test]
fn test_driver_state() {
    let config = Tmc2209Config::default();
    let mut driver = Tmc2209Driver::new(config);

    assert!(!driver.is_enabled());
    assert!(!driver.is_stalled());
    assert!(!driver.is_initialized());

    driver.enable(true);
    assert!(driver.is_enabled());

    driver.set_rpm(120);
    assert_eq!(driver.get_rpm(), 120);

    driver.set_direction(Direction::CounterClockwise);
    assert_eq!(driver.get_direction(), Direction::CounterClockwise);
}

#[test]
fn test_drv_status_parsing() {
    // Test standstill flag (bit 31)
    let status = DrvStatus::from_register(0x80000000);
    assert!(status.standstill);
    assert!(!status.has_fault());

    // Test StallGuard result (bits 0-9)
    let status = DrvStatus::from_register(0x000001FF);
    assert_eq!(status.sg_result, 0x1FF);

    // Test overtemperature shutdown (bit 25)
    let status = DrvStatus::from_register(1 << 25);
    assert!(status.ot_shutdown);
    assert!(status.has_fault());

    // Test StealthChop active (bit 14)
    let status = DrvStatus::from_register(1 << 14);
    assert!(status.stealth);

    // Test CS_ACTUAL (bits 16-20)
    let status = DrvStatus::from_register(0x001F0000);
    assert_eq!(status.cs_actual, 31);
}

#[test]
fn test_read_request() {
    let request = build_read_request(0, reg::DRV_STATUS);

    assert_eq!(request[0], SYNC_BYTE);
    assert_eq!(request[1], 0); // address
    assert_eq!(request[2], reg::DRV_STATUS); // register (no write bit)
    assert_eq!(request[3], crc8(&request[..3])); // CRC
}

#[test]
fn test_parse_read_response() {
    // Build a valid response
    let mut response = [0u8; 8];
    response[0] = SYNC_BYTE;
    response[1] = 0xFF; // master address
    response[2] = reg::DRV_STATUS;
    // Data: 0x12345678 big-endian
    response[3] = 0x12;
    response[4] = 0x34;
    response[5] = 0x56;
    response[6] = 0x78;
    response[7] = crc8(&response[..7]);

    let result = parse_read_response(&response);
    assert!(result.is_ok());
    assert_eq!(result.unwrap(), 0x12345678);

    // Test invalid sync
    let mut bad_sync = response;
    bad_sync[0] = 0x00;
    assert_eq!(
        parse_read_response(&bad_sync),
        Err(Tmc2209Error::InvalidSync)
    );

    // Test bad CRC
    let mut bad_crc = response;
    bad_crc[7] = 0x00;
    assert_eq!(
        parse_read_response(&bad_crc),
        Err(Tmc2209Error::CrcMismatch)
    );
}

#[test]
fn test_set_current_datagram() {
    let config = Tmc2209Config::default();
    let driver = Tmc2209Driver::new(config);

    let datagram = driver.set_current_datagram(800, 400);

    assert_eq!(datagram[0], SYNC_BYTE);
    assert_eq!(datagram[2], reg::IHOLD_IRUN | 0x80); // write bit set
}

#[test]
fn crc8_gconf_read_request_is_0x48() {
    // The GCONF read request 05 00 00 carries the CRC 0x48, bits fed LSB first.
    assert_eq!(crc8(&[0x05, 0x00, 0x00]), 0x48);
    assert_eq!(build_read_request(0, reg::GCONF)[3], 0x48);
}
