//! Tests of storage keys, fetched-item copying, flash layout and the pin
//! bank.

use isochron::hal::flash::{copy_fetched, FlashError, KeyCodecError, StorageKey};
use isochron::hal::rp2040::flash as rp_flash;
use isochron::hal::rp2040::pins::{PinBank, PinBankPeripherals, PinError};
use isochron::hal::stm32f0::flash as f0_flash;

#[test]
fn key_bytes_round_trip() {
    for b in 0..5u8 {
        let k = StorageKey::from_u8(b).unwrap();
        assert_eq!(k.as_u8(), b);
        let mut buf = [0xAAu8; 3];
        assert_eq!(k.serialize_into(&mut buf), Ok(1));
        assert_eq!(buf, [b, 0xAA, 0xAA]);
        assert_eq!(StorageKey::deserialize_from(&buf), Ok((k, 1)));
    }
    assert_eq!(StorageKey::from_u8(5), None);
    assert_eq!(StorageKey::PidCalibration.as_u8(), 2);
}

#[test]
fn key_codec_errors() {
    let mut empty: [u8; 0] = [];
    assert_eq!(StorageKey::MachineConfig.serialize_into(&mut empty), Err(KeyCodecError::BufferTooSmall));
    assert_eq!(StorageKey::deserialize_from(&[]), Err(KeyCodecError::BufferTooSmall));
    assert_eq!(StorageKey::deserialize_from(&[9]), Err(KeyCodecError::InvalidFormat));
}

#[test]
fn fetched_item_is_copied() {
    let mut buf = [0u8; 4];
    assert_eq!(copy_fetched(Some(&[1, 2, 3]), &mut buf), Ok(3));
    assert_eq!(buf, [1, 2, 3, 0]);
    assert_eq!(copy_fetched(None, &mut buf), Err(FlashError::NotFound));
    assert_eq!(copy_fetched(Some(&[9; 5]), &mut buf), Err(FlashError::BufferTooSmall));
    assert_eq!(buf, [1, 2, 3, 0]);
}

#[test]
fn flash_partitions() {
    assert_eq!(rp_flash::CONFIG_PARTITION_START, 0x1F_0000);
    assert_eq!(rp_flash::config_range(), 0x1F_0000..0x20_0000);
    assert_eq!(f0_flash::CONFIG_PARTITION_START, 28 * 1024);
    assert_eq!(f0_flash::config_range(), 28672..32768);
}

fn peripherals() -> PinBankPeripherals<u8> {
    PinBankPeripherals {
        pin0: Some(0), pin1: Some(1), pin2: Some(2), pin3: Some(3), pin4: Some(4), pin5: Some(5),
        pin6: Some(6), pin7: Some(7), pin8: Some(8), pin9: Some(9), pin10: Some(10), pin11: Some(11),
        pin12: Some(12), pin13: Some(13), pin14: Some(14), pin15: Some(15), pin16: Some(16),
        pin17: Some(17), pin18: Some(18), pin19: Some(19), pin20: Some(20), pin21: Some(21),
        pin22: Some(22), pin23: Some(23), pin24: Some(24), pin25: Some(25), pin26: Some(26),
        pin27: Some(27), pin28: Some(28), pin29: Some(29),
    }
}

#[test]
fn pin_bank_hands_out_each_pin_once() {
    let mut p = peripherals();
    let mut bank = PinBank::new(&mut p);
    assert!(p.pin7.is_none());
    assert!(bank.is_available(7));
    assert!(matches!(bank.take(7), Ok(7)));
    assert!(!bank.is_available(7));
    assert!(matches!(bank.take(7), Err(PinError::AlreadyTaken)));
    assert!(matches!(bank.take(30), Err(PinError::InvalidPin)));
    assert!(!bank.is_available(30));
    bank.return_pin(7, 7);
    assert!(bank.is_available(7));
    assert!(matches!(bank.take(29), Ok(29)));
}
