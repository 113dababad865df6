//! Tests of config hardware.

use isochron::config::hardware::{MachineConfig, PinConfig};

#[test]
fn test_pin_config() {
    let pin = PinConfig::new(10);
    assert_eq!(pin.pin, 10);
    assert!(!pin.inverted);
    assert!(!pin.pull_up);

    let inverted = PinConfig::inverted(12);
    assert!(inverted.inverted);

    let pullup = PinConfig::with_pullup(4);
    assert!(pullup.pull_up);
}

#[test]
fn test_empty_config() {
    let config = MachineConfig::new();
    assert!(config.steppers.is_empty());
    assert!(!config.is_automated());
    assert!(config.basket_stepper().is_none());
}
