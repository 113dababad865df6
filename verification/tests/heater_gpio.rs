//! Tests of heater gpio.

use isochron::heater::gpio::{GpioHeater, OutputPin};
use isochron::traits::heater::HeaterOutput;

/// Mock GPIO pin for testing
struct MockPin {
    high: bool,
}

impl MockPin {
    fn new() -> Self {
        Self { high: false }
    }
}

impl OutputPin for MockPin {
    fn set_high(&mut self) {
        self.high = true;
    }

    fn set_low(&mut self) {
        self.high = false;
    }

    fn is_set_high(&self) -> bool {
        self.high
    }
}

#[test]
fn test_active_high_heater() {
    let pin = MockPin::new();
    let mut heater = GpioHeater::new_active_high(pin);

    // Initially off
    assert!(!heater.is_on());
    assert!(!heater.pin().is_set_high());

    // Turn on
    heater.set_on(true);
    assert!(heater.is_on());
    assert!(heater.pin().is_set_high());

    // Turn off
    heater.set_on(false);
    assert!(!heater.is_on());
    assert!(!heater.pin().is_set_high());
}

#[test]
fn test_active_low_heater() {
    let pin = MockPin::new();
    let mut heater = GpioHeater::new_active_low(pin);

    // Initially off (pin is high for active-low)
    assert!(!heater.is_on());
    assert!(heater.pin().is_set_high());

    // Turn on (pin goes low for active-low)
    heater.set_on(true);
    assert!(heater.is_on());
    assert!(!heater.pin().is_set_high());

    // Turn off (pin goes high for active-low)
    heater.set_on(false);
    assert!(!heater.is_on());
    assert!(heater.pin().is_set_high());
}

#[test]
fn test_heater_trait() {
    let pin = MockPin::new();
    let mut heater = GpioHeater::new_active_high(pin);

    // Use trait method through concrete type
    fn check_heater<H: HeaterOutput>(h: &mut H) {
        assert!(!h.is_on());
        h.set_on(true);
        assert!(h.is_on());
    }

    check_heater(&mut heater);
}
