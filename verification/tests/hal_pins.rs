//! Tests of GPIO allocation, pin-name parsing and ADC channels.

use isochron::hal::rp2040::adc::{AdcAllocator, AdcChannel};
use isochron::hal::stm32f0::gpio::{parse_pin_string, GpioAllocator};
use isochron::hal::uart::{DataBits, Parity, StopBits, UartConfig};

#[test]
fn gpio_allocate_release_round_trip() {
    let mut gpio = GpioAllocator::new();
    assert!(!gpio.is_allocated(5));
    assert_eq!(gpio.allocate(5), Ok(()));
    assert!(gpio.is_allocated(5));
    assert!(!gpio.is_allocated(4));
    assert_eq!(gpio.allocate(5), Err(()));
    gpio.release(5);
    assert!(!gpio.is_allocated(5));
    assert_eq!(gpio.allocate(5), Ok(()));
}

#[test]
fn gpio_out_of_range_pins() {
    let mut gpio = GpioAllocator::default();
    assert_eq!(gpio.allocate(32), Err(()));
    assert_eq!(gpio.allocate(31), Ok(()));
    assert!(gpio.is_allocated(31));
    assert!(!gpio.is_allocated(40));
    gpio.release(40);
    assert!(gpio.is_allocated(31));
}

#[test]
fn parse_plain_and_inverted_pins() {
    assert_eq!(parse_pin_string("PA0"), Some(('A', 0, false)));
    assert_eq!(parse_pin_string("!PB1"), Some(('B', 1, true)));
    assert_eq!(parse_pin_string("  !PF15 \t"), Some(('F', 15, true)));
    assert_eq!(parse_pin_string("PC+7"), Some(('C', 7, false)));
    assert_eq!(parse_pin_string("PD007"), Some(('D', 7, false)));
}

#[test]
fn parse_rejects_bad_pins() {
    assert_eq!(parse_pin_string("PG1"), None);
    assert_eq!(parse_pin_string("PA16"), None);
    assert_eq!(parse_pin_string("PA256"), None);
    assert_eq!(parse_pin_string("PA"), None);
    assert_eq!(parse_pin_string("XA1"), None);
    assert_eq!(parse_pin_string("PA-1"), None);
    assert_eq!(parse_pin_string("PA+"), None);
    assert_eq!(parse_pin_string("P\u{e4}1"), None);
    assert_eq!(parse_pin_string(""), None);
    assert_eq!(parse_pin_string("!"), None);
}

#[test]
fn adc_channel_gpio_round_trip() {
    for ch in [AdcChannel::Adc0, AdcChannel::Adc1, AdcChannel::Adc2, AdcChannel::Adc3] {
        let pin = ch.gpio().unwrap();
        assert_eq!(AdcChannel::from_gpio(pin), Some(ch));
    }
    assert_eq!(AdcChannel::Temperature.gpio(), None);
    assert_eq!(AdcChannel::from_gpio(25), None);
    assert_eq!(AdcChannel::Adc2.gpio(), Some(28));
}

#[test]
fn adc_allocator_allocates_once() {
    let mut adc = AdcAllocator::new();
    assert_eq!(adc.allocate(AdcChannel::Adc1), Ok(()));
    assert!(adc.is_allocated(AdcChannel::Adc1));
    assert!(!adc.is_allocated(AdcChannel::Adc0));
    assert_eq!(adc.allocate(AdcChannel::Adc1), Err(()));
    adc.release(AdcChannel::Adc1);
    assert!(!adc.is_allocated(AdcChannel::Adc1));
}

#[test]
fn uart_default_is_115200_8n1() {
    let c = UartConfig::default();
    assert_eq!(c.baudrate, 115200);
    assert_eq!(c.data_bits, DataBits::Eight);
    assert_eq!(c.parity, Parity::NoParity);
    assert_eq!(c.stop_bits, StopBits::One);
}
