//! RP2040-specific parts: ADC channels, the GPIO pin bank, flash layout,
//! and position tracking for step-generator steppers.

pub mod adc;
pub mod flash;
pub mod pins;
pub mod position_stepper;
