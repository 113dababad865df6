//! STM32F0-specific parts for the display module: GPIO allocation, pin
//! names, flash layout, and I2C/UART configuration and errors.

pub mod flash;
pub mod gpio;
pub mod i2c;
pub mod uart;
