//! Hardware abstraction layer: chip-agnostic traits and configuration for
//! GPIO, UART, I2C, SPI and flash storage, and the chip-specific helpers
//! for the RP2040 controller and the STM32F0 display.

pub mod flash;
pub mod gpio;
pub mod i2c;
pub mod rp2040;
pub mod spi;
pub mod stm32f0;
pub mod uart;
