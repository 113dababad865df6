//! I2C configuration and errors for peripherals like the SH1106 OLED.

use vstd::prelude::*;

verus! {

/// I2C configuration
#[derive(Debug, Clone, Copy)]
pub struct I2cConfig {
    /// SCL frequency in Hz
    pub frequency: u32,
}

impl Default for I2cConfig {
    /// Fast mode, 400 kHz
    fn default() -> (r: Self)
        ensures
            r.frequency == 400_000,
    {
        I2cConfig { frequency: 400_000 }
    }
}

/// Error from I2C operations
#[derive(Debug, Clone, Copy)]
pub enum I2cBusError {
    /// Bus error
    Bus,
    /// Arbitration lost
    ArbitrationLost,
    /// NACK received
    Nack,
    /// Timeout
    Timeout,
    /// CRC error
    Crc,
    /// Overrun
    Overrun,
    /// Other error
    Other,
}

} // verus!
