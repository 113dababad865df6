//! I2C bus master trait and configuration.

use vstd::prelude::*;

verus! {

/// I2C bus master
pub trait I2cBus {
    /// Error type for I2C operations
    type Error;

    /// Write data to a device at a 7-bit address
    fn write(&mut self, address: u8, data: &[u8]) -> Result<(), Self::Error>;

    /// Read data from a device at a 7-bit address
    fn read(&mut self, address: u8, buf: &mut [u8]) -> Result<(), Self::Error>;

    /// Write then read in a single transaction (repeated start), commonly
    /// a register address then its data
    fn write_read(&mut self, address: u8, write_data: &[u8], read_buf: &mut [u8]) -> Result<
        (),
        Self::Error,
    >;
}

/// I2C configuration
#[derive(Debug, Clone, Copy)]
pub struct I2cConfig {
    /// Clock frequency in Hz
    pub frequency: u32,
}

impl Default for I2cConfig {
    /// Standard mode, 100kHz
    fn default() -> (r: Self)
        ensures
            r.frequency == 100_000,
    {
        I2cConfig { frequency: 100_000 }
    }
}

impl I2cConfig {
    /// Standard mode (100 kHz)
    pub fn standard() -> (r: Self)
        ensures
            r.frequency == 100_000,
    {
        I2cConfig { frequency: 100_000 }
    }

    /// Fast mode (400 kHz)
    pub fn fast() -> (r: Self)
        ensures
            r.frequency == 400_000,
    {
        I2cConfig { frequency: 400_000 }
    }

    /// Fast mode plus (1 MHz)
    pub fn fast_plus() -> (r: Self)
        ensures
            r.frequency == 1_000_000,
    {
        I2cConfig { frequency: 1_000_000 }
    }
}

} // verus!
