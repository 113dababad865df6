//! UART configuration and errors for the display protocol link.

use vstd::prelude::*;

verus! {

/// UART configuration
#[derive(Debug, Clone, Copy)]
pub struct UartConfig {
    /// Baud rate
    pub baudrate: u32,
}

impl Default for UartConfig {
    /// 250000 baud, the display link's rate
    fn default() -> (r: Self)
        ensures
            r.baudrate == 250_000,
    {
        UartConfig { baudrate: 250_000 }
    }
}

/// Error from UART operations
#[derive(Debug, Clone, Copy)]
pub enum UartBusError {
    /// Framing error
    Framing,
    /// Noise error
    Noise,
    /// Overrun error
    Overrun,
    /// Parity error
    Parity,
    /// Buffer too small
    BufferTooSmall,
    /// Other error
    Other,
}

} // verus!
