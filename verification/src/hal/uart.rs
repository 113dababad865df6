//! Serial communication traits and configuration.

use vstd::prelude::*;

verus! {

/// UART transmitter
pub trait UartTx {
    /// Error type for transmit operations
    type Error;

    /// Write data, blocking until all is written or an error occurs
    fn write_blocking(&mut self, data: &[u8]) -> Result<(), Self::Error>;

    /// Flush any buffered data
    fn flush(&mut self) -> Result<(), Self::Error>;
}

/// UART receiver
pub trait UartRx {
    /// Error type for receive operations
    type Error;

    /// Read data, blocking until the buffer is filled or an error occurs
    fn read_blocking(&mut self, buf: &mut [u8]) -> Result<usize, Self::Error>;

    /// Read a single byte from the UART
    fn read_byte(&mut self) -> Result<u8, Self::Error> {
        let mut buf = [0u8; 1];
        match self.read_blocking(&mut buf) {
            Ok(_) => Ok(buf[0]),
            Err(e) => Err(e),
        }
    }
}

/// Combined UART interface, for UARTs with TX and RX on one peripheral
pub trait Uart: UartTx + UartRx {

}

impl<T: UartTx + UartRx> Uart for T {

}

/// Number of data bits per frame
#[derive(Debug, Clone, Copy, PartialEq, Eq, Structural)]
pub enum DataBits {
    Seven,
    Eight,
    Nine,
}

/// Parity mode
#[derive(Debug, Clone, Copy, PartialEq, Eq, Structural)]
pub enum Parity {
    NoParity,
    Even,
    Odd,
}

/// Number of stop bits
#[derive(Debug, Clone, Copy, PartialEq, Eq, Structural)]
pub enum StopBits {
    One,
    Two,
}

/// UART configuration
#[derive(Debug, Clone, Copy)]
pub struct UartConfig {
    /// Baud rate in bits per second
    pub baudrate: u32,
    /// Number of data bits (typically 8)
    pub data_bits: DataBits,
    /// Parity mode
    pub parity: Parity,
    /// Number of stop bits
    pub stop_bits: StopBits,
}

impl Default for UartConfig {
    /// 115200 baud, 8N1
    fn default() -> (r: Self)
        ensures
            r.baudrate == 115200,
            r.data_bits == DataBits::Eight,
            r.parity == Parity::NoParity,
            r.stop_bits == StopBits::One,
    {
        UartConfig {
            baudrate: 115200,
            data_bits: DataBits::Eight,
            parity: Parity::NoParity,
            stop_bits: StopBits::One,
        }
    }
}

} // verus!
