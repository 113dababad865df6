//! SPI bus master trait and configuration.

use vstd::prelude::*;

verus! {

/// SPI bus master
pub trait SpiBus {
    /// Error type for SPI operations
    type Error;

    /// Transfer data (simultaneous read/write); both buffers have the same
    /// length
    fn transfer(&mut self, read: &mut [u8], write: &[u8]) -> Result<(), Self::Error>;

    /// Write data without reading
    fn write(&mut self, data: &[u8]) -> Result<(), Self::Error>;

    /// Read data (writes zeros)
    fn read(&mut self, buf: &mut [u8]) -> Result<(), Self::Error>;

    /// Transfer data in place
    fn transfer_in_place(&mut self, data: &mut [u8]) -> Result<(), Self::Error>;
}

/// SPI clock polarity
#[derive(Debug, Clone, Copy, PartialEq, Eq, Structural)]
pub enum Polarity {
    /// Clock idles low (CPOL=0)
    IdleLow,
    /// Clock idles high (CPOL=1)
    IdleHigh,
}

/// SPI clock phase
#[derive(Debug, Clone, Copy, PartialEq, Eq, Structural)]
pub enum Phase {
    /// Data captured on first clock transition (CPHA=0)
    CaptureOnFirstTransition,
    /// Data captured on second clock transition (CPHA=1)
    CaptureOnSecondTransition,
}

/// SPI mode (combined polarity and phase)
#[derive(Debug, Clone, Copy, PartialEq, Eq, Structural)]
pub enum Mode {
    /// Mode 0: CPOL=0, CPHA=0
    Mode0,
    /// Mode 1: CPOL=0, CPHA=1
    Mode1,
    /// Mode 2: CPOL=1, CPHA=0
    Mode2,
    /// Mode 3: CPOL=1, CPHA=1
    Mode3,
}

/// SPI configuration
#[derive(Debug, Clone, Copy)]
pub struct SpiConfig {
    /// Clock frequency in Hz
    pub frequency: u32,
    /// Clock polarity
    pub polarity: Polarity,
    /// Clock phase
    pub phase: Phase,
}

impl Default for SpiConfig {
    /// 1 MHz, mode 0
    fn default() -> (r: Self)
        ensures
            r.frequency == 1_000_000,
            r.polarity == Polarity::IdleLow,
            r.phase == Phase::CaptureOnFirstTransition,
    {
        SpiConfig {
            frequency: 1_000_000,
            polarity: Polarity::IdleLow,
            phase: Phase::CaptureOnFirstTransition,
        }
    }
}

/// The polarity and phase of a mode: CPOL is the mode's high bit and CPHA
/// its low bit.
pub open spec fn mode_bits(mode: Mode) -> (Polarity, Phase) {
    match mode {
        Mode::Mode0 => (Polarity::IdleLow, Phase::CaptureOnFirstTransition),
        Mode::Mode1 => (Polarity::IdleLow, Phase::CaptureOnSecondTransition),
        Mode::Mode2 => (Polarity::IdleHigh, Phase::CaptureOnFirstTransition),
        Mode::Mode3 => (Polarity::IdleHigh, Phase::CaptureOnSecondTransition),
    }
}

impl vstd::std_specs::convert::FromSpecImpl<Mode> for (Polarity, Phase) {
    open spec fn obeys_from_spec() -> bool {
        true
    }

    open spec fn from_spec(v: Mode) -> (Polarity, Phase) {
        mode_bits(v)
    }
}

impl From<Mode> for (Polarity, Phase) {
    fn from(mode: Mode) -> (r: (Polarity, Phase))
        ensures
            r == mode_bits(mode),
    {
        match mode {
            Mode::Mode0 => (Polarity::IdleLow, Phase::CaptureOnFirstTransition),
            Mode::Mode1 => (Polarity::IdleLow, Phase::CaptureOnSecondTransition),
            Mode::Mode2 => (Polarity::IdleHigh, Phase::CaptureOnFirstTransition),
            Mode::Mode3 => (Polarity::IdleHigh, Phase::CaptureOnSecondTransition),
        }
    }
}

/// The four modes are the four combinations of polarity and phase.
pub proof fn lemma_modes_distinct(a: Mode, b: Mode)
    ensures
        mode_bits(a) == mode_bits(b) ==> a == b,
{
}

} // verus!
