//! Interfaces of display hardware: text displays and displays that also
//! draw graphics.

use vstd::prelude::*;

verus! {

/// Display backend errors
#[derive(Debug, Clone, Copy, PartialEq, Eq, Structural)]
pub enum DisplayError {
    /// Communication error with display
    Communication,
    /// Invalid coordinates or dimensions
    InvalidCoordinates,
    /// Display not initialized
    NotInitialized,
    /// Buffer overflow
    BufferOverflow,
}

/// A hardware-agnostic text display (OLED, TFT, ...)
pub trait DisplayBackend {
    /// Clear the entire display
    fn clear(&mut self) -> Result<(), DisplayError>;

    /// Draw text at a row and column (0-based, in characters)
    fn draw_text(&mut self, row: u8, col: u8, text: &str) -> Result<(), DisplayError>;

    /// Invert columns `start_col..end_col` (end exclusive) of a row, for
    /// selection highlighting
    fn invert_region(&mut self, row: u8, start_col: u8, end_col: u8) -> Result<(), DisplayError>;

    /// Send buffered content to the display hardware
    fn flush(&mut self) -> Result<(), DisplayError>;

    /// The display size as (columns, rows) in characters
    fn dimensions(&self) -> (u8, u8);

    /// Whether the display is ready
    fn is_ready(&self) -> bool;
}

/// A display that also draws graphics
pub trait GraphicsDisplayBackend: DisplayBackend {
    /// Draw a horizontal line
    fn draw_hline(&mut self, x: u16, y: u16, length: u16) -> Result<(), DisplayError>;

    /// Draw a vertical line
    fn draw_vline(&mut self, x: u16, y: u16, length: u16) -> Result<(), DisplayError>;

    /// Draw a rectangle outline
    fn draw_rect(&mut self, x: u16, y: u16, width: u16, height: u16) -> Result<(), DisplayError>;

    /// Fill a rectangle
    fn fill_rect(&mut self, x: u16, y: u16, width: u16, height: u16) -> Result<(), DisplayError>;

    /// The display size in pixels
    fn pixel_dimensions(&self) -> (u16, u16);
}

} // verus!
