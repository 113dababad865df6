//! Display driver trait for the V0 display, which acts as a terminal: all
//! UI logic stays on the controller.

use vstd::prelude::*;
use vstd::string::StringSliceAdditionalSpecFns;

use crate::display::terminal::utf8_encode;

verus! {

/// Errors that can occur with display communication
#[derive(Debug, Clone, Copy, PartialEq, Eq, Structural)]
pub enum DisplayError {
    /// Communication timeout
    Timeout,
    /// Link lost (missed heartbeats)
    LinkLost,
    /// Protocol framing error
    FrameError,
    /// Buffer overflow
    BufferOverflow,
}

/// Input events that the display reports to the controller
#[derive(Debug, Clone, Copy, PartialEq, Eq, Structural)]
pub enum InputEvent {
    /// Encoder turned one step clockwise
    EncoderCw,
    /// Encoder turned one step counter-clockwise
    EncoderCcw,
    /// Encoder button clicked
    EncoderClick,
    /// Encoder button held down
    EncoderLongPress,
}

/// Trait for display communication
pub trait DisplayDriver {
    /// Clear the entire screen
    fn clear(&mut self) -> Result<(), DisplayError>;

    /// Draw ASCII text (max 21 chars) at a row (0-7) and column (0-20)
    fn text(&mut self, row: u8, col: u8, text: &str) -> Result<(), DisplayError>;

    /// Invert a region (for selection highlight), end column inclusive
    fn invert(&mut self, row: u8, start_col: u8, end_col: u8) -> Result<(), DisplayError>;

    /// Draw a horizontal line
    fn hline(&mut self, row: u8, start_col: u8, end_col: u8) -> Result<(), DisplayError>;

    /// Send heartbeat response (PONG)
    fn pong(&mut self) -> Result<(), DisplayError>;

    /// Reset the display to boot state
    fn reset(&mut self) -> Result<(), DisplayError>;

    /// Poll for incoming input events; `Ok(None)` if none is pending
    fn poll_input(&mut self) -> Result<Option<InputEvent>, DisplayError>;

    /// Check if the display link is healthy
    fn is_link_healthy(&self) -> bool;

    /// Get the number of missed heartbeats
    fn missed_heartbeats(&self) -> u8;
}


/// The UTF-8 encoding of a sequence of characters.
pub open spec fn utf8_bytes(cs: Seq<char>) -> Seq<u8>
    decreases cs.len(),
{
    if cs.len() == 0 {
        Seq::empty()
    } else {
        utf8_bytes(cs.drop_last()) + utf8_encode(cs.last())
    }
}

/// Whether the bytes are valid UTF-8, as `core::str::from_utf8` decides:
/// the encoding of some sequence of characters.
pub open spec fn utf8_valid(bytes: Seq<u8>) -> bool {
    exists|cs: Seq<char>| utf8_bytes(cs) == bytes
}

/// `core::str::from_utf8`, with the empty string for invalid bytes.
#[verifier::external_body]
fn text_or_empty(bytes: &[u8]) -> (r: &str)
    ensures
        utf8_valid(bytes@) ==> r.spec_bytes() == bytes@,
        !utf8_valid(bytes@) ==> r.spec_bytes().len() == 0,
{
    core::str::from_utf8(bytes).unwrap_or("")
}

/// The menu line for an item: a marker (0x01 when selected, else a
/// space), a space, then the first 19 bytes of the text.
pub open spec fn menu_line_spec(text: Seq<u8>, selected: bool) -> Seq<u8> {
    let n = if text.len() < 19 { text.len() as int } else { 19 };
    seq![if selected { 1u8 } else { 32u8 }, 32u8] + text.take(n)
}

/// The bytes of a menu line (see `menu_line_spec`).
pub fn menu_line(text: &[u8], selected: bool) -> (r: Vec<u8>)
    ensures
        r@ == menu_line_spec(text@, selected),
{
    let mut line: Vec<u8> = Vec::new();
    line.push(if selected { 1u8 } else { 32u8 });
    line.push(32u8);
    let n: usize = if text.len() < 19 { text.len() } else { 19 };
    let mut i: usize = 0;
    while i < n
        invariant
            n <= text@.len(),
            i <= n,
            line@ == seq![if selected { 1u8 } else { 32u8 }, 32u8] + text@.take(i as int),
        decreases n - i,
    {
        proof {
            assert(text@.take(i + 1) =~= text@.take(i as int).push(text@[i as int]));
        }
        line.push(text[i]);
        i = i + 1;
    }
    line
}

/// A label and a value on one 21-byte line: the label's first 10 bytes
/// and a colon at the left, the value's first 9 bytes right-aligned,
/// spaces between.
pub open spec fn field_line_spec(label: Seq<u8>, value: Seq<u8>) -> Seq<u8> {
    let ll = if label.len() < 10 { label.len() as int } else { 10 };
    let vl = if value.len() < 9 { value.len() as int } else { 9 };
    Seq::new(
        21,
        |i: int|
            if i < ll {
                label[i]
            } else if i == ll {
                58u8
            } else if i >= 21 - vl {
                value[i - (21 - vl)]
            } else {
                32u8
            },
    )
}

/// The bytes of a field line (see `field_line_spec`).
pub fn field_line(label: &[u8], value: &[u8]) -> (r: [u8; 21])
    ensures
        r@ == field_line_spec(label@, value@),
{
    let mut buf: [u8; 21] = [
        32, 32, 32, 32, 32, 32, 32, 32, 32, 32, 32, 32, 32, 32, 32, 32, 32, 32, 32, 32, 32,
    ];
    let ll: usize = if label.len() < 10 { label.len() } else { 10 };
    let mut i: usize = 0;
    while i < ll
        invariant
            ll <= label@.len(),
            ll <= 10,
            i <= ll,
            buf@.len() == 21,
            forall|k: int| 0 <= k < i ==> buf@[k] == label@[k],
            forall|k: int| i <= k < 21 ==> buf@[k] == 32u8,
        decreases ll - i,
    {
        buf[i] = label[i];
        i = i + 1;
    }
    buf[ll] = 58u8;
    let vl: usize = if value.len() < 9 { value.len() } else { 9 };
    let start: usize = 21 - vl;
    let mut j: usize = 0;
    while j < vl
        invariant
            vl <= value@.len(),
            vl <= 9,
            ll <= 10,
            ll <= label@.len(),
            start == 21 - vl,
            j <= vl,
            buf@.len() == 21,
            forall|k: int| 0 <= k < ll ==> buf@[k] == label@[k],
            buf@[ll as int] == 58u8,
            forall|k: int| ll < k < start ==> buf@[k] == 32u8,
            forall|k: int| start <= k < start + j ==> buf@[k] == value@[k - start],
            forall|k: int| start + j <= k < 21 ==> buf@[k] == 32u8,
        decreases vl - j,
    {
        buf[start + j] = value[j];
        j = j + 1;
    }
    assert(buf@ =~= field_line_spec(label@, value@));
    buf
}

/// Helpers for drawing common UI elements on any display
pub trait DisplayExt: DisplayDriver {
    /// Draw a menu item: clear the row, draw the item's line (see
    /// `menu_line_spec`), and invert the row when selected
    fn draw_menu_item(&mut self, row: u8, text: &str, selected: bool) -> Result<(), DisplayError> {
        self.text(row, 0, "                     ")?;
        let line = menu_line(text.as_bytes(), selected);
        self.text(row, 0, text_or_empty(line.as_slice()))?;
        if selected {
            self.invert(row, 0, 20)?;
        }
        Ok(())
    }

    /// Draw a label-value pair as one line (see `field_line_spec`)
    fn draw_field(&mut self, row: u8, label: &str, value: &str) -> Result<(), DisplayError> {
        let line = field_line(label.as_bytes(), value.as_bytes());
        self.text(row, 0, text_or_empty(&line))
    }
}

impl<T: DisplayDriver> DisplayExt for T {

}

} // verus!
