//! What the display module shows: eight text lines of 21 bytes and an
//! inverted region, updated by the controller's commands.
//!
//! The firmware receives a command, applies it here, and redraws the
//! OLED when `handle_controller_command` says so.

use vstd::prelude::*;
use vstd::string::StrSliceExecFns;

verus! {

/// Number of text rows
pub const ROWS: usize = 8;

/// Bytes per text row
pub const ROW_BYTES: usize = 21;

/// A command from the controller
#[derive(Debug, Clone, PartialEq, Eq)]
pub enum ControllerCommand {
    /// Heartbeat request
    Ping,
    /// Clear the whole screen
    ClearScreen,
    /// Write text at a row and column
    Text { row: u8, col: u8, text: String },
    /// Invert columns of a row (selection highlight)
    Invert { row: u8, start_col: u8, end_col: u8 },
    /// Reset to the boot state
    Reset,
}

/// UTF-8 encoding of a character.
pub open spec fn utf8_encode(c: char) -> Seq<u8> {
    let v = c as u32;
    if v < 0x80 {
        seq![v as u8]
    } else if v < 0x800 {
        seq![(0xC0 | (v >> 6)) as u8, (0x80 | (v & 0x3F)) as u8]
    } else if v < 0x10000 {
        seq![(0xE0 | (v >> 12)) as u8, (0x80 | ((v >> 6) & 0x3F)) as u8, (0x80 | (v & 0x3F)) as u8]
    } else {
        seq![
            (0xF0 | (v >> 18)) as u8,
            (0x80 | ((v >> 12) & 0x3F)) as u8,
            (0x80 | ((v >> 6) & 0x3F)) as u8,
            (0x80 | (v & 0x3F)) as u8,
        ]
    }
}

/// The bytes of a text row.
pub uninterp spec fn row_bytes(s: heapless::String<21>) -> Seq<u8>;

/// `heapless::String::new`: an empty row.
#[verifier::external_body]
fn row_new() -> (r: heapless::String<21>)
    ensures
        row_bytes(r) == Seq::<u8>::empty(),
{
    heapless::String::new()
}

/// `heapless::String::clear`: empties the row.
#[verifier::external_body]
fn row_clear(s: &mut heapless::String<21>)
    ensures
        row_bytes(*final(s)) == Seq::<u8>::empty(),
{
    s.clear()
}

/// `heapless::String::len`: the row's length in bytes.
#[verifier::external_body]
fn row_len(s: &heapless::String<21>) -> (r: usize)
    ensures
        r == row_bytes(*s).len(),
        r <= ROW_BYTES,
{
    s.len()
}

/// `heapless::String::push`: appends the character's UTF-8 bytes when
/// they fit in the row's 21 bytes, otherwise changes nothing.
#[verifier::external_body]
fn row_push(s: &mut heapless::String<21>, c: char) -> (r: Result<(), ()>)
    ensures
        r is Ok <==> row_bytes(*old(s)).len() + utf8_encode(c).len() <= ROW_BYTES,
        r is Ok ==> row_bytes(*final(s)) == row_bytes(*old(s)) + utf8_encode(c),
        r is Err ==> row_bytes(*final(s)) == row_bytes(*old(s)),
{
    s.push(c)
}

/// `heapless::String::truncate`: keeps the first `n` bytes; `n` must end
/// on a character when it is shorter than the row.
#[verifier::external_body]
fn row_truncate(s: &mut heapless::String<21>, n: usize)
    requires
        0 < n < row_bytes(*old(s)).len() ==> !(0x80 <= row_bytes(*old(s))[n as int] && row_bytes(*old(s))[n
            as int] < 0xC0),
    ensures
        n <= row_bytes(*old(s)).len() ==> row_bytes(*final(s)) == row_bytes(*old(s)).take(n as int),
        n > row_bytes(*old(s)).len() ==> row_bytes(*final(s)) == row_bytes(*old(s)),
{
    s.truncate(n)
}

/// `n` spaces.
pub open spec fn spaces(n: nat) -> Seq<u8> {
    Seq::new(n, |i: int| 32u8)
}

/// Appending characters to a row: stop once the row is full; a character
/// that does not fit is skipped.
pub open spec fn append_chars(row: Seq<u8>, chars: Seq<char>) -> Seq<u8>
    decreases chars.len(),
{
    if chars.len() == 0 || row.len() >= ROW_BYTES {
        row
    } else {
        let c = utf8_encode(chars[0]);
        let next = if row.len() + c.len() <= ROW_BYTES {
            row + c
        } else {
            row
        };
        append_chars(next, chars.drop_first())
    }
}

/// A row after writing `text` at column `col`: the row's first `col`
/// bytes, padded with spaces to `col`, then the text's characters while
/// they fit.
pub open spec fn write_spec(row: Seq<u8>, col: nat, text: Seq<char>) -> Seq<u8> {
    let head = if row.len() < col {
        row + spaces((col - row.len()) as nat)
    } else {
        row.take(col as int)
    };
    append_chars(head, text)
}

/// The screen as values.
#[verifier::ext_equal]
pub struct TerminalView {
    pub lines: Seq<Seq<u8>>,
    pub invert: Option<(u8, u8, u8)>,
    pub dirty: bool,
}

/// The screen of the display module
pub struct DisplayState {
    /// Text rows
    pub lines: [heapless::String<21>; 8],
    /// Inverted region: row, start column, end column
    pub invert: Option<(u8, u8, u8)>,
    /// Whether the screen must be redrawn
    pub dirty: bool,
}

/// Writing at `col` of a row needs a column within the row and, when the
/// row is longer, a column that starts a character.
pub open spec fn write_allowed(row: Seq<u8>, col: u8) -> bool {
    &&& col <= ROW_BYTES
    &&& 0 < col < row.len() ==> !(0x80 <= row[col as int] && row[col as int] < 0xC0)
}

/// Applying a command: text and inversion update the screen, clear and
/// reset blank it; everything but a ping asks for a redraw.
pub open spec fn apply_spec(v: TerminalView, cmd: ControllerCommand) -> (TerminalView, bool) {
    match cmd {
        ControllerCommand::Ping => (v, false),
        ControllerCommand::ClearScreen | ControllerCommand::Reset => (
            TerminalView { lines: Seq::new(ROWS as nat, |i: int| Seq::<u8>::empty()), invert: None, dirty: true },
            true,
        ),
        ControllerCommand::Text { row, col, text } => if row < ROWS {
            (
                TerminalView {
                    lines: v.lines.update(row as int, write_spec(v.lines[row as int], col as nat, text@)),
                    dirty: true,
                    ..v
                },
                true,
            )
        } else {
            (v, true)
        },
        ControllerCommand::Invert { row, start_col, end_col } => (
            TerminalView { invert: Some((row, start_col, end_col)), dirty: true, ..v },
            true,
        ),
    }
}

/// A command may be applied: text goes to a column the row allows.
pub open spec fn command_allowed(v: TerminalView, cmd: ControllerCommand) -> bool {
    match cmd {
        ControllerCommand::Text { row, col, text } => row < ROWS ==> write_allowed(v.lines[row as int], col),
        _ => true,
    }
}

impl DisplayState {
    /// The screen as values.
    pub open spec fn view(&self) -> TerminalView {
        TerminalView {
            lines: self.lines@.map_values(|l: heapless::String<21>| row_bytes(l)),
            invert: self.invert,
            dirty: self.dirty,
        }
    }

    /// A blank screen, marked for redraw
    pub fn new() -> (r: Self)
        ensures
            r.view() == (TerminalView {
                lines: Seq::new(ROWS as nat, |i: int| Seq::<u8>::empty()),
                invert: None,
                dirty: true,
            }),
    {
        let r = DisplayState {
            lines: [row_new(), row_new(), row_new(), row_new(), row_new(), row_new(), row_new(), row_new()],
            invert: None,
            dirty: true,
        };
        assert(r.view().lines =~= Seq::new(ROWS as nat, |i: int| Seq::<u8>::empty()));
        r
    }

    /// Blank every row and the inversion, marked for redraw
    pub fn clear(&mut self)
        ensures
            final(self).view() == (TerminalView {
                lines: Seq::new(ROWS as nat, |i: int| Seq::<u8>::empty()),
                invert: None,
                dirty: true,
            }),
    {
        let mut i: usize = 0;
        while i < ROWS
            invariant
                i <= ROWS,
                forall|k: int| 0 <= k < i ==> row_bytes(#[trigger] self.lines@[k]) == Seq::<u8>::empty(),
            decreases ROWS - i,
        {
            row_clear(&mut self.lines[i]);
            i = i + 1;
        }
        self.invert = None;
        self.dirty = true;
        assert(self.view().lines =~= Seq::new(ROWS as nat, |i: int| Seq::<u8>::empty()));
    }

    /// Write text at a row and column (see `write_spec`), marked for
    /// redraw; rows of 8 or more are ignored
    pub fn set_text(&mut self, row: u8, col: u8, text: &str)
        requires
            row < ROWS ==> write_allowed(old(self).view().lines[row as int], col),
        ensures
            row >= ROWS ==> final(self).view() == old(self).view(),
            row < ROWS ==> final(self).view() == (TerminalView {
                lines: old(self).view().lines.update(
                    row as int,
                    write_spec(old(self).view().lines[row as int], col as nat, text@),
                ),
                dirty: true,
                ..old(self).view()
            }),
    {
        if (row as usize) < ROWS {
            let ghost before = self.view();
            let r = row as usize;
            let ghost start = row_bytes(self.lines@[r as int]);
            let c = col as usize;
            let mut line = row_new();
            std::mem::swap(&mut line, &mut self.lines[r]);
            // Pad with spaces up to the column
            while row_len(&line) < c
                invariant
                    c <= ROW_BYTES,
                    start.len() < c ==> row_bytes(line) == start + spaces((row_bytes(line).len() - start.len()) as nat)
                        && row_bytes(line).len() <= c,
                    start.len() >= c ==> row_bytes(line) == start,
                decreases c - row_bytes(line).len(),
            {
                let ghost pre = row_bytes(line);
                let _ = row_push(&mut line, ' ');
                proof {
                    assert(utf8_encode(' ') =~= seq![32u8]);
                    assert(pre + seq![32u8] =~= start + spaces((pre.len() + 1 - start.len()) as nat));
                }
            }
            if c <= row_len(&line) {
                row_truncate(&mut line, c);
            }
            let ghost head = row_bytes(line);
            proof {
                if start.len() < c {
                    assert(head =~= start + spaces((c - start.len()) as nat));
                } else {
                    assert(head =~= start.take(c as int));
                }
            }
            // Append the text while it fits
            let n = text.unicode_len();
            let mut i: usize = 0;
            proof {
                assert(text@.skip(0) =~= text@);
            }
            while i < n
                invariant
                    n == text@.len(),
                    i <= n,
                    append_chars(row_bytes(line), text@.skip(i as int)) == append_chars(head, text@),
                ensures
                    row_bytes(line) == append_chars(head, text@),
                decreases n - i,
            {
                if row_len(&line) >= ROW_BYTES {
                    break;
                }
                if i + 1 == n {
                    proof {
                        assert(text@.skip(i + 1) =~= Seq::<char>::empty());
                    }
                }
                let ch = text.get_char(i);
                proof {
                    assert(text@.skip(i as int)[0] == ch);
                    assert(text@.skip(i as int).drop_first() =~= text@.skip(i + 1));
                }
                let _ = row_push(&mut line, ch);
                i = i + 1;
            }
            std::mem::swap(&mut line, &mut self.lines[r]);
            self.dirty = true;
            proof {
                assert(row_bytes(self.lines@[r as int]) == write_spec(start, col as nat, text@));
                assert(self.view() =~= TerminalView {
                    lines: before.lines.update(row as int, write_spec(start, col as nat, text@)),
                    dirty: true,
                    ..before
                });
            }
        }
    }
}

/// Apply a command from the controller to the screen (see
/// `apply_spec`); whether the screen must be redrawn
pub fn handle_controller_command(state: &mut DisplayState, cmd: ControllerCommand) -> (r: bool)
    requires
        command_allowed(old(state).view(), cmd),
    ensures
        (final(state).view(), r) == apply_spec(old(state).view(), cmd),
{
    match cmd {
        ControllerCommand::Ping => false,
        ControllerCommand::ClearScreen => {
            state.clear();
            true
        },
        ControllerCommand::Text { row, col, text } => {
            state.set_text(row, col, text.as_str());
            true
        },
        ControllerCommand::Invert { row, start_col, end_col } => {
            let ghost before = state.view();
            state.invert = Some((row, start_col, end_col));
            state.dirty = true;
            assert(state.view() =~= TerminalView { invert: Some((row, start_col, end_col)), dirty: true, ..before });
            true
        },
        ControllerCommand::Reset => {
            state.clear();
            true
        },
    }
}

/// Writing at column 0 of any row replaces it with as many whole
/// characters of the text as fit: never more than a row, and all of a
/// short ASCII text.
pub proof fn lemma_write_fits(row: Seq<u8>, col: nat, text: Seq<char>)
    requires
        col <= ROW_BYTES,
    ensures
        write_spec(row, col, text).len() <= ROW_BYTES,
{
    let head = if row.len() < col {
        row + spaces((col - row.len()) as nat)
    } else {
        row.take(col as int)
    };
    lemma_append_chars_bound(head, text);
}

proof fn lemma_append_chars_bound(row: Seq<u8>, chars: Seq<char>)
    requires
        row.len() <= ROW_BYTES,
    ensures
        append_chars(row, chars).len() <= ROW_BYTES,
    decreases chars.len(),
{
    if chars.len() > 0 && row.len() < ROW_BYTES {
        let c = utf8_encode(chars[0]);
        let next = if row.len() + c.len() <= ROW_BYTES {
            row + c
        } else {
            row
        };
        lemma_append_chars_bound(next, chars.drop_first());
    }
}

} // verus!
