//! A character screen buffer for text-mode displays: four lines of twenty
//! bytes, a highlight per line, and a flag for pending redraws.

use vstd::prelude::*;
use vstd::string::StringSliceAdditionalSpecFns;

verus! {

/// Number of character rows on standard display
pub const SCREEN_ROWS: usize = 4;

/// Number of character columns on standard display
pub const SCREEN_COLS: usize = 20;

/// Maximum bytes per line
pub const LINE_LEN: usize = SCREEN_COLS;

/// The bytes of a screen line.
pub uninterp spec fn line_bytes(s: heapless::String<20>) -> Seq<u8>;

/// `heapless::String::new`: an empty line.
#[verifier::external_body]
fn line_new() -> (r: heapless::String<20>)
    ensures
        line_bytes(r) == Seq::<u8>::empty(),
{
    heapless::String::new()
}

/// `heapless::String::clear`: empties the line.
#[verifier::external_body]
fn line_clear(s: &mut heapless::String<20>)
    ensures
        line_bytes(*final(s)) == Seq::<u8>::empty(),
{
    s.clear()
}

/// `heapless::String::push_str`: appends the text's bytes when they fit in
/// the line's 20 bytes, otherwise changes nothing.
#[verifier::external_body]
fn line_push_str(s: &mut heapless::String<20>, text: &str) -> (r: Result<(), ()>)
    ensures
        r is Ok <==> line_bytes(*old(s)).len() + text.spec_bytes().len() <= 20,
        r is Ok ==> line_bytes(*final(s)) == line_bytes(*old(s)) + text.spec_bytes(),
        r is Err ==> line_bytes(*final(s)) == line_bytes(*old(s)),
{
    s.push_str(text)
}

/// `heapless::String::as_str`: the line as text.
#[verifier::external_body]
fn line_as_str(s: &heapless::String<20>) -> (r: &str)
    ensures
        r.spec_bytes() == line_bytes(*s),
{
    s.as_str()
}

/// `heapless::String::clone`: a copy of the line.
#[verifier::external_body]
fn line_clone(s: &heapless::String<20>) -> (r: heapless::String<20>)
    ensures
        line_bytes(r) == line_bytes(*s),
{
    s.clone()
}

/// Byte `n` of a text starts a character (or ends the text).
pub open spec fn char_boundary(bytes: Seq<u8>, n: int) -> bool {
    n == 0 || n == bytes.len() || (0 < n < bytes.len() && !(0x80 <= bytes[n] && bytes[n] < 0xC0))
}

/// `&s[..n]`: the text's first `n` bytes, which must end on a character.
#[verifier::external_body]
fn str_prefix(s: &str, n: usize) -> (r: &str)
    requires
        n <= s.spec_bytes().len(),
        char_boundary(s.spec_bytes(), n as int),
    ensures
        r.spec_bytes() == s.spec_bytes().take(n as int),
{
    &s[..n]
}

/// The screen as values.
#[verifier::ext_equal]
pub struct ScreenView {
    pub lines: Seq<Seq<u8>>,
    pub highlights: Seq<Option<(u8, u8)>>,
    pub dirty: bool,
}

/// What a line holds after `set_line`: the text, cut to 20 bytes.
pub open spec fn fitted(text: Seq<u8>) -> Seq<u8> {
    if text.len() > LINE_LEN {
        text.take(LINE_LEN as int)
    } else {
        text
    }
}

/// Screen buffer for text-mode displays
pub struct Screen {
    lines: [heapless::String<20>; 4],
    highlights: [Option<(u8, u8)>; 4],
    dirty: bool,
}

impl Screen {
    /// The screen as values.
    pub closed spec fn view(&self) -> ScreenView {
        ScreenView {
            lines: self.lines@.map_values(|l: heapless::String<20>| line_bytes(l)),
            highlights: self.highlights@,
            dirty: self.dirty,
        }
    }

    /// An empty screen, marked for redraw
    pub fn new() -> (r: Self)
        ensures
            r.view() == (ScreenView {
                lines: seq![Seq::empty(), Seq::empty(), Seq::empty(), Seq::empty()],
                highlights: seq![None, None, None, None],
                dirty: true,
            }),
    {
        let r = Screen {
            lines: [line_new(), line_new(), line_new(), line_new()],
            highlights: [None, None, None, None],
            dirty: true,
        };
        assert(r.view().lines =~= seq![Seq::<u8>::empty(), Seq::empty(), Seq::empty(), Seq::empty()]);
        assert(r.view().highlights =~= seq![None::<(u8, u8)>, None, None, None]);
        r
    }

    /// Clear every line and highlight, marked for redraw
    pub fn clear(&mut self)
        ensures
            final(self).view() == (ScreenView {
                lines: seq![Seq::empty(), Seq::empty(), Seq::empty(), Seq::empty()],
                highlights: seq![None, None, None, None],
                dirty: true,
            }),
    {
        let mut i: usize = 0;
        while i < SCREEN_ROWS
            invariant
                i <= SCREEN_ROWS,
                forall|k: int| 0 <= k < i ==> line_bytes(#[trigger] self.lines@[k]) == Seq::<u8>::empty(),
                forall|k: int| 0 <= k < i ==> self.highlights@[k] is None,
            decreases SCREEN_ROWS - i,
        {
            line_clear(&mut self.lines[i]);
            self.highlights[i] = None;
            i = i + 1;
        }
        self.dirty = true;
        assert(self.view().lines =~= seq![Seq::<u8>::empty(), Seq::empty(), Seq::empty(), Seq::empty()]);
        assert(self.view().highlights =~= seq![None::<(u8, u8)>, None, None, None]);
    }

    /// Set the text of a row, cut to 20 bytes, marked for redraw; rows of
    /// 4 or more are ignored
    pub fn set_line(&mut self, row: usize, text: &str)
        requires
            row < SCREEN_ROWS ==> char_boundary(text.spec_bytes(), LINE_LEN as int) || text.spec_bytes().len()
                <= LINE_LEN,
        ensures
            row >= SCREEN_ROWS ==> final(self).view() == old(self).view(),
            row < SCREEN_ROWS ==> final(self).view() == (ScreenView {
                lines: old(self).view().lines.update(row as int, fitted(text.spec_bytes())),
                dirty: true,
                ..old(self).view()
            }),
    {
        if row < SCREEN_ROWS {
            let ghost before = self.view();
            line_clear(&mut self.lines[row]);
            let n = text.as_bytes().len();
            assert(n == text.spec_bytes().len());
            let t = if n > LINE_LEN {
                str_prefix(text, LINE_LEN)
            } else {
                text
            };
            let _ = line_push_str(&mut self.lines[row], t);
            self.dirty = true;
            assert(Seq::<u8>::empty() + t.spec_bytes() =~= t.spec_bytes());
            assert(t.spec_bytes() =~= fitted(text.spec_bytes()));
            assert(line_bytes(self.lines@[row as int]) == fitted(text.spec_bytes()));
            assert(self.view().lines =~= before.lines.update(row as int, fitted(text.spec_bytes())));
            assert(self.view() =~= ScreenView {
                lines: before.lines.update(row as int, fitted(text.spec_bytes())),
                dirty: true,
                ..before
            });
        }
    }

    /// The text of a row, `None` for rows of 4 or more
    pub fn get_line(&self, row: usize) -> (r: Option<&str>)
        ensures
            r is Some <==> row < SCREEN_ROWS,
            r is Some ==> r->0.spec_bytes() == self.view().lines[row as int],
    {
        if row < SCREEN_ROWS {
            Some(line_as_str(&self.lines[row]))
        } else {
            None
        }
    }

    /// Highlight (invert) columns `start_col..end_col` of a row, marked for
    /// redraw; rows of 4 or more are ignored
    pub fn set_highlight(&mut self, row: usize, start_col: u8, end_col: u8)
        ensures
            row >= SCREEN_ROWS ==> final(self).view() == old(self).view(),
            row < SCREEN_ROWS ==> final(self).view() == (ScreenView {
                highlights: old(self).view().highlights.update(row as int, Some((start_col, end_col))),
                dirty: true,
                ..old(self).view()
            }),
    {
        if row < SCREEN_ROWS {
            let ghost before = self.view();
            self.highlights[row] = Some((start_col, end_col));
            self.dirty = true;
            assert(self.view() =~= ScreenView {
                highlights: before.highlights.update(row as int, Some((start_col, end_col))),
                dirty: true,
                ..before
            });
        }
    }

    /// Clear the highlight of a row, marked for redraw; rows of 4 or more
    /// are ignored
    pub fn clear_highlight(&mut self, row: usize)
        ensures
            row >= SCREEN_ROWS ==> final(self).view() == old(self).view(),
            row < SCREEN_ROWS ==> final(self).view() == (ScreenView {
                highlights: old(self).view().highlights.update(row as int, None),
                dirty: true,
                ..old(self).view()
            }),
    {
        if row < SCREEN_ROWS {
            let ghost before = self.view();
            self.highlights[row] = None;
            self.dirty = true;
            assert(self.view() =~= ScreenView {
                highlights: before.highlights.update(row as int, None),
                dirty: true,
                ..before
            });
        }
    }

    /// Clear every highlight, marked for redraw
    pub fn clear_all_highlights(&mut self)
        ensures
            final(self).view() == (ScreenView {
                highlights: seq![None, None, None, None],
                dirty: true,
                ..old(self).view()
            }),
    {
        let ghost before = self.view();
        self.highlights = [None, None, None, None];
        self.dirty = true;
        assert(self.view() =~= ScreenView { highlights: seq![None, None, None, None], dirty: true, ..before });
    }

    /// The highlight of a row, `None` for none or for rows of 4 or more
    pub fn get_highlight(&self, row: usize) -> (r: Option<(u8, u8)>)
        ensures
            row < SCREEN_ROWS ==> r == self.view().highlights[row as int],
            row >= SCREEN_ROWS ==> r is None,
    {
        if row < SCREEN_ROWS {
            self.highlights[row]
        } else {
            None
        }
    }

    /// Whether the screen needs redrawing
    pub fn is_dirty(&self) -> (r: bool)
        ensures
            r == self.view().dirty,
    {
        self.dirty
    }

    /// Mark the screen as drawn
    pub fn mark_clean(&mut self)
        ensures
            final(self).view() == (ScreenView { dirty: false, ..old(self).view() }),
    {
        let ghost before = self.view();
        self.dirty = false;
        assert(self.view() =~= ScreenView { dirty: false, ..before });
    }

    /// Mark the screen for redraw
    pub fn mark_dirty(&mut self)
        ensures
            final(self).view() == (ScreenView { dirty: true, ..old(self).view() }),
    {
        let ghost before = self.view();
        self.dirty = true;
        assert(self.view() =~= ScreenView { dirty: true, ..before });
    }

    /// All lines, top to bottom
    pub fn lines(&self) -> (r: Vec<&str>)
        ensures
            r@.len() == SCREEN_ROWS,
            forall|k: int| 0 <= k < SCREEN_ROWS ==> (#[trigger] r@[k]).spec_bytes() == self.view().lines[k],
    {
        let mut v: Vec<&str> = Vec::new();
        let mut i: usize = 0;
        while i < SCREEN_ROWS
            invariant
                i <= SCREEN_ROWS,
                v@.len() == i,
                forall|k: int| 0 <= k < i ==> (#[trigger] v@[k]).spec_bytes() == self.view().lines[k],
            decreases SCREEN_ROWS - i,
        {
            v.push(line_as_str(&self.lines[i]));
            i = i + 1;
        }
        v
    }

    /// Number of rows
    pub fn rows(&self) -> (r: usize)
        ensures
            r == SCREEN_ROWS,
    {
        SCREEN_ROWS
    }

    /// Number of columns
    pub fn cols(&self) -> (r: usize)
        ensures
            r == SCREEN_COLS,
    {
        SCREEN_COLS
    }

    /// The first highlighted row with its columns, if any
    pub fn selection(&self) -> (r: Option<(u8, u8, u8)>)
        ensures
            r is None ==> forall|k: int| 0 <= k < SCREEN_ROWS ==> self.view().highlights[k] is None,
            r matches Some((row, s, e)) ==> row < SCREEN_ROWS && self.view().highlights[row as int] == Some((s, e))
                && forall|k: int| 0 <= k < row ==> self.view().highlights[k] is None,
    {
        let mut i: usize = 0;
        while i < SCREEN_ROWS
            invariant
                i <= SCREEN_ROWS,
                forall|k: int| 0 <= k < i ==> self.view().highlights[k] is None,
            decreases SCREEN_ROWS - i,
        {
            match self.highlights[i] {
                Some((start, end)) => {
                    return Some((i as u8, start, end));
                },
                None => {},
            }
            i = i + 1;
        }
        None
    }

    /// Number of rows, as a byte
    pub fn rows_u8(&self) -> (r: u8)
        ensures
            r == SCREEN_ROWS,
    {
        4
    }
}

impl Default for Screen {
    fn default() -> (r: Self)
        ensures
            r.view() == (ScreenView {
                lines: seq![Seq::empty(), Seq::empty(), Seq::empty(), Seq::empty()],
                highlights: seq![None, None, None, None],
                dirty: true,
            }),
    {
        Self::new()
    }
}

impl Clone for Screen {
    fn clone(&self) -> (r: Self)
        ensures
            r.view() == self.view(),
    {
        let r = Screen {
            lines: [
                line_clone(&self.lines[0]),
                line_clone(&self.lines[1]),
                line_clone(&self.lines[2]),
                line_clone(&self.lines[3]),
            ],
            highlights: self.highlights,
            dirty: self.dirty,
        };
        assert(r.view().lines =~= self.view().lines);
        r
    }
}

/// Setting a row and reading it back gives the text cut to 20 bytes, and
/// leaves the other rows as they were.
pub proof fn lemma_set_then_get_line(v: ScreenView, row: int, text: Seq<u8>, other: int)
    requires
        0 <= row < SCREEN_ROWS,
        0 <= other < SCREEN_ROWS,
        other != row,
        v.lines.len() == SCREEN_ROWS,
    ensures
        v.lines.update(row, fitted(text))[row] == fitted(text),
        v.lines.update(row, fitted(text))[other] == v.lines[other],
        fitted(text).len() <= LINE_LEN,
        text.len() <= LINE_LEN ==> fitted(text) == text,
{
}

} // verus!
