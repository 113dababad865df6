//! Frame buffer of the SH1106 128x64 OLED of the display module: eight
//! pages of 128 columns, one bit per pixel, with the controller's command
//! bytes. The caller sends the bytes over I2C.

use vstd::prelude::*;

verus! {

/// SH1106 I2C address
pub const SH1106_ADDR: u8 = 0x3C;

/// Display width in pixels
pub const WIDTH: usize = 128;

/// Display height in pixels
pub const HEIGHT: usize = 64;

/// Number of 8-pixel pages
pub const PAGES: usize = 8;

/// Initialization sequence: display off, clock, 64-line multiplex, no
/// offset, start line 0, charge pump on, flipped both ways, alternative
/// COM pins, high contrast, precharge, VCOM level, normal, display on.
pub open spec fn init_sequence() -> Seq<u8> {
    seq![
        0xAE, 0xD5, 0x80, 0xA8, 0x3F, 0xD3, 0x00, 0x40, 0x8D, 0x14, 0xA1, 0xC8, 0xDA, 0x12, 0x81, 0xCF,
        0xD9, 0xF1, 0xDB, 0x40, 0xA6, 0xAF,
    ]
}

/// The initialization commands, in order
pub fn init_commands() -> (r: [u8; 22])
    ensures
        r@ == init_sequence(),
{
    let r: [u8; 22] = [
        0xAE, 0xD5, 0x80, 0xA8, 0x3F, 0xD3, 0x00, 0x40, 0x8D, 0x14, 0xA1, 0xC8, 0xDA, 0x12, 0x81, 0xCF,
        0xD9, 0xF1, 0xDB, 0x40, 0xA6, 0xAF,
    ];
    assert(r@ =~= init_sequence());
    r
}

/// An I2C write of one command byte: control byte 0, then the command
pub fn command_frame(cmd: u8) -> (r: [u8; 2])
    ensures
        r@ == seq![0u8, cmd],
{
    let r = [0u8, cmd];
    assert(r@ =~= seq![0u8, cmd]);
    r
}

/// The commands that address a page before its data: page address, and
/// column 2 (the SH1106's visible area starts at column 2)
pub fn page_address_commands(page: u8) -> (r: [u8; 3])
    requires
        page < PAGES,
    ensures
        r@ == seq![(0xB0 + page) as u8, 0x02u8, 0x10u8],
{
    let r = [0xB0u8 | page, 0x02u8, 0x10u8];
    assert((0xB0u8 | page) == 0xB0 + page) by (bit_vector)
        requires
            page < 8,
    ;
    assert(r@ =~= seq![(0xB0 + page) as u8, 0x02u8, 0x10u8]);
    r
}

/// A byte with every bit inverted.
pub open spec fn flip(b: u8) -> u8 {
    b ^ 0xFFu8
}

/// SH1106 OLED driver: the I2C bus and the frame buffer
pub struct Sh1106<I2C> {
    i2c: I2C,
    buffer: [[u8; 128]; 8],
}

impl<I2C> Sh1106<I2C> {
    /// The frame buffer, page by page.
    pub closed spec fn pages(&self) -> Seq<Seq<u8>> {
        self.buffer@.map_values(|p: [u8; 128]| p@)
    }

    /// A driver with a blank frame buffer
    pub fn new(i2c: I2C) -> (r: Self)
        ensures
            r.pages().len() == PAGES,
            forall|p: int, x: int| 0 <= p < PAGES && 0 <= x < WIDTH ==> r.pages()[p][x] == 0,
            r.bus() == i2c,
    {
        let page = [0u8; 128];
        let r = Sh1106 { i2c, buffer: [page, page, page, page, page, page, page, page] };
        assert forall|p: int, x: int| 0 <= p < PAGES && 0 <= x < WIDTH implies r.pages()[p][x] == 0 by {
            assert(r.buffer@[p] == page);
        }
        r
    }

    /// The I2C bus.
    pub closed spec fn bus(&self) -> I2C {
        self.i2c
    }

    /// The I2C bus, for sending commands and data; the frame buffer is
    /// left as it is
    pub fn i2c_mut(&mut self) -> (r: &mut I2C)
        ensures
            *r == old(self).bus(),
            final(self).bus() == *final(r),
            final(self).pages() == old(self).pages(),
    {
        &mut self.i2c
    }

    /// One page of the frame buffer
    pub fn page(&self, page: usize) -> (r: &[u8; 128])
        requires
            page < PAGES,
        ensures
            r@ == self.pages()[page as int],
    {
        &self.buffer[page]
    }

    /// Blank the frame buffer
    pub fn clear(&mut self)
        ensures
            final(self).pages().len() == PAGES,
            forall|p: int, x: int| 0 <= p < PAGES && 0 <= x < WIDTH ==> final(self).pages()[p][x] == 0,
            final(self).bus() == old(self).bus(),
    {
        let page = [0u8; 128];
        self.buffer = [page, page, page, page, page, page, page, page];
        assert forall|p: int, x: int| 0 <= p < PAGES && 0 <= x < WIDTH implies self.pages()[p][x] == 0 by {
            assert(self.buffer@[p] == page);
        }
    }

    /// Invert the pixels of character columns `start_col..end_col` of a
    /// row (6-pixel characters from pixel column 2), up to the edge; rows
    /// of 8 or more are ignored
    pub fn invert_region(&mut self, row: u8, start_col: u8, end_col: u8)
        ensures
            final(self).bus() == old(self).bus(),
            final(self).pages().len() == old(self).pages().len(),
            forall|p: int, x: int|
                0 <= p < PAGES && 0 <= x < WIDTH ==> #[trigger] final(self).pages()[p][x] == if p == row
                    && start_col * 6 + 2 <= x < end_col * 6 + 2 {
                    flip(old(self).pages()[p][x])
                } else {
                    old(self).pages()[p][x]
                },
    {
        if row as usize >= PAGES {
            return;
        }
        let r = row as usize;
        let start_x: usize = (start_col as usize) * 6 + 2;
        let end_limit: usize = (end_col as usize) * 6 + 2;
        let end_x: usize = if end_limit < WIDTH { end_limit } else { WIDTH };
        let mut page = self.buffer[r];
        let ghost orig = page@;
        let mut x: usize = start_x;
        while x < end_x
            invariant
                end_x <= WIDTH,
                orig.len() == WIDTH,
                start_x <= x,
                x <= end_x || x == start_x,
                page@.len() == WIDTH,
                forall|k: int| 0 <= k < WIDTH ==> #[trigger] page@[k] == if start_x <= k < x {
                    flip(orig[k])
                } else {
                    orig[k]
                },
            decreases end_x - x,
        {
            let ghost prev = page@;
            let flipped: u8 = page[x] ^ 0xFFu8;
            assert(flipped == flip(prev[x as int]));
            page[x] = flipped;
            assert(page@ == prev.update(x as int, flipped));
            assert forall|k: int| 0 <= k < WIDTH implies #[trigger] page@[k] == if start_x <= k < x + 1 {
                flip(orig[k])
            } else {
                orig[k]
            } by {
                if k == x {
                    assert(prev[k] == orig[k]);
                } else {
                    assert(page@[k] == prev[k]);
                }
            }
            x = x + 1;
        }
        let ghost before = self.pages();
        self.buffer[r] = page;
        assert forall|p: int, k: int| 0 <= p < PAGES && 0 <= k < WIDTH implies #[trigger] self.pages()[p][k]
            == if p == row && start_col * 6 + 2 <= k < end_col * 6 + 2 {
            flip(before[p][k])
        } else {
            before[p][k]
        } by {
            if p == r {
                assert(self.pages()[p] == page@);
                assert(before[p] == orig);
            } else {
                assert(self.buffer@[p] == old(self).buffer@[p]);
            }
        }
    }
}

/// Inverting a region twice restores it.
pub proof fn lemma_invert_twice(b: u8)
    ensures
        flip(flip(b)) == b,
{
    assert((b ^ 0xFFu8) ^ 0xFFu8 == b) by (bit_vector);
}

} // verus!
