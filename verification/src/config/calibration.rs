//! PID calibration data: autotune results persisted to flash and loaded on
//! boot, guarded by a magic number, a version and a CRC-32.

use vstd::prelude::*;

use crate::config::hardware::MAX_HEATERS;
use crate::search::{first_where, is_first_where, lemma_first_where_found, lemma_first_where_none};

verus! {

/// Magic number to identify valid calibration data ("PIDC")
pub const CALIBRATION_MAGIC: u32 = 0x50494443;

/// Current calibration data version
pub const CALIBRATION_VERSION: u8 = 1;

/// Reflected IEEE 802.3 CRC-32 polynomial
pub const CRC32_POLY: u32 = 0xEDB88320;

/// PID calibration data for a single heater
#[derive(Debug, Clone, Copy, PartialEq, Eq, Structural)]
pub struct HeaterCalibration {
    /// Heater index (0-based)
    pub heater_index: u8,
    /// Whether this calibration slot is valid
    pub valid: bool,
    /// Proportional gain (value x 100)
    pub kp_x100: i16,
    /// Integral gain (value x 100)
    pub ki_x100: i16,
    /// Derivative gain (value x 100)
    pub kd_x100: i16,
    /// Ultimate gain from autotune (for reference, x 100)
    pub ku_x100: i16,
    /// Ultimate period from autotune in ticks (for reference)
    pub tu_ticks: u16,
}

/// An invalid, zeroed calibration slot for heater 0.
pub open spec fn empty_slot() -> HeaterCalibration {
    HeaterCalibration {
        heater_index: 0,
        valid: false,
        kp_x100: 0,
        ki_x100: 0,
        kd_x100: 0,
        ku_x100: 0,
        tu_ticks: 0,
    }
}

impl Default for HeaterCalibration {
    fn default() -> (r: Self)
        ensures
            r == empty_slot(),
    {
        HeaterCalibration {
            heater_index: 0,
            valid: false,
            kp_x100: 0,
            ki_x100: 0,
            kd_x100: 0,
            ku_x100: 0,
            tu_ticks: 0,
        }
    }
}

impl HeaterCalibration {
    /// Create a new, valid calibration entry
    pub fn new(heater_index: u8, kp_x100: i16, ki_x100: i16, kd_x100: i16) -> (r: Self)
        ensures
            r == (HeaterCalibration {
                heater_index,
                valid: true,
                kp_x100,
                ki_x100,
                kd_x100,
                ku_x100: 0,
                tu_ticks: 0,
            }),
    {
        HeaterCalibration { heater_index, valid: true, kp_x100, ki_x100, kd_x100, ku_x100: 0, tu_ticks: 0 }
    }

    /// Create a valid entry from autotune result values
    pub fn from_autotune(
        heater_index: u8,
        kp_x100: i16,
        ki_x100: i16,
        kd_x100: i16,
        ku_x100: i16,
        tu_ticks: u16,
    ) -> (r: Self)
        ensures
            r == (HeaterCalibration {
                heater_index,
                valid: true,
                kp_x100,
                ki_x100,
                kd_x100,
                ku_x100,
                tu_ticks,
            }),
    {
        HeaterCalibration { heater_index, valid: true, kp_x100, ki_x100, kd_x100, ku_x100, tu_ticks }
    }

    /// Check if this calibration entry is valid
    pub fn is_valid(&self) -> (r: bool)
        ensures
            r == self.valid,
    {
        self.valid
    }

    /// Clear this calibration entry: invalid and zeroed, keeping its index
    pub fn clear(&mut self)
        ensures
            *final(self) == (HeaterCalibration { heater_index: old(self).heater_index, ..empty_slot() }),
    {
        self.valid = false;
        self.kp_x100 = 0;
        self.ki_x100 = 0;
        self.kd_x100 = 0;
        self.ku_x100 = 0;
        self.tu_ticks = 0;
    }
}

/// Complete calibration data stored in flash: calibrations for several
/// heaters behind a header for validation.
#[derive(Debug, Clone)]
pub struct CalibrationData {
    /// Magic number for validation
    pub magic: u32,
    /// Data format version
    pub version: u8,
    /// Heater calibrations
    pub heaters: [HeaterCalibration; MAX_HEATERS],
    /// CRC32 checksum (calculated over magic..heaters)
    pub crc: u32,
}

// ---------------------------------------------------------------------
// CRC-32 (reflected, IEEE 802.3 polynomial)
// ---------------------------------------------------------------------

/// One bit step of the reflected CRC-32 shift register.
pub open spec fn crc_bit(c: u32) -> u32 {
    if c & 1 != 0 {
        (c >> 1) ^ CRC32_POLY
    } else {
        c >> 1
    }
}

/// `k` bit steps.
pub open spec fn crc_bits(c: u32, k: nat) -> u32
    decreases k,
{
    if k == 0 {
        c
    } else {
        crc_bit(crc_bits(c, (k - 1) as nat))
    }
}

/// The register after feeding one byte.
pub open spec fn crc_byte(c: u32, b: u8) -> u32 {
    crc_bits(c ^ (b as u32), 8)
}

/// The register after feeding `data`, first byte first.
pub open spec fn crc_bytes(c: u32, data: Seq<u8>) -> u32
    decreases data.len(),
{
    if data.len() == 0 {
        c
    } else {
        crc_byte(crc_bytes(c, data.drop_last()), data.last())
    }
}

/// Feeding two runs of bytes one after the other.
pub proof fn lemma_crc_bytes_append(c: u32, a: Seq<u8>, b: Seq<u8>)
    ensures
        crc_bytes(c, a + b) == crc_bytes(crc_bytes(c, a), b),
    decreases b.len(),
{
    if b.len() > 0 {
        assert((a + b).drop_last() =~= a + b.drop_last());
        lemma_crc_bytes_append(c, a, b.drop_last());
    } else {
        assert(a + b =~= a);
    }
}

/// One bit step is linear over XOR.
proof fn lemma_crc_bit_xor(a: u32, b: u32)
    ensures
        crc_bit(a ^ b) == crc_bit(a) ^ crc_bit(b),
{
    assert(crc_bit(a ^ b) == crc_bit(a) ^ crc_bit(b)) by (bit_vector);
}

/// Bit steps are linear over XOR.
proof fn lemma_crc_bits_xor(a: u32, b: u32, n: nat)
    ensures
        crc_bits(a ^ b, n) == crc_bits(a, n) ^ crc_bits(b, n),
    decreases n,
{
    if n > 0 {
        lemma_crc_bits_xor(a, b, (n - 1) as nat);
        lemma_crc_bit_xor(crc_bits(a, (n - 1) as nat), crc_bits(b, (n - 1) as nat));
    }
}

/// Bit steps are one to one.
proof fn lemma_crc_bits_injective(a: u32, b: u32, n: nat)
    ensures
        crc_bits(a, n) == crc_bits(b, n) ==> a == b,
    decreases n,
{
    if n > 0 {
        lemma_crc_bits_injective(a, b, (n - 1) as nat);
        let x = crc_bits(a, (n - 1) as nat);
        let y = crc_bits(b, (n - 1) as nat);
        assert(crc_bit(x) == crc_bit(y) ==> x == y) by (bit_vector);
    }
}

/// `a + b` bit steps are `a` steps, then `b`.
proof fn lemma_crc_bits_split(x: u32, a: nat, b: nat)
    ensures
        crc_bits(x, a + b) == crc_bits(crc_bits(x, a), b),
    decreases b,
{
    if b > 0 {
        lemma_crc_bits_split(x, a, (b - 1) as nat);
        assert((a + b - 1) as nat == a + (b - 1) as nat);
    }
}

/// Feeding a byte of the difference of two runs: the register of a 32-bit
/// word `b | r << 8` after 8 steps is one byte fed, with `r` left over.
proof fn lemma_feed_window(s: u32, b: u8, r: u32)
    requires
        r < 0x100_0000,
    ensures
        crc_bits(s ^ ((b as u32) | (r << 8u32)), 8) == crc_byte(s, b) ^ r,
{
    let bb = b as u32;
    assert(s ^ (bb | (r << 8u32)) == (s ^ bb) ^ (r << 8u32)) by (bit_vector)
        requires
            bb < 256,
    ;
    lemma_crc_bits_xor(s ^ bb, r << 8u32, 8);
    assert(crc_bits(r << 8u32, 8) == r) by (bit_vector)
        requires
            r < 0x100_0000,
    ;
}

/// Feeding four bytes into an empty register is 32 bit steps on their
/// little-endian word, so only four zero bytes leave it empty.
proof fn lemma_four_bytes_nonzero(e0: u8, e1: u8, e2: u8, e3: u8)
    requires
        !(e0 == 0 && e1 == 0 && e2 == 0 && e3 == 0),
    ensures
        crc_byte(crc_byte(crc_byte(crc_byte(0, e0), e1), e2), e3) != 0,
{
    let (a, b, c, d) = (e0 as u32, e1 as u32, e2 as u32, e3 as u32);
    let r1 = d;
    let r2 = c | (r1 << 8u32);
    let r3 = b | (r2 << 8u32);
    let v = a | (r3 << 8u32);
    assert(r2 < 0x100_0000 && r3 < 0x100_0000 && v != 0) by (bit_vector)
        requires
            a < 256,
            b < 256,
            c < 256,
            d < 256,
            r1 == d,
            r2 == c | (r1 << 8u32),
            r3 == b | (r2 << 8u32),
            v == a | (r3 << 8u32),
            !(a == 0 && b == 0 && c == 0 && d == 0),
    ;
    let s1 = crc_byte(0, e0);
    let s2 = crc_byte(s1, e1);
    let s3 = crc_byte(s2, e2);
    lemma_feed_window(0, e0, r3);
    assert(0u32 ^ v == v) by (bit_vector);
    lemma_feed_window(s1, e1, r2);
    lemma_feed_window(s2, e2, r1);
    lemma_feed_window(s3, e3, 0);
    assert(r1 < 0x100_0000);
    assert(s3 ^ (d | (0u32 << 8u32)) == s3 ^ d) by (bit_vector);
    assert(crc_byte(s3, e3) ^ 0u32 == crc_byte(s3, e3)) by (bit_vector);
    lemma_crc_bits_split(v, 8, 8);
    lemma_crc_bits_split(v, 16, 8);
    lemma_crc_bits_split(v, 24, 8);
    lemma_crc_bits_injective(v, 0, 32);
    lemma_crc_bits_zero(32);
}

/// The empty register stays empty.
proof fn lemma_crc_bits_zero(n: nat)
    ensures
        crc_bits(0, n) == 0,
    decreases n,
{
    if n > 0 {
        lemma_crc_bits_zero((n - 1) as nat);
        assert(crc_bit(0) == 0) by (bit_vector);
    }
}

/// Feeding a byte into two registers: their difference evolves as the
/// difference of the bytes fed into the difference of the registers.
proof fn lemma_crc_byte_xor(a: u32, x: u8, b: u32, y: u8)
    ensures
        crc_byte(a, x) ^ crc_byte(b, y) == crc_byte(a ^ b, x ^ y),
{
    let (xx, yy) = (x as u32, y as u32);
    assert((a ^ xx) ^ (b ^ yy) == (a ^ b) ^ ((x ^ y) as u32)) by (bit_vector)
        requires
            xx == x as u32,
            yy == y as u32,
    ;
    lemma_crc_bits_xor(a ^ xx, b ^ yy, 8);
}

/// Feeding the same bytes into two different registers keeps them
/// different.
proof fn lemma_crc_bytes_distinct(a: u32, b: u32, s: Seq<u8>)
    requires
        a != b,
    ensures
        crc_bytes(a, s) != crc_bytes(b, s),
    decreases s.len(),
{
    if s.len() > 0 {
        lemma_crc_bytes_distinct(a, b, s.drop_last());
        let x = crc_bytes(a, s.drop_last());
        let y = crc_bytes(b, s.drop_last());
        let c = s.last() as u32;
        assert(x != y ==> (x ^ c) != (y ^ c)) by (bit_vector);
        lemma_crc_bits_injective(x ^ c, y ^ c, 8);
    }
}

/// Four bytes fed one by one.
proof fn lemma_crc_bytes_four(c: u32, x: Seq<u8>)
    requires
        x.len() == 4,
    ensures
        crc_bytes(c, x) == crc_byte(crc_byte(crc_byte(crc_byte(c, x[0]), x[1]), x[2]), x[3]),
{
    let x3 = x.drop_last();
    let x2 = x3.drop_last();
    let x1 = x2.drop_last();
    assert(x1.drop_last().len() == 0);
    assert(crc_bytes(c, x1.drop_last()) == c);
    assert(x1.last() == x[0]);
    assert(crc_bytes(c, x1) == crc_byte(c, x[0]));
    assert(crc_bytes(c, x2) == crc_byte(crc_bytes(c, x1), x[1]));
    assert(crc_bytes(c, x3) == crc_byte(crc_bytes(c, x2), x[2]));
}

/// The CRC register detects every change confined to four consecutive
/// bytes: two runs that differ only there leave different registers.
pub proof fn lemma_crc_detects_window(c: u32, a: Seq<u8>, b: Seq<u8>, k: int)
    requires
        a.len() == b.len(),
        0 <= k,
        k + 4 <= a.len(),
        forall|j: int| 0 <= j < a.len() && !(k <= j < k + 4) ==> a[j] == b[j],
        a != b,
    ensures
        crc_bytes(c, a) != crc_bytes(c, b),
{
    let p = a.take(k);
    let x = a.subrange(k, k + 4);
    let y = b.subrange(k, k + 4);
    let t = a.skip(k + 4);
    assert(b.take(k) =~= p);
    assert(b.skip(k + 4) =~= t);
    assert(a =~= (p + x) + t);
    assert(b =~= (p + y) + t);
    if x =~= y {
        assert(a =~= b);
    }
    lemma_crc_bytes_append(c, p + x, t);
    lemma_crc_bytes_append(c, p + y, t);
    lemma_crc_bytes_append(c, p, x);
    lemma_crc_bytes_append(c, p, y);
    let c0 = crc_bytes(c, p);
    lemma_crc_bytes_four(c0, x);
    lemma_crc_bytes_four(c0, y);
    let (x0, x1, x2, x3) = (x[0], x[1], x[2], x[3]);
    let (y0, y1, y2, y3) = (y[0], y[1], y[2], y[3]);
    let (u1, v1) = (crc_byte(c0, x0), crc_byte(c0, y0));
    let (u2, v2) = (crc_byte(u1, x1), crc_byte(v1, y1));
    let (u3, v3) = (crc_byte(u2, x2), crc_byte(v2, y2));
    let (u4, v4) = (crc_byte(u3, x3), crc_byte(v3, y3));
    lemma_crc_byte_xor(c0, x0, c0, y0);
    assert(c0 ^ c0 == 0) by (bit_vector);
    lemma_crc_byte_xor(u1, x1, v1, y1);
    lemma_crc_byte_xor(u2, x2, v2, y2);
    lemma_crc_byte_xor(u3, x3, v3, y3);
    assert(!(x0 ^ y0 == 0 && x1 ^ y1 == 0 && x2 ^ y2 == 0 && x3 ^ y3 == 0)) by {
        assert forall|i: u8, j: u8| i ^ j == 0 ==> i == j by {
            assert(i ^ j == 0 ==> i == j) by (bit_vector);
        }
        if x0 == y0 && x1 == y1 && x2 == y2 && x3 == y3 {
            assert(x =~= y);
        }
    }
    lemma_four_bytes_nonzero(x0 ^ y0, x1 ^ y1, x2 ^ y2, x3 ^ y3);
    assert(u4 ^ v4 != 0 ==> u4 != v4) by (bit_vector);
    lemma_crc_bytes_distinct(u4, v4, t);
}

/// Feed `data` into the CRC register `crc`.
fn crc32_update(crc: u32, data: &[u8]) -> (r: u32)
    ensures
        r == crc_bytes(crc, data@),
{
    let mut c = crc;
    let mut i: usize = 0;
    while i < data.len()
        invariant
            i <= data@.len(),
            c == crc_bytes(crc, data@.take(i as int)),
        decreases data.len() - i,
    {
        let byte = data[i];
        let ghost start = c ^ (byte as u32);
        c = c ^ (byte as u32);
        let mut k: u32 = 0;
        while k < 8
            invariant
                k <= 8,
                c == crc_bits(start, k as nat),
            decreases 8 - k,
        {
            if c & 1 != 0 {
                c = (c >> 1) ^ CRC32_POLY;
            } else {
                c = c >> 1;
            }
            k = k + 1;
        }
        proof {
            assert(data@.take(i + 1).drop_last() =~= data@.take(i as int));
            assert(data@.take(i + 1).last() == byte);
        }
        i = i + 1;
    }
    proof {
        assert(data@.take(data@.len() as int) =~= data@);
    }
    c
}

/// Little-endian bytes of a `u32`.
pub open spec fn le32(x: u32) -> Seq<u8> {
    seq![(x & 0xff) as u8, ((x >> 8) & 0xff) as u8, ((x >> 16) & 0xff) as u8, ((x >> 24) & 0xff) as u8]
}

/// Little-endian bytes of a `u16`.
pub open spec fn le16(x: u16) -> Seq<u8> {
    seq![(x & 0xff) as u8, ((x >> 8) & 0xff) as u8]
}

fn le32_bytes(x: u32) -> (r: [u8; 4])
    ensures
        r@ == le32(x),
{
    let r = [(x & 0xff) as u8, ((x >> 8) & 0xff) as u8, ((x >> 16) & 0xff) as u8, ((x >> 24) & 0xff) as u8];
    assert(r@ =~= le32(x));
    r
}

fn le16_bytes(x: u16) -> (r: [u8; 2])
    ensures
        r@ == le16(x),
{
    let r = [(x & 0xff) as u8, ((x >> 8) & 0xff) as u8];
    assert(r@ =~= le16(x));
    r
}

/// The bytes of one heater slot that the CRC covers.
pub open spec fn slot_bytes(h: HeaterCalibration) -> Seq<u8> {
    seq![h.heater_index, if h.valid { 1u8 } else { 0u8 }] + le16(h.kp_x100 as u16) + le16(
        h.ki_x100 as u16,
    ) + le16(h.kd_x100 as u16) + le16(h.ku_x100 as u16) + le16(h.tu_ticks)
}

/// The bytes of the slots `0..n`.
pub open spec fn slots_bytes(hs: Seq<HeaterCalibration>, n: nat) -> Seq<u8>
    decreases n,
{
    if n == 0 {
        Seq::empty()
    } else {
        slots_bytes(hs, (n - 1) as nat) + slot_bytes(hs[n - 1])
    }
}

/// The bytes the CRC covers: magic, version, then every heater slot.
pub open spec fn covered_bytes(d: CalibrationData) -> Seq<u8> {
    le32(d.magic) + seq![d.version] + slots_bytes(d.heaters@, MAX_HEATERS as nat)
}

/// The CRC-32 of calibration data.
pub open spec fn crc_of(d: CalibrationData) -> u32 {
    !crc_bytes(0xFFFF_FFFFu32, covered_bytes(d))
}

/// A valid slot holding `heater_index`.
pub open spec fn valid_for(heater_index: u8) -> spec_fn(HeaterCalibration) -> bool {
    |h: HeaterCalibration| h.valid && h.heater_index == heater_index
}

/// A slot holding `heater_index`, valid or not.
pub open spec fn holds_index(heater_index: u8) -> spec_fn(HeaterCalibration) -> bool {
    |h: HeaterCalibration| h.heater_index == heater_index
}

/// An invalid slot.
pub open spec fn free_slot() -> spec_fn(HeaterCalibration) -> bool {
    |h: HeaterCalibration| !h.valid
}

/// The first valid slot for heater `heater_index`.
pub open spec fn slot_for(hs: Seq<HeaterCalibration>, heater_index: u8) -> Option<int> {
    first_where(hs, valid_for(heater_index))
}

/// What `set` writes: the first slot for the same heater index, else the
/// first invalid slot.
pub open spec fn set_target(hs: Seq<HeaterCalibration>, heater_index: u8) -> Option<int> {
    match first_where(hs, holds_index(heater_index)) {
        Some(i) => Some(i),
        None => first_where(hs, free_slot()),
    }
}

impl CalibrationData {
    /// Create empty calibration data: current magic and version, every
    /// slot empty, CRC 0
    pub fn new() -> (r: Self)
        ensures
            r.magic == CALIBRATION_MAGIC,
            r.version == CALIBRATION_VERSION,
            r.crc == 0,
            forall|i: int| 0 <= i < MAX_HEATERS ==> r.heaters@[i] == empty_slot(),
    {
        let slot = HeaterCalibration {
            heater_index: 0,
            valid: false,
            kp_x100: 0,
            ki_x100: 0,
            kd_x100: 0,
            ku_x100: 0,
            tu_ticks: 0,
        };
        CalibrationData {
            magic: CALIBRATION_MAGIC,
            version: CALIBRATION_VERSION,
            heaters: [slot, slot, slot, slot],
            crc: 0,
        }
    }

    /// Check if the data is valid (magic and version match)
    pub fn is_valid(&self) -> (r: bool)
        ensures
            r == (self.magic == CALIBRATION_MAGIC && self.version == CALIBRATION_VERSION),
    {
        self.magic == CALIBRATION_MAGIC && self.version == CALIBRATION_VERSION
    }

    /// Get calibration for a specific heater index: the first valid slot
    /// holding that index
    pub fn get(&self, heater_index: u8) -> (r: Option<&HeaterCalibration>)
        ensures
            r is Some <==> slot_for(self.heaters@, heater_index) is Some,
            r is Some ==> *r->0 == self.heaters@[slot_for(self.heaters@, heater_index)->0],
    {
        let ghost p = valid_for(heater_index);
        let mut i: usize = 0;
        while i < MAX_HEATERS
            invariant
                i <= MAX_HEATERS,
                p == valid_for(heater_index),
                forall|j: int| 0 <= j < i ==> !p(#[trigger] self.heaters@[j]),
            decreases MAX_HEATERS - i,
        {
            let h = &self.heaters[i];
            if h.valid && h.heater_index == heater_index {
                proof {
                    lemma_first_where_found(self.heaters@, p, i as int);
                }
                return Some(h);
            }
            i = i + 1;
        }
        proof {
            lemma_first_where_none(self.heaters@, p);
        }
        None
    }

    /// Set calibration for a heater: overwrite the slot already holding
    /// this heater index, else the first invalid slot. False when neither
    /// exists.
    pub fn set(&mut self, calibration: HeaterCalibration) -> (r: bool)
        ensures
            r == set_target(old(self).heaters@, calibration.heater_index) is Some,
            r ==> final(self).heaters@ == old(self).heaters@.update(
                set_target(old(self).heaters@, calibration.heater_index)->0,
                calibration,
            ),
            !r ==> final(self).heaters@ == old(self).heaters@,
            final(self).magic == old(self).magic,
            final(self).version == old(self).version,
            final(self).crc == old(self).crc,
    {
        let ghost p = holds_index(calibration.heater_index);
        let ghost q = free_slot();
        let mut i: usize = 0;
        while i < MAX_HEATERS
            invariant
                i <= MAX_HEATERS,
                *self == *old(self),
                p == holds_index(calibration.heater_index),
                forall|j: int| 0 <= j < i ==> !p(#[trigger] self.heaters@[j]),
            decreases MAX_HEATERS - i,
        {
            if self.heaters[i].heater_index == calibration.heater_index {
                proof {
                    lemma_first_where_found(self.heaters@, p, i as int);
                }
                self.heaters[i] = calibration;
                return true;
            }
            i = i + 1;
        }
        proof {
            lemma_first_where_none(self.heaters@, p);
        }
        let mut i: usize = 0;
        while i < MAX_HEATERS
            invariant
                i <= MAX_HEATERS,
                *self == *old(self),
                p == holds_index(calibration.heater_index),
                q == free_slot(),
                first_where(self.heaters@, p) is None,
                forall|j: int| 0 <= j < i ==> !q(#[trigger] self.heaters@[j]),
            decreases MAX_HEATERS - i,
        {
            if !self.heaters[i].valid {
                proof {
                    lemma_first_where_found(self.heaters@, q, i as int);
                }
                self.heaters[i] = calibration;
                return true;
            }
            i = i + 1;
        }
        proof {
            lemma_first_where_none(self.heaters@, q);
        }
        false
    }

    /// Clear every slot holding `heater_index`
    pub fn clear_heater(&mut self, heater_index: u8)
        ensures
            final(self).heaters@.len() == old(self).heaters@.len(),
            forall|i: int|
                0 <= i < MAX_HEATERS ==> #[trigger] final(self).heaters@[i] == if old(
                    self,
                ).heaters@[i].heater_index == heater_index {
                    HeaterCalibration { heater_index, ..empty_slot() }
                } else {
                    old(self).heaters@[i]
                },
            final(self).magic == old(self).magic,
            final(self).version == old(self).version,
            final(self).crc == old(self).crc,
    {
        let mut i: usize = 0;
        while i < MAX_HEATERS
            invariant
                i <= MAX_HEATERS,
                self.magic == old(self).magic,
                self.version == old(self).version,
                self.crc == old(self).crc,
                forall|j: int|
                    0 <= j < MAX_HEATERS ==> #[trigger] self.heaters@[j] == if j < i
                        && old(self).heaters@[j].heater_index == heater_index {
                        HeaterCalibration { heater_index, ..empty_slot() }
                    } else {
                        old(self).heaters@[j]
                    },
            decreases MAX_HEATERS - i,
        {
            if self.heaters[i].heater_index == heater_index {
                let mut slot = self.heaters[i];
                slot.clear();
                self.heaters[i] = slot;
            }
            i = i + 1;
        }
    }

    /// Calculate the CRC-32 over magic, version and every heater slot
    pub fn calculate_crc(&self) -> (r: u32)
        ensures
            r == crc_of(*self),
    {
        let mut crc: u32 = 0xFFFF_FFFF;
        let m = le32_bytes(self.magic);
        crc = crc32_update(crc, &m);
        let v = [self.version];
        crc = crc32_update(crc, &v);
        proof {
            lemma_crc_bytes_append(0xFFFF_FFFFu32, le32(self.magic), seq![self.version]);
            assert(v@ =~= seq![self.version]);
        }
        let ghost head = le32(self.magic) + seq![self.version];
        let mut i: usize = 0;
        while i < MAX_HEATERS
            invariant
                i <= MAX_HEATERS,
                head == le32(self.magic) + seq![self.version],
                crc == crc_bytes(0xFFFF_FFFFu32, head + slots_bytes(self.heaters@, i as nat)),
            decreases MAX_HEATERS - i,
        {
            let h = self.heaters[i];
            let ghost before = head + slots_bytes(self.heaters@, i as nat);
            let b0 = [h.heater_index, if h.valid { 1u8 } else { 0u8 }];
            crc = crc32_update(crc, &b0);
            let b1 = le16_bytes(h.kp_x100 as u16);
            crc = crc32_update(crc, &b1);
            let b2 = le16_bytes(h.ki_x100 as u16);
            crc = crc32_update(crc, &b2);
            let b3 = le16_bytes(h.kd_x100 as u16);
            crc = crc32_update(crc, &b3);
            let b4 = le16_bytes(h.ku_x100 as u16);
            crc = crc32_update(crc, &b4);
            let b5 = le16_bytes(h.tu_ticks);
            crc = crc32_update(crc, &b5);
            proof {
                let s0 = b0@;
                assert(s0 =~= seq![h.heater_index, if h.valid { 1u8 } else { 0u8 }]);
                lemma_crc_bytes_append(0xFFFF_FFFFu32, before, s0);
                lemma_crc_bytes_append(0xFFFF_FFFFu32, before + s0, b1@);
                lemma_crc_bytes_append(0xFFFF_FFFFu32, before + s0 + b1@, b2@);
                lemma_crc_bytes_append(0xFFFF_FFFFu32, before + s0 + b1@ + b2@, b3@);
                lemma_crc_bytes_append(0xFFFF_FFFFu32, before + s0 + b1@ + b2@ + b3@, b4@);
                lemma_crc_bytes_append(0xFFFF_FFFFu32, before + s0 + b1@ + b2@ + b3@ + b4@, b5@);
                assert(before + s0 + b1@ + b2@ + b3@ + b4@ + b5@ =~= head + slots_bytes(
                    self.heaters@,
                    (i + 1) as nat,
                ));
            }
            i = i + 1;
        }
        proof {
            assert(head + slots_bytes(self.heaters@, MAX_HEATERS as nat) =~= covered_bytes(*self));
        }
        !crc
    }

    /// Update the CRC field
    pub fn update_crc(&mut self)
        ensures
            final(self).crc == crc_of(*old(self)),
            final(self).magic == old(self).magic,
            final(self).version == old(self).version,
            final(self).heaters == old(self).heaters,
    {
        self.crc = self.calculate_crc();
    }

    /// Verify the CRC is correct
    pub fn verify_crc(&self) -> (r: bool)
        ensures
            r == (self.crc == crc_of(*self)),
    {
        self.crc == self.calculate_crc()
    }
}

impl Default for CalibrationData {
    fn default() -> (r: Self)
        ensures
            r.magic == CALIBRATION_MAGIC,
            r.version == CALIBRATION_VERSION,
            r.crc == 0,
            forall|i: int| 0 <= i < MAX_HEATERS ==> r.heaters@[i] == empty_slot(),
    {
        Self::new()
    }
}

/// The CRC covers everything but itself: data whose CRC was just updated
/// verifies, whatever the CRC held before.
pub proof fn lemma_update_then_verify(d: CalibrationData, e: CalibrationData)
    requires
        e.crc == crc_of(d),
        e.magic == d.magic,
        e.version == d.version,
        e.heaters == d.heaters,
    ensures
        e.crc == crc_of(e),
{
    assert(covered_bytes(e) == covered_bytes(d));
}

/// Every slot covers 12 bytes.
proof fn lemma_slots_bytes_len(hs: Seq<HeaterCalibration>, n: nat)
    ensures
        slots_bytes(hs, n).len() == 12 * n,
    decreases n,
{
    if n > 0 {
        lemma_slots_bytes_len(hs, (n - 1) as nat);
    }
}

/// The CRC covers 53 bytes.
proof fn lemma_covered_len(d: CalibrationData)
    ensures
        covered_bytes(d).len() == 53,
{
    lemma_slots_bytes_len(d.heaters@, MAX_HEATERS as nat);
}

/// Slots that differ only in slot `i` cover the same bytes outside that
/// slot's 12, and their bytes inside it are those of slot `i`.
proof fn lemma_slots_bytes_one_slot(hs: Seq<HeaterCalibration>, gs: Seq<HeaterCalibration>, i: int, n: nat)
    requires
        0 <= i,
        n <= hs.len(),
        hs.len() == gs.len(),
        forall|j: int| 0 <= j < hs.len() && j != i ==> hs[j] == gs[j],
    ensures
        forall|j: int|
            0 <= j < 12 * n && !(12 * i <= j < 12 * i + 12) ==> #[trigger] slots_bytes(gs, n)[j]
                == slots_bytes(hs, n)[j],
        i < n ==> forall|j: int|
            0 <= j < 12 ==> #[trigger] slots_bytes(gs, n)[12 * i + j] == slot_bytes(gs[i])[j]
                && slots_bytes(hs, n)[12 * i + j] == slot_bytes(hs[i])[j],
    decreases n,
{
    lemma_slots_bytes_len(hs, n);
    lemma_slots_bytes_len(gs, n);
    if n > 0 {
        let m = (n - 1) as nat;
        lemma_slots_bytes_one_slot(hs, gs, i, m);
        lemma_slots_bytes_len(hs, m);
        lemma_slots_bytes_len(gs, m);
        if i != m {
            assert(hs[m as int] == gs[m as int]);
        }
    }
}

/// The CRC catches every change to the covered bytes confined to four
/// consecutive bytes, and so a change to any single field (none is longer
/// than four bytes): data that verified no longer verifies.
pub proof fn lemma_window_change_fails_verify(d: CalibrationData, e: CalibrationData, k: int)
    requires
        d.crc == crc_of(d),
        e.crc == d.crc,
        0 <= k <= 49,
        forall|j: int|
            0 <= j < 53 && !(k <= j < k + 4) ==> #[trigger] covered_bytes(e)[j] == covered_bytes(d)[j],
        covered_bytes(e) != covered_bytes(d),
    ensures
        e.crc != crc_of(e),
{
    lemma_covered_len(d);
    lemma_covered_len(e);
    lemma_crc_detects_window(0xFFFF_FFFFu32, covered_bytes(d), covered_bytes(e), k);
    let x = crc_bytes(0xFFFF_FFFFu32, covered_bytes(d));
    let y = crc_bytes(0xFFFF_FFFFu32, covered_bytes(e));
    assert(x != y ==> !x != !y) by (bit_vector);
}

/// Changing the magic number alone makes data that verified fail.
pub proof fn lemma_magic_change_fails_verify(d: CalibrationData, e: CalibrationData)
    requires
        d.crc == crc_of(d),
        e.crc == d.crc,
        e.magic != d.magic,
        e.version == d.version,
        e.heaters == d.heaters,
    ensures
        e.crc != crc_of(e),
{
    let (m, n) = (d.magic, e.magic);
    assert(((m & 0xff) as u8) != ((n & 0xff) as u8) || (((m >> 8) & 0xff) as u8) != (((n >> 8)
        & 0xff) as u8) || (((m >> 16) & 0xff) as u8) != (((n >> 16) & 0xff) as u8) || (((m >> 24)
        & 0xff) as u8) != (((n >> 24) & 0xff) as u8)) by (bit_vector)
        requires
            m != n,
    ;
    lemma_slots_bytes_len(d.heaters@, MAX_HEATERS as nat);
    let rest = seq![d.version] + slots_bytes(d.heaters@, MAX_HEATERS as nat);
    assert(covered_bytes(d) =~= le32(m) + rest);
    assert(covered_bytes(e) =~= le32(n) + rest);
    assert forall|j: int| 0 <= j < 53 && !(0 <= j < 4) implies #[trigger] covered_bytes(e)[j]
        == covered_bytes(d)[j] by {
        assert(covered_bytes(e)[j] == rest[j - 4]);
        assert(covered_bytes(d)[j] == rest[j - 4]);
    }
    if covered_bytes(e) =~= covered_bytes(d) {
        assert(covered_bytes(e)[0] == covered_bytes(d)[0]);
        assert(covered_bytes(e)[1] == covered_bytes(d)[1]);
        assert(covered_bytes(e)[2] == covered_bytes(d)[2]);
        assert(covered_bytes(e)[3] == covered_bytes(d)[3]);
    }
    lemma_window_change_fails_verify(d, e, 0);
}

/// Changing the version alone makes data that verified fail.
pub proof fn lemma_version_change_fails_verify(d: CalibrationData, e: CalibrationData)
    requires
        d.crc == crc_of(d),
        e.crc == d.crc,
        e.magic == d.magic,
        e.version != d.version,
        e.heaters == d.heaters,
    ensures
        e.crc != crc_of(e),
{
    lemma_slots_bytes_len(d.heaters@, MAX_HEATERS as nat);
    let slots = slots_bytes(d.heaters@, MAX_HEATERS as nat);
    assert(covered_bytes(d) =~= le32(d.magic) + seq![d.version] + slots);
    assert(covered_bytes(e) =~= le32(d.magic) + seq![e.version] + slots);
    assert(covered_bytes(e)[4] != covered_bytes(d)[4]);
    assert forall|j: int| 0 <= j < 53 && !(1 <= j < 5) implies #[trigger] covered_bytes(e)[j]
        == covered_bytes(d)[j] by {
        if j >= 5 {
            assert(covered_bytes(e)[j] == slots[j - 5]);
            assert(covered_bytes(d)[j] == slots[j - 5]);
        }
    }
    lemma_window_change_fails_verify(d, e, 1);
}

/// Changing one heater slot within four consecutive bytes of its 12 (as
/// any one of its fields lies, at offset 0, 2, 4, 6 or 8) makes data that
/// verified fail.
pub proof fn lemma_slot_change_fails_verify(d: CalibrationData, e: CalibrationData, i: int, f: int)
    requires
        d.crc == crc_of(d),
        e.crc == d.crc,
        e.magic == d.magic,
        e.version == d.version,
        0 <= i < MAX_HEATERS,
        0 <= f <= 8,
        forall|j: int| 0 <= j < MAX_HEATERS && j != i ==> e.heaters@[j] == d.heaters@[j],
        forall|j: int|
            0 <= j < 12 && !(f <= j < f + 4) ==> #[trigger] slot_bytes(e.heaters@[i])[j]
                == slot_bytes(d.heaters@[i])[j],
        slot_bytes(e.heaters@[i]) != slot_bytes(d.heaters@[i]),
    ensures
        e.crc != crc_of(e),
{
    let hs = d.heaters@;
    let gs = e.heaters@;
    lemma_slots_bytes_one_slot(hs, gs, i, MAX_HEATERS as nat);
    lemma_covered_len(d);
    lemma_covered_len(e);
    let head = le32(d.magic) + seq![d.version];
    assert(covered_bytes(d) =~= head + slots_bytes(hs, MAX_HEATERS as nat));
    assert(covered_bytes(e) =~= head + slots_bytes(gs, MAX_HEATERS as nat));
    let k = 5 + 12 * i + f;
    assert forall|j: int| 0 <= j < 53 && !(k <= j < k + 4) implies #[trigger] covered_bytes(e)[j]
        == covered_bytes(d)[j] by {
        if j >= 5 {
            let q = j - 5;
            if 12 * i <= q < 12 * i + 12 {
                assert(slots_bytes(gs, MAX_HEATERS as nat)[12 * i + (q - 12 * i)] == slot_bytes(gs[i])[q - 12 * i]);
                assert(slots_bytes(hs, MAX_HEATERS as nat)[12 * i + (q - 12 * i)] == slot_bytes(hs[i])[q - 12 * i]);
            } else {
                assert(slots_bytes(gs, MAX_HEATERS as nat)[q] == slots_bytes(hs, MAX_HEATERS as nat)[q]);
            }
        }
    }
    let w = choose|w: int| 0 <= w < 12 && slot_bytes(gs[i])[w] != slot_bytes(hs[i])[w];
    assert(exists|w: int| 0 <= w < 12 && slot_bytes(gs[i])[w] != slot_bytes(hs[i])[w]) by {
        if forall|w: int| 0 <= w < 12 ==> slot_bytes(gs[i])[w] == slot_bytes(hs[i])[w] {
            assert(slot_bytes(gs[i]) =~= slot_bytes(hs[i]));
        }
    }
    assert(slots_bytes(gs, MAX_HEATERS as nat)[12 * i + w] == slot_bytes(gs[i])[w]);
    assert(slots_bytes(hs, MAX_HEATERS as nat)[12 * i + w] == slot_bytes(hs[i])[w]);
    assert(covered_bytes(e)[5 + 12 * i + w] != covered_bytes(d)[5 + 12 * i + w]);
    lemma_window_change_fails_verify(d, e, k);
}

/// Slot `g` is slot `h` with exactly one field changed, the field at byte
/// offset `f` of the slot's 12 covered bytes (index 0, valid flag 1, gains
/// 2, 4, 6 and 8, period 10).
pub open spec fn one_slot_field_changed(h: HeaterCalibration, g: HeaterCalibration, f: int) -> bool {
    ||| f == 0 && g.heater_index != h.heater_index && g == HeaterCalibration {
        heater_index: g.heater_index,
        ..h
    }
    ||| f == 1 && g.valid != h.valid && g == HeaterCalibration { valid: g.valid, ..h }
    ||| f == 2 && g.kp_x100 != h.kp_x100 && g == HeaterCalibration { kp_x100: g.kp_x100, ..h }
    ||| f == 4 && g.ki_x100 != h.ki_x100 && g == HeaterCalibration { ki_x100: g.ki_x100, ..h }
    ||| f == 6 && g.kd_x100 != h.kd_x100 && g == HeaterCalibration { kd_x100: g.kd_x100, ..h }
    ||| f == 8 && g.ku_x100 != h.ku_x100 && g == HeaterCalibration { ku_x100: g.ku_x100, ..h }
    ||| f == 10 && g.tu_ticks != h.tu_ticks && g == HeaterCalibration { tu_ticks: g.tu_ticks, ..h }
}

/// Different 16-bit values have different little-endian bytes.
proof fn lemma_le16_differ(a: u16, b: u16)
    requires
        a != b,
    ensures
        le16(a)[0] != le16(b)[0] || le16(a)[1] != le16(b)[1],
{
    assert(((a & 0xff) as u8) != ((b & 0xff) as u8) || (((a >> 8) & 0xff) as u8) != (((b >> 8)
        & 0xff) as u8)) by (bit_vector)
        requires
            a != b,
    ;
}

/// Different signed 16-bit values have different little-endian bytes.
proof fn lemma_le16_i16_differ(a: i16, b: i16)
    requires
        a != b,
    ensures
        le16(a as u16)[0] != le16(b as u16)[0] || le16(a as u16)[1] != le16(b as u16)[1],
{
    assert(a as u16 != b as u16) by (bit_vector)
        requires
            a != b,
    ;
    lemma_le16_differ(a as u16, b as u16);
}

/// Changing one field of a slot changes its covered bytes, and only those
/// at the field's offset (two bytes at most).
proof fn lemma_one_slot_field_bytes(h: HeaterCalibration, g: HeaterCalibration, f: int)
    requires
        one_slot_field_changed(h, g, f),
    ensures
        slot_bytes(g) != slot_bytes(h),
        forall|j: int|
            0 <= j < 12 && !(f <= j < f + 2) ==> #[trigger] slot_bytes(g)[j] == slot_bytes(h)[j],
{
    if f == 2 {
        lemma_le16_i16_differ(h.kp_x100, g.kp_x100);
    } else if f == 4 {
        lemma_le16_i16_differ(h.ki_x100, g.ki_x100);
    } else if f == 6 {
        lemma_le16_i16_differ(h.kd_x100, g.kd_x100);
    } else if f == 8 {
        lemma_le16_i16_differ(h.ku_x100, g.ku_x100);
    } else if f == 10 {
        lemma_le16_differ(h.tu_ticks, g.tu_ticks);
    }
    let hb = slot_bytes(h);
    let gb = slot_bytes(g);
    assert(hb.len() == 12 && gb.len() == 12);
    if gb =~= hb {
        assert(gb[0] == hb[0] && gb[1] == hb[1] && gb[2] == hb[2] && gb[3] == hb[3]);
        assert(gb[4] == hb[4] && gb[5] == hb[5] && gb[6] == hb[6] && gb[7] == hb[7]);
        assert(gb[8] == hb[8] && gb[9] == hb[9] && gb[10] == hb[10] && gb[11] == hb[11]);
    }
}

/// Changing any one field of one heater slot makes data that verified
/// fail.
pub proof fn lemma_slot_field_change_fails_verify(d: CalibrationData, e: CalibrationData, i: int, f: int)
    requires
        d.crc == crc_of(d),
        e.crc == d.crc,
        e.magic == d.magic,
        e.version == d.version,
        0 <= i < MAX_HEATERS,
        forall|j: int| 0 <= j < MAX_HEATERS && j != i ==> e.heaters@[j] == d.heaters@[j],
        one_slot_field_changed(d.heaters@[i], e.heaters@[i], f),
    ensures
        e.crc != crc_of(e),
{
    lemma_one_slot_field_bytes(d.heaters@[i], e.heaters@[i], f);
    let w = if f < 8 { f } else { 8 };
    lemma_slot_change_fails_verify(d, e, i, w);
}

/// After a successful `set` of a valid calibration, `get` for its heater
/// index returns exactly that calibration.
pub proof fn lemma_set_then_get(hs: Seq<HeaterCalibration>, c: HeaterCalibration)
    requires
        c.valid,
        set_target(hs, c.heater_index) is Some,
    ensures
        ({
            let t = set_target(hs, c.heater_index)->0;
            let after = hs.update(t, c);
            slot_for(after, c.heater_index) == Some(t)
        }),
{
    let p = holds_index(c.heater_index);
    let q = free_slot();
    let pv = valid_for(c.heater_index);
    let t = set_target(hs, c.heater_index)->0;
    let after = hs.update(t, c);
    match first_where(hs, p) {
        Some(i) => {
            let w = choose|k: int| is_first_where(hs, p, k);
            assert(is_first_where(hs, p, w));
            assert(is_first_where(after, pv, t)) by {
                assert forall|j: int| 0 <= j < t implies !pv(#[trigger] after[j]) by {
                    assert(!p(hs[j]));
                }
            }
            lemma_first_where_found(after, pv, t);
        },
        None => {
            let w = choose|k: int| is_first_where(hs, q, k);
            assert(is_first_where(hs, q, w));
            assert(is_first_where(after, pv, t)) by {
                assert forall|j: int| 0 <= j < t implies !pv(#[trigger] after[j]) by {
                    if pv(after[j]) {
                        assert(p(hs[j]));
                        assert(exists|k: int| is_first_where(hs, p, k)) by {
                            let m = first_index_with(hs, p, j);
                        }
                    }
                }
            }
            lemma_first_where_found(after, pv, t);
        },
    }
}

/// Some element satisfies `p` at or before `j`, so there is a first one.
proof fn first_index_with(s: Seq<HeaterCalibration>, p: spec_fn(HeaterCalibration) -> bool, j: int) -> (m: int)
    requires
        0 <= j < s.len(),
        p(s[j]),
    ensures
        is_first_where(s, p, m),
    decreases j,
{
    if exists|k: int| 0 <= k < j && p(#[trigger] s[k]) {
        let k = choose|k: int| 0 <= k < j && p(#[trigger] s[k]);
        first_index_with(s, p, k)
    } else {
        j
    }
}

/// After `clear_heater`, no valid slot holds that heater index.
pub proof fn lemma_clear_then_get(hs: Seq<HeaterCalibration>, after: Seq<HeaterCalibration>, heater_index: u8)
    requires
        hs.len() == after.len(),
        forall|i: int|
            0 <= i < hs.len() ==> #[trigger] after[i] == if hs[i].heater_index == heater_index {
                HeaterCalibration { heater_index, ..empty_slot() }
            } else {
                hs[i]
            },
    ensures
        slot_for(after, heater_index) is None,
{
    let pv = valid_for(heater_index);
    assert forall|j: int| 0 <= j < after.len() implies !pv(#[trigger] after[j]) by {
        assert(after[j] == if hs[j].heater_index == heater_index {
            HeaterCalibration { heater_index, ..empty_slot() }
        } else {
            hs[j]
        });
    }
    lemma_first_where_none(after, pv);
}

} // verus!
