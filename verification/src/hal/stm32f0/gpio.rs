//! GPIO pin bookkeeping and pin-name parsing for STM32F0 parts.

use vstd::prelude::*;
use vstd::string::StrSliceExecFns;

verus! {

/// Whether bit `pin` of `mask` is set.
pub open spec fn mask_bit(mask: u32, pin: u8) -> bool {
    pin < 32 && (mask >> (pin as u32)) & 1u32 == 1u32
}

proof fn lemma_bit_set(a: u32, p: u32, q: u32)
    by (bit_vector)
    requires
        p < 32,
        q < 32,
    ensures
        ((a | (1u32 << p)) >> q) & 1u32 == (if q == p { 1u32 } else { (a >> q) & 1u32 }),
{
}

proof fn lemma_bit_clear(a: u32, p: u32, q: u32)
    by (bit_vector)
    requires
        p < 32,
        q < 32,
    ensures
        ((a & !(1u32 << p)) >> q) & 1u32 == (if q == p { 0u32 } else { (a >> q) & 1u32 }),
{
}

proof fn lemma_bit_test(a: u32, p: u32)
    by (bit_vector)
    requires
        p < 32,
    ensures
        (a & (1u32 << p) != 0u32) == ((a >> p) & 1u32 == 1u32),
{
}

proof fn lemma_zero_bits(q: u32)
    by (bit_vector)
    requires
        q < 32,
    ensures
        (0u32 >> q) & 1u32 == 0u32,
{
}

/// Tracks which of the (up to 32) GPIO pins are in use.
pub struct GpioAllocator {
    allocated: u32,
}

impl GpioAllocator {
    /// The set of pins currently allocated.
    pub closed spec fn pins(self) -> Set<u8> {
        Set::new(|p: u8| mask_bit(self.allocated, p))
    }

    /// An allocator with no pin in use.
    pub fn new() -> (r: Self)
        ensures
            r.pins() == Set::<u8>::empty(),
    {
        let r = GpioAllocator { allocated: 0 };
        assert forall|p: u8| !r.pins().contains(p) by {
            if p < 32 {
                lemma_zero_bits(p as u32);
            }
        }
        assert(r.pins() =~= Set::<u8>::empty());
        r
    }

    /// Allocate `pin`: fails when the pin number is 32 or more, or when the
    /// pin is already allocated.
    pub fn allocate(&mut self, pin: u8) -> (r: Result<(), ()>)
        ensures
            r is Err <==> (pin >= 32 || old(self).pins().contains(pin)),
            r is Ok ==> final(self).pins() == old(self).pins().insert(pin),
            r is Err ==> final(self).pins() == old(self).pins(),
    {
        if pin >= 32 {
            return Err(());
        }
        let mask: u32 = 1u32 << pin;
        proof {
            lemma_bit_test(self.allocated, pin as u32);
        }
        if self.allocated & mask != 0 {
            return Err(());
        }
        let ghost before = self.allocated;
        self.allocated = self.allocated | mask;
        proof {
            assert forall|q: u8| self.pins().contains(q) == old(self).pins().insert(pin).contains(q) by {
                if q < 32 {
                    lemma_bit_set(before, pin as u32, q as u32);
                }
            }
            assert(self.pins() =~= old(self).pins().insert(pin));
        }
        Ok(())
    }

    /// Release `pin`; pin numbers of 32 or more are ignored.
    pub fn release(&mut self, pin: u8)
        ensures
            final(self).pins() == old(self).pins().remove(pin),
    {
        if pin < 32 {
            let ghost before = self.allocated;
            self.allocated = self.allocated & !(1u32 << pin);
            proof {
                assert forall|q: u8| self.pins().contains(q) == old(self).pins().remove(pin).contains(q) by {
                    if q < 32 {
                        lemma_bit_clear(before, pin as u32, q as u32);
                    }
                }
                assert(self.pins() =~= old(self).pins().remove(pin));
            }
        } else {
            assert(self.pins() =~= old(self).pins().remove(pin));
        }
    }

    /// Whether `pin` is allocated.
    pub fn is_allocated(&self, pin: u8) -> (r: bool)
        ensures
            r == self.pins().contains(pin),
    {
        if pin >= 32 {
            return false;
        }
        proof {
            lemma_bit_test(self.allocated, pin as u32);
        }
        self.allocated & (1u32 << pin) != 0
    }
}

impl Default for GpioAllocator {
    fn default() -> (r: Self)
        ensures
            r.pins() == Set::<u8>::empty(),
    {
        Self::new()
    }
}

/// Allocating a free pin and then releasing it gives back the set of pins
/// the allocator started with; allocating a pin twice fails the second
/// time.
pub proof fn lemma_allocate_release_round_trip(before: Set<u8>, pin: u8)
    requires
        !before.contains(pin),
    ensures
        before.insert(pin).remove(pin) == before,
        before.insert(pin).contains(pin),
{
    assert(before.insert(pin).remove(pin) =~= before);
}

/// Unicode `White_Space`, as `char::is_whitespace` defines it.
pub open spec fn is_white_space(c: char) -> bool {
    ||| ('\u{9}' <= c && c <= '\u{d}')
    ||| c == ' '
    ||| c == '\u{85}'
    ||| c == '\u{a0}'
    ||| c == '\u{1680}'
    ||| ('\u{2000}' <= c && c <= '\u{200a}')
    ||| c == '\u{2028}'
    ||| c == '\u{2029}'
    ||| c == '\u{202f}'
    ||| c == '\u{205f}'
    ||| c == '\u{3000}'
}

fn char_is_white_space(c: char) -> (r: bool)
    ensures
        r == is_white_space(c),
{
    ('\u{9}' <= c && c <= '\u{d}') || c == ' ' || c == '\u{85}' || c == '\u{a0}' || c
        == '\u{1680}' || ('\u{2000}' <= c && c <= '\u{200a}') || c == '\u{2028}' || c
        == '\u{2029}' || c == '\u{202f}' || c == '\u{205f}' || c == '\u{3000}'
}

/// Number of white-space characters at the front of `s`.
pub open spec fn leading_ws(s: Seq<char>) -> nat
    decreases s.len(),
{
    if s.len() > 0 && is_white_space(s[0]) {
        1 + leading_ws(s.drop_first())
    } else {
        0
    }
}

/// Number of white-space characters at the back of `s`.
pub open spec fn trailing_ws(s: Seq<char>) -> nat
    decreases s.len(),
{
    if s.len() > 0 && is_white_space(s.last()) {
        1 + trailing_ws(s.drop_last())
    } else {
        0
    }
}

/// `s` with leading and trailing white space removed (`str::trim`).
pub open spec fn trim_spec(s: Seq<char>) -> Seq<char> {
    let front = s.skip(leading_ws(s) as int);
    front.take(front.len() - trailing_ws(front))
}

/// Value of a run of decimal digits.
pub open spec fn digits_value(d: Seq<char>) -> nat
    decreases d.len(),
{
    if d.len() == 0 {
        0
    } else {
        digits_value(d.drop_last()) * 10 + ((d.last() as nat) - ('0' as nat)) as nat
    }
}

pub open spec fn all_digits(d: Seq<char>) -> bool {
    forall|i: int| 0 <= i < d.len() ==> '0' <= #[trigger] d[i] && d[i] <= '9'
}

/// `str::parse::<u8>`: an optional `+`, then one or more decimal digits
/// whose value is at most 255.
pub open spec fn parse_u8_spec(s: Seq<char>) -> Option<u8> {
    let d = if s.len() > 0 && s[0] == '+' { s.drop_first() } else { s };
    if d.len() > 0 && all_digits(d) && digits_value(d) <= 255 {
        Some(digits_value(d) as u8)
    } else {
        None
    }
}

/// What `parse_pin_string` gives for the characters of its argument:
/// after trimming, an optional `!` (inverted), then `P`, a port letter
/// `A`..=`F` and a pin number of at most 15.
pub open spec fn parse_pin_spec(s: Seq<char>) -> Option<(char, u8, bool)> {
    let t = trim_spec(s);
    let inverted = t.len() > 0 && t[0] == '!';
    let r = if inverted { t.drop_first() } else { t };
    if r.len() >= 3 && r[0] == 'P' && 'A' <= r[1] && r[1] <= 'F' {
        match parse_u8_spec(r.skip(2)) {
            Some(pin) => if pin <= 15 { Some((r[1], pin, inverted)) } else { None },
            None => None,
        }
    } else {
        None
    }
}

proof fn lemma_leading_ws_bound(s: Seq<char>)
    ensures
        leading_ws(s) <= s.len(),
    decreases s.len(),
{
    if s.len() > 0 && is_white_space(s[0]) {
        lemma_leading_ws_bound(s.drop_first());
    }
}

proof fn lemma_trailing_ws_bound(s: Seq<char>)
    ensures
        trailing_ws(s) <= s.len(),
    decreases s.len(),
{
    if s.len() > 0 && is_white_space(s.last()) {
        lemma_trailing_ws_bound(s.drop_last());
    }
}

/// Counting white space from position `i` onwards.
proof fn lemma_leading_ws_step(s: Seq<char>, i: int)
    requires
        0 <= i <= s.len(),
        forall|j: int| 0 <= j < i ==> is_white_space(#[trigger] s[j]),
    ensures
        leading_ws(s) == i + leading_ws(s.skip(i)),
    decreases i,
{
    if i > 0 {
        assert(s.skip(1) =~= s.drop_first());
        assert forall|j: int| 0 <= j < i - 1 implies is_white_space(#[trigger] s.drop_first()[j]) by {
            assert(s.drop_first()[j] == s[j + 1]);
        }
        lemma_leading_ws_step(s.drop_first(), i - 1);
        assert(s.drop_first().skip(i - 1) =~= s.skip(i));
    } else {
        assert(s.skip(0) =~= s);
    }
}

proof fn lemma_trailing_ws_step(s: Seq<char>, k: int)
    requires
        0 <= k <= s.len(),
        forall|j: int| k <= j < s.len() ==> is_white_space(#[trigger] s[j]),
    ensures
        trailing_ws(s) == (s.len() - k) + trailing_ws(s.take(k)),
    decreases s.len() - k,
{
    if k < s.len() {
        assert forall|j: int| k <= j < s.drop_last().len() implies is_white_space(
            #[trigger] s.drop_last()[j],
        ) by {
            assert(s.drop_last()[j] == s[j]);
        }
        lemma_trailing_ws_step(s.drop_last(), k);
        assert(s.drop_last().take(k) =~= s.take(k));
    } else {
        assert(s.take(k) =~= s);
    }
}

proof fn lemma_digits_value_monotone(d: Seq<char>, i: int)
    requires
        0 <= i <= d.len(),
        all_digits(d),
    ensures
        digits_value(d.take(i)) <= digits_value(d),
    decreases d.len() - i,
{
    if i < d.len() {
        lemma_digits_value_monotone(d, i + 1);
        assert(d.take(i + 1).drop_last() =~= d.take(i));
        assert(d.take(i + 1).last() == d[i]);
    } else {
        assert(d.take(i) =~= d);
    }
}

/// Parse the characters of `s` from `start` to the end as `str::parse::<u8>`.
fn parse_u8_from(s: &str, start: usize) -> (r: Option<u8>)
    requires
        start <= s@.len(),
    ensures
        r == parse_u8_spec(s@.skip(start as int)),
{
    let n = s.unicode_len();
    let ghost full = s@.skip(start as int);
    let mut i: usize = start;
    if i < n && s.get_char(i) == '+' {
        i = i + 1;
    }
    let ghost d = if full.len() > 0 && full[0] == '+' { full.drop_first() } else { full };
    proof {
        assert(d =~= s@.skip(i as int));
    }
    if i >= n {
        return None;
    }
    let digits_start = i;
    let mut value: u32 = 0;
    while i < n
        invariant
            n == s@.len(),
            digits_start <= i <= n,
            d =~= s@.skip(digits_start as int),
            d.len() > 0,
            parse_u8_spec(s@.skip(start as int)) == (if all_digits(d) && digits_value(d) <= 255 {
                Some(digits_value(d) as u8)
            } else {
                None::<u8>
            }),
            value == digits_value(d.take(i - digits_start)),
            value <= 255,
            all_digits(d.take(i - digits_start)),
        decreases n - i,
    {
        let c = s.get_char(i);
        if !('0' <= c && c <= '9') {
            proof {
                assert(d[i - digits_start] == c);
            }
            return None;
        }
        let ghost k = i - digits_start;
        proof {
            assert(d.take(k + 1).drop_last() =~= d.take(k));
            assert(d.take(k + 1).last() == c);
            assert forall|j: int| 0 <= j < k + 1 implies '0' <= #[trigger] d.take(k + 1)[j]
                && d.take(k + 1)[j] <= '9' by {
                if j < k {
                    assert(d.take(k + 1)[j] == d.take(k)[j]);
                }
            }
        }
        let digit: u32 = (c as u32) - ('0' as u32);
        value = value * 10 + digit;
        i = i + 1;
        if value > 255 {
            proof {
                if all_digits(d) {
                    lemma_digits_value_monotone(d, i - digits_start);
                }
            }
            return None;
        }
    }
    proof {
        assert(d.take(i - digits_start) =~= d);
    }
    Some(value as u8)
}

/// Parse a pin name such as `PA0` or `!PB1` into its port letter, pin
/// number and whether it is inverted (a leading `!`).
pub fn parse_pin_string(s: &str) -> (r: Option<(char, u8, bool)>)
    ensures
        r == parse_pin_spec(s@),
{
    let n = s.unicode_len();
    // Trim leading and trailing white space.
    let mut lo: usize = 0;
    while lo < n && char_is_white_space(s.get_char(lo))
        invariant
            n == s@.len(),
            lo <= n,
            forall|j: int| 0 <= j < lo ==> is_white_space(#[trigger] s@[j]),
        decreases n - lo,
    {
        lo = lo + 1;
    }
    proof {
        lemma_leading_ws_step(s@, lo as int);
        if lo < n {
            assert(!is_white_space(s@.skip(lo as int)[0]));
        }
        assert(leading_ws(s@) == lo);
    }
    let ghost front = s@.skip(lo as int);
    let mut hi: usize = n;
    while hi > lo && char_is_white_space(s.get_char(hi - 1))
        invariant
            n == s@.len(),
            lo <= hi <= n,
            front =~= s@.skip(lo as int),
            forall|j: int| hi <= j < n ==> is_white_space(#[trigger] s@[j]),
        decreases hi - lo,
    {
        hi = hi - 1;
    }
    proof {
        assert forall|j: int| hi - lo <= j < front.len() implies is_white_space(#[trigger] front[j]) by {
            assert(front[j] == s@[j + lo]);
        }
        lemma_trailing_ws_step(front, hi - lo);
        if hi > lo {
            assert(front.take(hi - lo).last() == s@[hi - 1]);
        }
        assert(trailing_ws(front.take(hi - lo as int)) == 0);
        assert(trim_spec(s@) =~= s@.subrange(lo as int, hi as int));
    }
    let ghost t = s@.subrange(lo as int, hi as int);
    let mut start = lo;
    let inverted = start < hi && s.get_char(start) == '!';
    if inverted {
        start = start + 1;
    }
    let ghost r = if inverted { t.drop_first() } else { t };
    proof {
        assert(r =~= s@.subrange(start as int, hi as int));
    }
    if hi - start < 3 || s.get_char(start) != 'P' {
        return None;
    }
    let port = s.get_char(start + 1);
    if !('A' <= port && port <= 'F') {
        return None;
    }
    // The pin number runs to the end of the trimmed text.
    let body = s.substring_char(start + 2, hi);
    proof {
        assert(body@ =~= r.skip(2));
        assert(body@.skip(0) =~= body@);
    }
    match parse_u8_from(body, 0) {
        Some(pin) => {
            if pin > 15 {
                None
            } else {
                Some((port, pin, inverted))
            }
        },
        None => None,
    }
}

} // verus!
