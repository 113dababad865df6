//! Fixed-point arithmetic for PID calculations.
//!
//! Uses Q16.16 fixed-point format for coefficient storage, which avoids
//! hardware floating-point requirements on Cortex-M0.

use vstd::prelude::*;

use core::ops::{Add, Neg, Sub};

use crate::math::div_toward_zero;

verus! {

/// 1.0 in Q16.16, that is 2^16.
pub open spec fn q_one() -> int {
    65536
}

/// The value `x` truncated to an `i32`, as wrapping arithmetic gives it.
pub open spec fn wrap_i32(x: int) -> int {
    (x as i32) as int
}

/// `x` limited to the range of an `i32`.
pub open spec fn saturate_i32(x: int) -> int {
    if x > i32::MAX {
        i32::MAX as int
    } else if x < i32::MIN {
        i32::MIN as int
    } else {
        x
    }
}

/// Q16.16 fixed-point number
///
/// Range: approximately -32768.0 to +32767.99998
/// Resolution: approximately 0.000015
///
/// Used for PID coefficients and intermediate calculations. The field is
/// the raw value: the number times 2^16.
#[derive(Debug, Clone, Copy, PartialEq, Eq, Default, Structural)]
pub struct Fixed32(pub i32);

impl Fixed32 {
    /// Zero value
    pub fn zero() -> (r: Self)
        ensures
            r.0 == 0,
    {
        Fixed32(0)
    }

    /// One (1.0)
    pub fn one() -> (r: Self)
        ensures
            r.0 == q_one(),
    {
        Fixed32(65536)
    }

    /// Fractional bits (16)
    pub const FRAC_BITS: u32 = 16;

    /// Create from a whole integer
    pub fn from_int(n: i16) -> (r: Self)
        ensures
            r.0 == n * q_one(),
    {
        let x = n as i32;
        assert((x << 16u32) == x * 65536) by (bit_vector)
            requires
                -32768 <= x <= 32767,
        ;
        Fixed32(x << 16u32)
    }

    /// Create from a scaled integer (value × 100), such as a config value
    /// "1.50" stored as 150.
    ///
    /// The shift wraps for |n| ≥ 32768; within that range the result is
    /// n / 100 rounded toward zero in Q16.16.
    pub fn from_scaled_100(n: i32) -> (r: Self)
        ensures
            r.0 == div_toward_zero(wrap_i32(n * q_one()), 100),
            -32768 <= n < 32768 ==> r.0 == scaled_100_raw(n as int),
    {
        let shifted = n << 16u32;
        assert(shifted == (n * 65536) as i32) by (bit_vector)
            requires
                shifted == n << 16u32,
        ;
        assert(-32768 <= n < 32768 ==> shifted == n * 65536) by (bit_vector)
            requires
                shifted == n << 16u32,
        ;
        Fixed32(shifted / 100)
    }

    /// Create from a scaled integer (value × 1000), with higher precision
    /// for small coefficients.
    pub fn from_scaled_1000(n: i32) -> (r: Self)
        ensures
            r.0 == div_toward_zero(wrap_i32(n * q_one()), 1000),
            -32768 <= n < 32768 ==> r.0 == div_toward_zero(n * q_one(), 1000),
    {
        let shifted = n << 16u32;
        assert(shifted == (n * 65536) as i32) by (bit_vector)
            requires
                shifted == n << 16u32,
        ;
        assert(-32768 <= n < 32768 ==> shifted == n * 65536) by (bit_vector)
            requires
                shifted == n << 16u32,
        ;
        Fixed32(shifted / 1000)
    }

    /// Convert to whole integer, rounding toward negative infinity
    pub fn to_int(self) -> (r: i16)
        ensures
            r == (self.0 as int) / q_one(),
    {
        let x = self.0;
        let s = x >> 16u32;
        assert(s == x / 65536) by (bit_vector)
            requires
                s == x >> 16u32,
        ;
        assert(-32768 <= s <= 32767) by (bit_vector)
            requires
                s == x >> 16u32,
        ;
        s as i16
    }

    /// Convert to scaled integer (value × 100), rounding toward negative
    /// infinity
    pub fn to_scaled_100(self) -> (r: i32)
        requires
            i32::MIN <= self.0 * 100 <= i32::MAX,
        ensures
            r == scaled_100_of(self.0 as int),
    {
        let m = self.0 * 100;
        let s = m >> 16u32;
        assert(s == m / 65536) by (bit_vector)
            requires
                s == m >> 16u32,
        ;
        s
    }

    /// Multiply two fixed-point numbers, through a 64-bit intermediate;
    /// the product is truncated to 32 bits.
    pub fn mul(self, other: Self) -> (r: Self)
        ensures
            r.0 == wrap_i32((self.0 * other.0) / q_one()),
    {
        let a = self.0 as i64;
        let b = other.0 as i64;
        assert(-0x4000_0000_0000_0000 <= a * b <= 0x4000_0000_0000_0000) by (nonlinear_arith)
            requires
                -0x8000_0000 <= a <= 0x7fff_ffff,
                -0x8000_0000 <= b <= 0x7fff_ffff,
        ;
        let p = a * b;
        let s = p >> 16u32;
        assert(s == p / 65536) by (bit_vector)
            requires
                s == p >> 16u32,
        ;
        Fixed32(s as i32)
    }

    /// Divide by another fixed-point number; ZERO if the divisor is zero.
    pub fn div(self, other: Self) -> (r: Self)
        ensures
            other.0 == 0 ==> r.0 == 0,
            other.0 != 0 ==> r.0 == wrap_i32(div_toward_zero(self.0 * q_one(), other.0 as int)),
    {
        if other.0 == 0 {
            return Fixed32(0);
        }
        let a = self.0 as i64;
        let shifted = a << 16u32;
        assert(shifted == a * 65536) by (bit_vector)
            requires
                -2147483648 <= a <= 2147483647,
                shifted == a << 16u32,
        ;
        let d = other.0 as i64;
        // Rust's division rounds toward zero for either sign of divisor
        let q = if d > 0 {
            shifted / d
        } else {
            -(shifted / (-d))
        };
        Fixed32(q as i32)
    }

    /// Divide by an integer, rounding toward zero; ZERO if the divisor is
    /// zero.
    pub fn div_int(self, divisor: i32) -> (r: Self)
        requires
            !(self.0 == i32::MIN && divisor == -1),
        ensures
            divisor == 0 ==> r.0 == 0,
            divisor != 0 ==> r.0 == div_toward_zero(self.0 as int, divisor as int),
    {
        if divisor == 0 {
            return Fixed32(0);
        }
        let a = self.0;
        // Rust's division rounds toward zero for either sign of divisor
        let q = if divisor > 0 {
            a / divisor
        } else if divisor == i32::MIN {
            if a == i32::MIN { 1 } else { 0 }
        } else if divisor == -1 {
            -a
        } else {
            let d = -divisor;
            let q = a / d;
            assert(-0x4000_0000 <= div_toward_zero(a as int, d as int) <= 0x4000_0000) by (nonlinear_arith)
                requires
                    2 <= d,
                    -0x8000_0000 <= a <= 0x7fff_ffff,
            ;
            -q
        };
        Fixed32(q)
    }

    /// Multiply by an integer, saturating at the bounds of the raw value
    pub fn mul_int(self, n: i32) -> (r: Self)
        ensures
            r.0 == saturate_i32(self.0 * n),
    {
        let a = self.0 as i64;
        let b = n as i64;
        assert(-0x4000_0000_0000_0000 <= a * b <= 0x4000_0000_0000_0000) by (nonlinear_arith)
            requires
                -0x8000_0000 <= a <= 0x7fff_ffff,
                -0x8000_0000 <= b <= 0x7fff_ffff,
        ;
        let p = a * b;
        if p > i32::MAX as i64 {
            Fixed32(i32::MAX)
        } else if p < i32::MIN as i64 {
            Fixed32(i32::MIN)
        } else {
            Fixed32(p as i32)
        }
    }

    /// Saturating addition (clamps on overflow)
    pub fn saturating_add(self, other: Self) -> (r: Self)
        ensures
            r.0 == saturate_i32(self.0 + other.0),
    {
        let s = (self.0 as i64) + (other.0 as i64);
        if s > i32::MAX as i64 {
            Fixed32(i32::MAX)
        } else if s < i32::MIN as i64 {
            Fixed32(i32::MIN)
        } else {
            Fixed32(s as i32)
        }
    }

    /// Saturating subtraction (clamps on underflow)
    pub fn saturating_sub(self, other: Self) -> (r: Self)
        ensures
            r.0 == saturate_i32(self.0 - other.0),
    {
        let s = (self.0 as i64) - (other.0 as i64);
        if s > i32::MAX as i64 {
            Fixed32(i32::MAX)
        } else if s < i32::MIN as i64 {
            Fixed32(i32::MIN)
        } else {
            Fixed32(s as i32)
        }
    }

    /// Clamp value to a range
    pub fn clamp(self, min: Self, max: Self) -> (r: Self)
        requires
            min.0 <= max.0,
        ensures
            r.0 == if self.0 < min.0 {
                min.0
            } else if self.0 > max.0 {
                max.0
            } else {
                self.0
            },
    {
        if self.0 < min.0 {
            min
        } else if self.0 > max.0 {
            max
        } else {
            self
        }
    }

    /// Absolute value
    pub fn abs(self) -> (r: Self)
        requires
            self.0 != i32::MIN,
        ensures
            r.0 == if self.0 < 0 { -self.0 } else { self.0 as int },
    {
        if self.0 < 0 {
            Fixed32(-self.0)
        } else {
            self
        }
    }

    /// Check if value is negative
    pub fn is_negative(self) -> (r: bool)
        ensures
            r == (self.0 < 0),
    {
        self.0 < 0
    }

    /// Check if value is zero
    pub fn is_zero(self) -> (r: bool)
        ensures
            r == (self.0 == 0),
    {
        self.0 == 0
    }

    /// Get the raw i32 representation
    pub fn raw(self) -> (r: i32)
        ensures
            r == self.0,
    {
        self.0
    }

    /// Create from raw i32 representation
    pub fn from_raw(raw: i32) -> (r: Self)
        ensures
            r.0 == raw,
    {
        Fixed32(raw)
    }
}

impl vstd::std_specs::ops::AddSpecImpl for Fixed32 {
    open spec fn obeys_add_spec() -> bool {
        true
    }

    open spec fn add_req(self, rhs: Fixed32) -> bool {
        true
    }

    open spec fn add_spec(self, rhs: Fixed32) -> Fixed32 {
        Fixed32(vstd::wrapping::i32_specs::wrapping_add(self.0, rhs.0))
    }
}

impl vstd::std_specs::ops::SubSpecImpl for Fixed32 {
    open spec fn obeys_sub_spec() -> bool {
        true
    }

    open spec fn sub_req(self, rhs: Fixed32) -> bool {
        true
    }

    open spec fn sub_spec(self, rhs: Fixed32) -> Fixed32 {
        Fixed32(vstd::wrapping::i32_specs::wrapping_sub(self.0, rhs.0))
    }
}

impl vstd::std_specs::ops::NegSpecImpl for Fixed32 {
    open spec fn obeys_neg_spec() -> bool {
        true
    }

    open spec fn neg_req(self) -> bool {
        true
    }

    open spec fn neg_spec(self) -> Fixed32 {
        Fixed32(vstd::wrapping::i32_specs::wrapping_sub(0, self.0))
    }
}

impl Add for Fixed32 {
    type Output = Fixed32;

    /// Wrapping addition of the raw values
    fn add(self, other: Fixed32) -> (r: Fixed32)
        ensures
            r.0 == vstd::wrapping::i32_specs::wrapping_add(self.0, other.0),
    {
        Fixed32(self.0.wrapping_add(other.0))
    }
}

impl Sub for Fixed32 {
    type Output = Fixed32;

    /// Wrapping subtraction of the raw values
    fn sub(self, other: Fixed32) -> (r: Fixed32)
        ensures
            r.0 == vstd::wrapping::i32_specs::wrapping_sub(self.0, other.0),
    {
        Fixed32(self.0.wrapping_sub(other.0))
    }
}

impl Neg for Fixed32 {
    type Output = Fixed32;

    /// Negation of the raw value; the raw value `i32::MIN` has no
    /// negation and wraps to itself
    fn neg(self) -> (r: Fixed32)
        ensures
            r.0 == vstd::wrapping::i32_specs::wrapping_sub(0, self.0),
            self.0 != i32::MIN ==> r.0 == -self.0,
    {
        Fixed32(0i32.wrapping_sub(self.0))
    }
}

impl vstd::std_specs::convert::FromSpecImpl<i16> for Fixed32 {
    open spec fn obeys_from_spec() -> bool {
        true
    }

    open spec fn from_spec(v: i16) -> Fixed32 {
        Fixed32((v * 65536) as i32)
    }
}

impl From<i16> for Fixed32 {
    /// The whole number `n` in Q16.16
    fn from(n: i16) -> (r: Fixed32)
        ensures
            r.0 == n * q_one(),
    {
        Fixed32::from_int(n)
    }
}

/// Converting a whole number to Q16.16 and back gives the number again.
pub proof fn lemma_from_int_round_trip(n: i16)
    ensures
        (n * q_one()) / q_one() == n,
{
}

/// The raw Q16.16 value that `Fixed32::from_scaled_100` makes of `n`
/// (a value × 100) that fits an `i16`: n · 2^16 / 100, rounded toward zero.
pub open spec fn scaled_100_raw(n: int) -> int {
    div_toward_zero(n * q_one(), 100)
}

/// The value × 100 that `Fixed32::to_scaled_100` makes of a raw Q16.16
/// value: raw · 100 / 2^16, rounded toward negative infinity.
pub open spec fn scaled_100_of(raw: int) -> int {
    (raw * 100) / q_one()
}

/// The scaled round trip through Q16.16,
/// `Fixed32::from_scaled_100(n).to_scaled_100()`, for every `n` that fits an
/// `i16` (the product that `to_scaled_100` forms then fits an `i32`): it is
/// exact for n ≤ 0 and for multiples of 25, and any other positive `n`
/// comes back as n − 1 (150 gives 150, 75 gives 75, 10 gives 9).
pub proof fn lemma_scaled_100_round_trip(n: int)
    requires
        -32768 <= n < 32768,
    ensures
        i32::MIN <= scaled_100_raw(n) * 100 <= i32::MAX,
        scaled_100_of(scaled_100_raw(n)) == if n > 0 && n % 25 != 0 {
            n - 1
        } else {
            n
        },
{
    let x = div_toward_zero(n * q_one(), 100);
    if n >= 0 {
        assert(x == (n * 65536) / 100);
        assert(x * 100 <= n * 65536 < x * 100 + 100) by (nonlinear_arith)
            requires
                x == (n * 65536) / 100,
                n >= 0,
        ;
        if n % 25 == 0 {
            assert(x * 100 == n * 65536) by (nonlinear_arith)
                requires
                    x * 100 <= n * 65536 < x * 100 + 100,
                    n % 25 == 0,
            ;
            assert((x * 100) / 65536 == n) by (nonlinear_arith)
                requires
                    x * 100 == n * 65536,
            ;
        } else {
            assert(x * 100 != n * 65536) by (nonlinear_arith)
                requires
                    n % 25 != 0,
            ;
            assert((x * 100) / 65536 == n - 1) by (nonlinear_arith)
                requires
                    n * 65536 - 100 < x * 100 < n * 65536,
            ;
        }
    } else {
        assert(x == -((-n * 65536) / 100));
        assert(x * 100 - 100 < n * 65536 <= x * 100) by (nonlinear_arith)
            requires
                x == -((-n * 65536) / 100),
                n < 0,
        ;
        assert((x * 100) / 65536 == n) by (nonlinear_arith)
            requires
                n * 65536 <= x * 100 < n * 65536 + 100,
        ;
    }
}

/// Whole numbers multiply exactly: (a · 2^16)(b · 2^16) / 2^16 = ab · 2^16.
pub proof fn lemma_mul_whole_numbers(a: int, b: int)
    ensures
        ((a * q_one()) * (b * q_one())) / q_one() == (a * b) * q_one(),
{
    assert((a * 65536) * (b * 65536) == ((a * b) * 65536) * 65536) by (nonlinear_arith);
    assert((((a * b) * 65536) * 65536) / 65536 == (a * b) * 65536) by (nonlinear_arith);
}

} // verus!
