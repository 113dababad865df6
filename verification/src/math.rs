//! Arithmetic facts shared by the fixed-point code.

use vstd::prelude::*;

verus! {

/// Rust's integer division, which rounds toward zero.
pub open spec fn div_toward_zero(a: int, b: int) -> int {
    if a >= 0 {
        if b > 0 { a / b } else { -(a / (-b)) }
    } else {
        if b > 0 { -((-a) / b) } else { (-a) / (-b) }
    }
}

/// Rust's integer remainder, whose sign follows the dividend.
pub open spec fn rem_toward_zero(a: int, b: int) -> int {
    a - b * div_toward_zero(a, b)
}

/// `a - b` as the release build computes it on `i16`: wrapping on overflow.
pub open spec fn wsub16(a: i16, b: i16) -> i16 {
    vstd::wrapping::i16_specs::wrapping_sub(a, b)
}

/// `a + b` as the release build computes it on `i16`: wrapping on overflow.
pub open spec fn wadd16(a: i16, b: i16) -> i16 {
    vstd::wrapping::i16_specs::wrapping_add(a, b)
}

/// `a * b` as the release build computes it on `i16`: wrapping on overflow.
pub open spec fn wmul16(a: i16, b: i16) -> i16 {
    vstd::wrapping::i16_specs::wrapping_mul(a, b)
}

/// `x.abs()` as the release build computes it on `i16`: `i16::MIN` has no
/// absolute value in `i16` and stays as it is.
pub open spec fn wabs16(x: i16) -> i16 {
    if x == i16::MIN {
        x
    } else if x < 0 {
        (-x) as i16
    } else {
        x
    }
}

/// Absolute value of an `i16`, wrapping at `i16::MIN` as the release build
/// does.
pub fn wrapping_abs_i16(x: i16) -> (r: i16)
    ensures
        r == wabs16(x),
{
    if x == i16::MIN {
        x
    } else if x < 0 {
        -x
    } else {
        x
    }
}

} // verus!
