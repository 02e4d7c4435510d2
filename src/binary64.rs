//! Reading IEEE-754 binary64 numbers from their bit patterns: sign, NaN,
//! comparison with zero, equality and ordering, as `f64`'s operators decide them.
use core::cmp::Ordering;
use vstd::prelude::*;

verus! {

/// The sign bit.
pub const SIGN_BIT: u64 = 0x8000_0000_0000_0000;

/// The bit pattern of positive infinity. A pattern whose magnitude (sign bit
/// cleared) exceeds it has every exponent bit set and a nonzero fraction: a NaN.
pub const INFINITY_BITS: u64 = 0x7ff0_0000_0000_0000;

/// The bit pattern of positive zero.
pub const ZERO_BITS: u64 = 0;

/// The pattern with its sign bit cleared.
pub open spec fn magnitude(b: u64) -> u64 {
    if b >= SIGN_BIT {
        (b - SIGN_BIT) as u64
    } else {
        b
    }
}

pub open spec fn is_nan(b: u64) -> bool {
    magnitude(b) > INFINITY_BITS
}

/// For a pattern that is not a NaN, the place of its value on the number
/// line: non-NaN values compare as their ranks do (so both zeros rank 0, and
/// the infinities rank beyond every finite value).
pub open spec fn rank(b: u64) -> int {
    if b >= SIGN_BIT {
        -(magnitude(b) as int)
    } else {
        magnitude(b) as int
    }
}

/// `x >= 0.0`: false for a NaN, true for both zeros.
pub open spec fn is_non_negative(b: u64) -> bool {
    !is_nan(b) && rank(b) >= 0
}

/// `x < 0.0`.
pub open spec fn is_negative(b: u64) -> bool {
    !is_nan(b) && rank(b) < 0
}

/// `x == y`: never for a NaN, always for the two zeros.
pub open spec fn value_eq(a: u64, b: u64) -> bool {
    !is_nan(a) && !is_nan(b) && rank(a) == rank(b)
}

/// `x.partial_cmp(&y)`: unordered where either is a NaN.
pub open spec fn value_cmp(a: u64, b: u64) -> Option<Ordering> {
    if is_nan(a) || is_nan(b) {
        None
    } else if rank(a) < rank(b) {
        Some(Ordering::Less)
    } else if rank(a) > rank(b) {
        Some(Ordering::Greater)
    } else {
        Some(Ordering::Equal)
    }
}

pub fn magnitude_of(b: u64) -> (r: u64)
    ensures
        r == magnitude(b),
{
    if b >= SIGN_BIT {
        b - SIGN_BIT
    } else {
        b
    }
}

pub fn is_nan_bits(b: u64) -> (r: bool)
    ensures
        r == is_nan(b),
{
    magnitude_of(b) > INFINITY_BITS
}

/// Whether the value is `>= 0.0`.
pub fn is_non_negative_bits(b: u64) -> (r: bool)
    ensures
        r == is_non_negative(b),
{
    !is_nan_bits(b) && (b < SIGN_BIT || magnitude_of(b) == 0)
}

/// Whether the two values are `==`.
pub fn eq_bits(a: u64, b: u64) -> (r: bool)
    ensures
        r == value_eq(a, b),
{
    if is_nan_bits(a) || is_nan_bits(b) {
        false
    } else {
        a == b || (magnitude_of(a) == 0 && magnitude_of(b) == 0)
    }
}

/// How the two values compare, `None` where either is a NaN.
pub fn cmp_bits(a: u64, b: u64) -> (r: Option<Ordering>)
    ensures
        r == value_cmp(a, b),
{
    if is_nan_bits(a) || is_nan_bits(b) {
        return None;
    }
    let ma = magnitude_of(a);
    let mb = magnitude_of(b);
    let na = a >= SIGN_BIT && ma != 0;
    let nb = b >= SIGN_BIT && mb != 0;
    if na && !nb {
        Some(Ordering::Less)
    } else if !na && nb {
        Some(Ordering::Greater)
    } else if ma == mb {
        Some(Ordering::Equal)
    } else if (ma < mb) != na {
        Some(Ordering::Less)
    } else {
        Some(Ordering::Greater)
    }
}

} // verus!
