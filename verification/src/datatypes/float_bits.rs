//! Comparison of floating-point numbers that are held as IEEE 754 bit
//! patterns in unsigned integers.

use std::cmp::Ordering;
use vstd::prelude::*;

verus! {

/// The pattern without its sign bit.
pub open spec fn float32_magnitude(bits: u32) -> int {
    bits as int % 0x8000_0000
}

/// Whether the sign bit is set.
pub open spec fn float32_negative(bits: u32) -> bool {
    bits >= 0x8000_0000u32
}

/// Whether the pattern is not a number: all exponent bits set and a fraction
/// that is not zero.
pub open spec fn float32_is_nan(bits: u32) -> bool {
    float32_magnitude(bits) > 0x7f80_0000
}

/// An integer that orders the patterns that are numbers as the numbers are
/// ordered. Both zeros have the rank 0.
pub open spec fn float32_rank(bits: u32) -> int {
    if float32_negative(bits) {
        -float32_magnitude(bits)
    } else {
        float32_magnitude(bits)
    }
}

/// The pattern without its sign bit.
pub open spec fn float64_magnitude(bits: u64) -> int {
    bits as int % 0x8000_0000_0000_0000
}

/// Whether the sign bit is set.
pub open spec fn float64_negative(bits: u64) -> bool {
    bits >= 0x8000_0000_0000_0000u64
}

/// Whether the pattern is not a number.
pub open spec fn float64_is_nan(bits: u64) -> bool {
    float64_magnitude(bits) > 0x7ff0_0000_0000_0000
}

/// An integer that orders the patterns that are numbers as the numbers are
/// ordered. Both zeros have the rank 0.
pub open spec fn float64_rank(bits: u64) -> int {
    if float64_negative(bits) {
        -float64_magnitude(bits)
    } else {
        float64_magnitude(bits)
    }
}

/// Equality of two numbers: none of them is not-a-number, and they have the
/// same rank.
pub open spec fn float32_equal(a: u32, b: u32) -> bool {
    !float32_is_nan(a) && !float32_is_nan(b) && float32_rank(a) == float32_rank(b)
}

/// Equality of two numbers: none of them is not-a-number, and they have the
/// same rank.
pub open spec fn float64_equal(a: u64, b: u64) -> bool {
    !float64_is_nan(a) && !float64_is_nan(b) && float64_rank(a) == float64_rank(b)
}

/// The order of two values of which it is known whether the first is less
/// than, or equal to, the second.
pub open spec fn order_of(less: bool, equal: bool) -> Ordering {
    if less {
        Ordering::Less
    } else if equal {
        Ordering::Equal
    } else {
        Ordering::Greater
    }
}

/// The order of two numbers; there is none if one of them is not-a-number.
pub open spec fn float32_order(a: u32, b: u32) -> Option<Ordering> {
    if float32_is_nan(a) || float32_is_nan(b) {
        None
    } else {
        Some(order_of(float32_rank(a) < float32_rank(b), float32_rank(a) == float32_rank(b)))
    }
}

/// The order of two numbers; there is none if one of them is not-a-number.
pub open spec fn float64_order(a: u64, b: u64) -> Option<Ordering> {
    if float64_is_nan(a) || float64_is_nan(b) {
        None
    } else {
        Some(order_of(float64_rank(a) < float64_rank(b), float64_rank(a) == float64_rank(b)))
    }
}

/// Computes [`order_of`].
pub fn make_order(less: bool, equal: bool) -> (r: Ordering)
    ensures
        r == order_of(less, equal),
{
    if less {
        Ordering::Less
    } else if equal {
        Ordering::Equal
    } else {
        Ordering::Greater
    }
}

/// Whether the first number is less than the second; none of them is
/// not-a-number.
fn float32_less(a: u32, b: u32) -> (r: bool)
    requires
        !float32_is_nan(a),
        !float32_is_nan(b),
    ensures
        r == (float32_rank(a) < float32_rank(b)),
{
    let ma = a % 0x8000_0000;
    let mb = b % 0x8000_0000;
    let na = a >= 0x8000_0000;
    let nb = b >= 0x8000_0000;
    if na && nb {
        ma > mb
    } else if na {
        ma != 0 || mb != 0
    } else if nb {
        false
    } else {
        ma < mb
    }
}

/// Whether the first number is less than the second; none of them is
/// not-a-number.
fn float64_less(a: u64, b: u64) -> (r: bool)
    requires
        !float64_is_nan(a),
        !float64_is_nan(b),
    ensures
        r == (float64_rank(a) < float64_rank(b)),
{
    let ma = a % 0x8000_0000_0000_0000;
    let mb = b % 0x8000_0000_0000_0000;
    let na = a >= 0x8000_0000_0000_0000;
    let nb = b >= 0x8000_0000_0000_0000;
    if na && nb {
        ma > mb
    } else if na {
        ma != 0 || mb != 0
    } else if nb {
        false
    } else {
        ma < mb
    }
}

/// Whether two 32-bit patterns are equal as numbers.
pub fn float32_bits_eq(a: u32, b: u32) -> (r: bool)
    ensures
        r == float32_equal(a, b),
{
    let ma = a % 0x8000_0000;
    let mb = b % 0x8000_0000;
    if ma > 0x7f80_0000 || mb > 0x7f80_0000 {
        false
    } else {
        a == b || (ma == 0 && mb == 0)
    }
}

/// Whether two 64-bit patterns are equal as numbers.
pub fn float64_bits_eq(a: u64, b: u64) -> (r: bool)
    ensures
        r == float64_equal(a, b),
{
    let ma = a % 0x8000_0000_0000_0000;
    let mb = b % 0x8000_0000_0000_0000;
    if ma > 0x7ff0_0000_0000_0000 || mb > 0x7ff0_0000_0000_0000 {
        false
    } else {
        a == b || (ma == 0 && mb == 0)
    }
}

/// The order of two 32-bit patterns as numbers.
pub fn float32_bits_order(a: u32, b: u32) -> (r: Option<Ordering>)
    ensures
        r == float32_order(a, b),
{
    if a % 0x8000_0000 > 0x7f80_0000 || b % 0x8000_0000 > 0x7f80_0000 {
        None
    } else {
        Some(make_order(float32_less(a, b), float32_bits_eq(a, b)))
    }
}

/// The order of two 64-bit patterns as numbers.
pub fn float64_bits_order(a: u64, b: u64) -> (r: Option<Ordering>)
    ensures
        r == float64_order(a, b),
{
    if a % 0x8000_0000_0000_0000 > 0x7ff0_0000_0000_0000 || b % 0x8000_0000_0000_0000
        > 0x7ff0_0000_0000_0000 {
        None
    } else {
        Some(make_order(float64_less(a, b), float64_bits_eq(a, b)))
    }
}

} // verus!
