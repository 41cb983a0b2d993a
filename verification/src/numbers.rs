//! Saturating arithmetic and clamping on machine integers.
use vstd::prelude::*;

verus! {

/// The smaller of two numbers.
pub open spec fn min_of(a: int, b: int) -> int {
    if a <= b {
        a
    } else {
        b
    }
}

/// The larger of two numbers.
pub open spec fn max_of(a: int, b: int) -> int {
    if a >= b {
        a
    } else {
        b
    }
}

/// `value` moved into the range from `low` to `high`.
pub open spec fn clamp_of(value: int, low: int, high: int) -> int {
    max_of(low, min_of(value, high))
}

/// `value` cut off at the largest `usize`.
pub open spec fn usize_cap(value: int) -> int {
    min_of(value, usize::MAX as int)
}

/// `value` cut off at the largest `u64`.
pub open spec fn u64_cap(value: int) -> int {
    min_of(value, u64::MAX as int)
}

/// `value` cut off at the largest `u32`.
pub open spec fn u32_cap(value: int) -> int {
    min_of(value, u32::MAX as int)
}

/// `a - b`, or 0 where that is negative.
pub open spec fn monus(a: int, b: int) -> int {
    if a >= b {
        a - b
    } else {
        0
    }
}

pub fn max_u32(a: u32, b: u32) -> (r: u32)
    ensures
        r == max_of(a as int, b as int),
{
    if a >= b {
        a
    } else {
        b
    }
}

pub fn min_u32(a: u32, b: u32) -> (r: u32)
    ensures
        r == min_of(a as int, b as int),
{
    if a <= b {
        a
    } else {
        b
    }
}

pub fn max_u64(a: u64, b: u64) -> (r: u64)
    ensures
        r == max_of(a as int, b as int),
{
    if a >= b {
        a
    } else {
        b
    }
}

pub fn min_u64(a: u64, b: u64) -> (r: u64)
    ensures
        r == min_of(a as int, b as int),
{
    if a <= b {
        a
    } else {
        b
    }
}

pub fn max_usize(a: usize, b: usize) -> (r: usize)
    ensures
        r == max_of(a as int, b as int),
{
    if a >= b {
        a
    } else {
        b
    }
}

pub fn min_usize(a: usize, b: usize) -> (r: usize)
    ensures
        r == min_of(a as int, b as int),
{
    if a <= b {
        a
    } else {
        b
    }
}

/// `value` moved into the range from `low` to `high`.
pub fn clamp_u32(value: u32, low: u32, high: u32) -> (r: u32)
    requires
        low <= high,
    ensures
        r == clamp_of(value as int, low as int, high as int),
{
    max_u32(low, min_u32(value, high))
}

/// `a * b`, cut off at the largest `u32`.
pub fn saturating_mul_u32(a: u32, b: u32) -> (r: u32)
    ensures
        r == u32_cap(a * b),
{
    assert(0 <= a * b <= u32::MAX * u32::MAX) by (nonlinear_arith)
        requires
            0 <= a <= u32::MAX,
            0 <= b <= u32::MAX,
    ;
    let product: u64 = (a as u64) * (b as u64);
    if product > u32::MAX as u64 {
        u32::MAX
    } else {
        product as u32
    }
}

/// `a * b`, cut off at the largest `usize`.
pub fn saturating_mul_usize(a: usize, b: usize) -> (r: usize)
    ensures
        r == usize_cap(a * b),
{
    match a.checked_mul(b) {
        Some(product) => product,
        None => usize::MAX,
    }
}

/// The smaller and the larger of two numbers are those two, a number moved into a range is in
/// it, a cap leaves what is below it, and a difference is never negative.
pub proof fn bounds_are_kept(a: int, b: int, value: int)
    ensures
        min_of(a, b) <= a && min_of(a, b) <= b,
        max_of(a, b) >= a && max_of(a, b) >= b,
        min_of(a, b) + max_of(a, b) == a + b,
        a <= b ==> a <= clamp_of(value, a, b) <= b,
        a <= value <= b ==> clamp_of(value, a, b) == value,
        value <= usize::MAX ==> usize_cap(value) == value,
        value > usize::MAX ==> usize_cap(value) == usize::MAX,
        value <= u64::MAX ==> u64_cap(value) == value,
        value > u64::MAX ==> u64_cap(value) == u64::MAX,
        value <= u32::MAX ==> u32_cap(value) == value,
        value > u32::MAX ==> u32_cap(value) == u32::MAX,
        a >= b ==> monus(a, b) + b == a,
        a <= b ==> monus(a, b) == 0,
{
}

} // verus!
