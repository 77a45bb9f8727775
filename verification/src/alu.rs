//! Eight-bit arithmetic with the flags that the machine derives from it.

use vstd::prelude::*;

verus! {

/// Eight-bit addition.
pub open spec fn sum_of(a: u8, b: u8) -> u8 {
    ((a + b) % 256) as u8
}

/// Eight-bit subtraction.
pub open spec fn difference_of(a: u8, b: u8) -> u8 {
    ((a - b) % 256) as u8
}

/// The flag after adding `b` to `a`: set when the sum dropped below either
/// operand.
pub open spec fn carry_flag(a: u8, b: u8) -> u8 {
    if sum_of(a, b) < a || sum_of(a, b) < b {
        1
    } else {
        0
    }
}

/// The flag after subtracting `b` from `a`: set when the difference is
/// below `a`.
pub open spec fn borrow_flag(a: u8, b: u8) -> u8 {
    if difference_of(a, b) < a {
        1
    } else {
        0
    }
}

/// The flag after subtracting `b` from `a` the other way round: set when
/// `a` is the greater.
pub open spec fn greater_flag(a: u8, b: u8) -> u8 {
    if a > b {
        1
    } else {
        0
    }
}

/// Adds `b` to `a`, wrapping. Returns the sum and the carry flag.
pub fn add_with_carry(a: u8, b: u8) -> (result: (u8, u8))
    ensures
        result.0 == sum_of(a, b),
        result.1 == carry_flag(a, b),
{
    let sum: u8 = a.wrapping_add(b);
    let flag: u8 = if sum < a || sum < b {
        1
    } else {
        0
    };
    (sum, flag)
}

/// Subtracts `b` from `a`, wrapping. Returns the difference and the flag
/// that is set when the difference is below `a`.
pub fn subtract_with_flag(a: u8, b: u8) -> (result: (u8, u8))
    ensures
        result.0 == difference_of(a, b),
        result.1 == borrow_flag(a, b),
{
    let difference: u8 = a.wrapping_sub(b);
    let flag: u8 = if difference < a {
        1
    } else {
        0
    };
    (difference, flag)
}

/// Subtracts `b` from `a`, wrapping. Returns the difference and the flag
/// that is set when `a` is the greater.
pub fn subtract_with_greater(a: u8, b: u8) -> (result: (u8, u8))
    ensures
        result.0 == difference_of(a, b),
        result.1 == greater_flag(a, b),
{
    let flag: u8 = if a > b {
        1
    } else {
        0
    };
    (a.wrapping_sub(b), flag)
}

/// Shifts `a` right by one. Returns the half and the bit shifted out.
pub fn halve(a: u8) -> (result: (u8, u8))
    ensures
        result.0 == a / 2,
        result.1 == a % 2,
{
    assert(a >> 1 == a / 2) by (bit_vector);
    assert(a & 1 == a % 2) by (bit_vector);
    (a >> 1, a & 1)
}

/// Adds `b` to `a`, wrapping, without a flag.
pub fn wrapping_sum(a: u8, b: u8) -> (sum: u8)
    ensures
        sum == sum_of(a, b),
{
    a.wrapping_add(b)
}

} // verus!
