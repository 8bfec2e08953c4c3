//! Prices and sizes are IEEE 754 binary64 numbers. They are held as their
//! 64-bit patterns, and everything the library needs of them (is it zero,
//! is it a number at all, which of two is the larger) is read off the
//! pattern with integer arithmetic.

use vstd::prelude::*;

verus! {

/// A binary64 number, held as its bit pattern.
pub type Binary64 = u64;

/// The pattern of `-0.0`: the sign bit alone.
pub const SIGN_BIT: u64 = 0x8000_0000_0000_0000;

/// The pattern of positive infinity: every exponent bit, no fraction bit.
pub const INFINITY: u64 = 0x7ff0_0000_0000_0000;

/// The rank given to every pattern that is not a number.
pub const RANK_OF_NAN: u64 = 0xffff_ffff_ffff_ffff;

/// The pattern without its sign bit.
pub open spec fn magnitude(bits: Binary64) -> u64 {
    if bits >= SIGN_BIT {
        (bits - SIGN_BIT) as u64
    } else {
        bits
    }
}

/// The pattern stands for no number: all exponent bits set and a fraction
/// that is not zero.
pub open spec fn nan(bits: Binary64) -> bool {
    magnitude(bits) > INFINITY
}

/// The pattern stands for zero, of either sign.
pub open spec fn zero(bits: Binary64) -> bool {
    magnitude(bits) == 0
}

/// The place of a pattern in the total order in which the book keeps its
/// levels: numbers in increasing order, the two zeros in one place, and
/// every pattern that is not a number in one place above all numbers.
pub open spec fn rank(bits: Binary64) -> u64 {
    if nan(bits) {
        RANK_OF_NAN
    } else if bits >= SIGN_BIT {
        (SIGN_BIT - magnitude(bits)) as u64
    } else {
        (SIGN_BIT + bits) as u64
    }
}

/// `a >= b` as numbers: false as soon as one of them is not a number.
pub open spec fn at_least(a: Binary64, b: Binary64) -> bool {
    !nan(a) && !nan(b) && rank(a) >= rank(b)
}

/// `a < b` as numbers: false as soon as one of them is not a number.
pub open spec fn less_than(a: Binary64, b: Binary64) -> bool {
    !nan(a) && !nan(b) && rank(a) < rank(b)
}

pub fn is_nan(bits: Binary64) -> (r: bool)
    ensures
        r == nan(bits),
{
    let m: u64 = if bits >= SIGN_BIT { bits - SIGN_BIT } else { bits };
    m > INFINITY
}

pub fn is_zero(bits: Binary64) -> (r: bool)
    ensures
        r == zero(bits),
{
    bits == 0 || bits == SIGN_BIT
}

pub fn order_rank(bits: Binary64) -> (r: u64)
    ensures
        r == rank(bits),
{
    if is_nan(bits) {
        RANK_OF_NAN
    } else if bits >= SIGN_BIT {
        SIGN_BIT - (bits - SIGN_BIT)
    } else {
        SIGN_BIT + bits
    }
}

pub fn is_at_least(a: Binary64, b: Binary64) -> (r: bool)
    ensures
        r == at_least(a, b),
{
    !is_nan(a) && !is_nan(b) && order_rank(a) >= order_rank(b)
}

pub fn is_less_than(a: Binary64, b: Binary64) -> (r: bool)
    ensures
        r == less_than(a, b),
{
    !is_nan(a) && !is_nan(b) && order_rank(a) < order_rank(b)
}

} // verus!
