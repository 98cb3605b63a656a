//! Single-precision numbers held as their IEEE-754 bit patterns, and their order.
use vstd::prelude::*;

verus! {

/// `0.0`
pub const ZERO: u32 = 0x0000_0000;

/// `-0.0`
pub const NEG_ZERO: u32 = 0x8000_0000;

/// `1.0`
pub const ONE: u32 = 0x3F80_0000;

/// The single-precision number nearest to `0.1`.
pub const ONE_TENTH: u32 = 0x3DCC_CCCD;

/// The sign bit.
pub const SIGN: u32 = 0x8000_0000;

/// The pattern of positive infinity: any larger magnitude is a NaN.
pub const INFINITY: u32 = 0x7F80_0000;

/// The magnitude bits of a pattern (all but the sign).
pub open spec fn magnitude(b: u32) -> int {
    if b >= SIGN {
        b - SIGN
    } else {
        b as int
    }
}

pub open spec fn is_nan(b: u32) -> bool {
    magnitude(b) > INFINITY
}

/// A key that orders the non-NaN patterns as their numeric values are ordered;
/// both zeros get the key 0.
pub open spec fn order_key(b: u32) -> int {
    if b >= SIGN {
        -magnitude(b)
    } else {
        magnitude(b)
    }
}

/// `a < b` on the numbers the patterns stand for (false where either is a NaN).
pub open spec fn less_than(a: u32, b: u32) -> bool {
    !is_nan(a) && !is_nan(b) && order_key(a) < order_key(b)
}

/// `a` and `b` stand for numbers of opposite value (`a == -b`).
pub open spec fn negates(a: u32, b: u32) -> bool {
    !is_nan(a) && !is_nan(b) && order_key(a) == -order_key(b)
}

fn key(b: u32) -> (r: i64)
    ensures
        r == order_key(b),
{
    if b >= SIGN {
        -((b - SIGN) as i64)
    } else {
        b as i64
    }
}

fn nan(b: u32) -> (r: bool)
    ensures
        r == is_nan(b),
{
    if b >= SIGN {
        b - SIGN > INFINITY
    } else {
        b > INFINITY
    }
}

/// Numeric `a < b`, as `f32` compares: false where either side is a NaN.
pub fn lt(a: u32, b: u32) -> (r: bool)
    ensures
        r == less_than(a, b),
{
    !nan(a) && !nan(b) && key(a) < key(b)
}

} // verus!
