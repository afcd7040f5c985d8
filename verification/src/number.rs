//! Single-precision numbers as bit patterns: order, zero test, sign and clamp.
use vstd::prelude::*;

verus! {

/// Bit pattern of `0.0`.
pub const ZERO: u32 = 0;

/// Bit pattern of `1.0`.
pub const ONE: u32 = 0x3f80_0000;

/// Bit pattern of `0.5`.
pub const HALF: u32 = 0x3f00_0000;

/// Bit pattern of `2.0`.
pub const TWO: u32 = 0x4000_0000;

/// Bit pattern of `3.0`.
pub const THREE: u32 = 0x4040_0000;

/// Bit pattern of `4.0`.
pub const FOUR: u32 = 0x4080_0000;

/// Bit pattern of `5.0`.
pub const FIVE: u32 = 0x40a0_0000;

/// The sign bit.
pub const SIGN: u32 = 0x8000_0000;

/// Magnitude of positive infinity; every larger magnitude is a NaN.
pub const INFINITY: u32 = 0x7f80_0000;

/// The pattern without its sign bit.
pub open spec fn magnitude(bits: u32) -> int {
    if bits >= SIGN {
        bits - SIGN
    } else {
        bits as int
    }
}

/// Whether the pattern is a NaN.
pub open spec fn is_nan(bits: u32) -> bool {
    magnitude(bits) > INFINITY
}

/// An integer that orders the non-NaN patterns as the numbers they encode.
/// Both zeros have rank 0.
pub open spec fn rank(bits: u32) -> int {
    if bits >= SIGN {
        -magnitude(bits)
    } else {
        magnitude(bits)
    }
}

/// `a < b` as numbers: false when either is a NaN.
pub open spec fn less(a: u32, b: u32) -> bool {
    !is_nan(a) && !is_nan(b) && rank(a) < rank(b)
}

/// `a <= b` as numbers: false when either is a NaN.
pub open spec fn at_most(a: u32, b: u32) -> bool {
    !is_nan(a) && !is_nan(b) && rank(a) <= rank(b)
}

/// `a == 0.0` as numbers: true of both zeros.
pub open spec fn is_zero(bits: u32) -> bool {
    magnitude(bits) == 0
}

/// The pattern with its sign bit flipped.
pub open spec fn negated(bits: u32) -> u32 {
    if bits >= SIGN {
        (bits - SIGN) as u32
    } else {
        (bits + SIGN) as u32
    }
}

/// `x` held between 0 and 1; a NaN stays as it is.
pub open spec fn clamped_unit(x: u32) -> u32 {
    if less(x, ZERO) {
        ZERO
    } else if less(ONE, x) {
        ONE
    } else {
        x
    }
}

fn magnitude_of(bits: u32) -> (m: u32)
    ensures
        m == magnitude(bits),
{
    if bits >= SIGN {
        bits - SIGN
    } else {
        bits
    }
}

/// Whether `bits` encodes a NaN.
pub fn nan(bits: u32) -> (r: bool)
    ensures
        r == is_nan(bits),
{
    magnitude_of(bits) > INFINITY
}

/// Whether `a < b` as numbers.
pub fn lt(a: u32, b: u32) -> (r: bool)
    ensures
        r == less(a, b),
{
    if nan(a) || nan(b) {
        return false;
    }
    let ma: u32 = magnitude_of(a);
    let mb: u32 = magnitude_of(b);
    if a >= SIGN {
        if b >= SIGN {
            ma > mb
        } else {
            ma > 0 || mb > 0
        }
    } else {
        if b >= SIGN {
            false
        } else {
            ma < mb
        }
    }
}

/// Whether `a <= b` as numbers.
pub fn le(a: u32, b: u32) -> (r: bool)
    ensures
        r == at_most(a, b),
{
    if nan(a) || nan(b) {
        return false;
    }
    !lt(b, a)
}

/// Whether `a >= b` as numbers.
pub fn ge(a: u32, b: u32) -> (r: bool)
    ensures
        r == at_most(b, a),
{
    le(b, a)
}

/// Whether `bits` is one of the two zeros.
pub fn zero(bits: u32) -> (r: bool)
    ensures
        r == is_zero(bits),
{
    magnitude_of(bits) == 0
}

/// `-x`: the same magnitude with the other sign.
pub fn neg(bits: u32) -> (r: u32)
    ensures
        r == negated(bits),
        magnitude(r) == magnitude(bits),
{
    if bits >= SIGN {
        bits - SIGN
    } else {
        bits + SIGN
    }
}

/// `x` held between 0 and 1; a NaN stays as it is.
pub fn clamp_unit(x: u32) -> (r: u32)
    ensures
        r == clamped_unit(x),
        !is_nan(x) ==> at_most(ZERO, r) && at_most(r, ONE),
{
    if lt(x, ZERO) {
        ZERO
    } else if lt(ONE, x) {
        ONE
    } else {
        x
    }
}

} // verus!
