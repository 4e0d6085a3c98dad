//! Ordering of IEEE-754 binary64 values held as their bit encodings.
//!
//! Preferences such as the pet's scale are binary64 numbers. The library keeps
//! them as the 64-bit encoding (`f64::to_bits`) and orders them as the
//! standard's `<` does: NaN is unordered, `-0.0` equals `+0.0`, and otherwise
//! the order follows sign and magnitude.

use vstd::prelude::*;

verus! {

/// The sign bit of a binary64 encoding.
pub const SIGN_BIT: u64 = 0x8000_0000_0000_0000;

/// The encoding of positive infinity; magnitudes above it are NaN.
pub const INFINITY_BITS: u64 = 0x7ff0_0000_0000_0000;

/// The encoding without its sign bit.
pub open spec fn magnitude(bits: u64) -> int {
    if bits < SIGN_BIT {
        bits as int
    } else {
        bits - SIGN_BIT
    }
}

/// The encoding is a NaN.
pub open spec fn is_nan(bits: u64) -> bool {
    magnitude(bits) > INFINITY_BITS
}

/// An integer whose order is the order of the encoded non-NaN values.
pub open spec fn rank(bits: u64) -> int {
    if bits < SIGN_BIT {
        magnitude(bits)
    } else {
        -magnitude(bits)
    }
}

/// `a < b` on the encoded values.
pub open spec fn less_than(a: u64, b: u64) -> bool {
    !is_nan(a) && !is_nan(b) && rank(a) < rank(b)
}

/// `x.clamp(lo, hi)` on the encoded values, for `lo <= hi`: `lo` when
/// `x < lo`, `hi` when `x > hi`, else `x` itself (NaN included).
pub open spec fn clamped(x: u64, lo: u64, hi: u64) -> u64 {
    if less_than(x, lo) {
        lo
    } else if less_than(hi, x) {
        hi
    } else {
        x
    }
}

/// Whether the encoding is a NaN.
pub fn bits_is_nan(bits: u64) -> (r: bool)
    ensures
        r == is_nan(bits),
{
    let m = if bits < SIGN_BIT { bits } else { bits - SIGN_BIT };
    m > INFINITY_BITS
}

/// `a < b` on encoded binary64 values.
pub fn bits_less_than(a: u64, b: u64) -> (r: bool)
    ensures
        r == less_than(a, b),
{
    if bits_is_nan(a) || bits_is_nan(b) {
        return false;
    }
    let a_neg = a >= SIGN_BIT;
    let b_neg = b >= SIGN_BIT;
    let a_mag = if a_neg { a - SIGN_BIT } else { a };
    let b_mag = if b_neg { b - SIGN_BIT } else { b };
    if a_neg && b_neg {
        b_mag < a_mag
    } else if a_neg {
        !(a_mag == 0 && b_mag == 0)
    } else if b_neg {
        false
    } else {
        a_mag < b_mag
    }
}

/// `x.clamp(lo, hi)` on encoded binary64 values.
pub fn clamp_bits(x: u64, lo: u64, hi: u64) -> (r: u64)
    requires
        !is_nan(lo),
        !is_nan(hi),
        rank(lo) <= rank(hi),
    ensures
        r == clamped(x, lo, hi),
{
    if bits_less_than(x, lo) {
        lo
    } else if bits_less_than(hi, x) {
        hi
    } else {
        x
    }
}

/// The encoded order is the binary64 order: NaN compares with nothing;
/// among non-negative encodings (sign bit clear) larger bits are larger
/// values; among negative ones larger bits are smaller values; every negative
/// value is below every non-negative one except that `-0.0` equals `+0.0`.
pub proof fn lemma_less_than_is_float_order(a: u64, b: u64)
    ensures
        is_nan(a) <==> (if a < 0x8000_0000_0000_0000 { a as int } else { a - 0x8000_0000_0000_0000 })
            > 0x7ff0_0000_0000_0000,
        is_nan(a) || is_nan(b) ==> !less_than(a, b),
        !is_nan(a) && !is_nan(b) && a < 0x8000_0000_0000_0000 && b < 0x8000_0000_0000_0000
            ==> (less_than(a, b) <==> a < b),
        !is_nan(a) && !is_nan(b) && a >= 0x8000_0000_0000_0000 && b >= 0x8000_0000_0000_0000
            ==> (less_than(a, b) <==> b < a),
        !is_nan(a) && !is_nan(b) && a >= 0x8000_0000_0000_0000 && b < 0x8000_0000_0000_0000
            ==> (less_than(a, b) <==> !(a == 0x8000_0000_0000_0000 && b == 0)),
        !is_nan(a) && !is_nan(b) && a < 0x8000_0000_0000_0000 && b >= 0x8000_0000_0000_0000
            ==> !less_than(a, b),
{
}

/// A clamped value lies in the range unless it is NaN, which is kept as is.
pub proof fn lemma_clamped_in_range(x: u64, lo: u64, hi: u64)
    requires
        !is_nan(lo),
        !is_nan(hi),
        rank(lo) <= rank(hi),
    ensures
        is_nan(x) ==> clamped(x, lo, hi) == x,
        !is_nan(x) ==> !is_nan(clamped(x, lo, hi)),
        !is_nan(x) ==> rank(lo) <= rank(clamped(x, lo, hi)) <= rank(hi),
        !less_than(x, lo) && !less_than(hi, x) ==> clamped(x, lo, hi) == x,
        less_than(x, lo) ==> clamped(x, lo, hi) == lo,
        less_than(hi, x) ==> clamped(x, lo, hi) == hi,
{
}

/// Clamping twice into the same range is clamping once.
pub proof fn lemma_clamped_idempotent(x: u64, lo: u64, hi: u64)
    requires
        !is_nan(lo),
        !is_nan(hi),
        rank(lo) <= rank(hi),
    ensures
        clamped(clamped(x, lo, hi), lo, hi) == clamped(x, lo, hi),
{
}

} // verus!
