//! Comparisons of IEEE-754 binary64 numbers held as their bit patterns (the `u64`
//! that `f64::to_bits` gives), with the semantics of `<`, `<=`, `>` and `>=` on `f64`.
use vstd::prelude::*;

verus! {

pub const SIGN_BIT: u64 = 0x8000_0000_0000_0000;

/// The bit pattern of positive infinity; every larger magnitude is a NaN.
pub const INFINITY_BITS: u64 = 0x7FF0_0000_0000_0000;

/// The bits of a number without its sign bit.
pub open spec fn magnitude(b: u64) -> int {
    (b % 0x8000_0000_0000_0000) as int
}

pub open spec fn is_negative_signed(b: u64) -> bool {
    b >= 0x8000_0000_0000_0000
}

/// The pattern is a NaN: all exponent bits set and a nonzero fraction.
pub open spec fn is_nan(b: u64) -> bool {
    magnitude(b) > 0x7FF0_0000_0000_0000
}

/// The place of a non-NaN number on the number line: the magnitude bits order the
/// numbers of one sign, so the key is the magnitude with the number's sign. Both zeros
/// have key 0.
pub open spec fn order_key(b: u64) -> int {
    if is_negative_signed(b) {
        0 - magnitude(b)
    } else {
        magnitude(b)
    }
}

/// `x < y` on the numbers with bits `a` and `b`; false when either is a NaN.
pub open spec fn lt(a: u64, b: u64) -> bool {
    !is_nan(a) && !is_nan(b) && order_key(a) < order_key(b)
}

/// `x <= y` on the numbers with bits `a` and `b`; false when either is a NaN.
pub open spec fn le(a: u64, b: u64) -> bool {
    !is_nan(a) && !is_nan(b) && order_key(a) <= order_key(b)
}

fn key(b: u64) -> (k: i128)
    ensures
        k == order_key(b),
{
    let m = (b % SIGN_BIT) as i128;
    if b >= SIGN_BIT {
        0 - m
    } else {
        m
    }
}

fn nan(b: u64) -> (r: bool)
    ensures
        r == is_nan(b),
{
    b % SIGN_BIT > INFINITY_BITS
}

/// `x < y`.
pub fn f64_lt(a: u64, b: u64) -> (r: bool)
    ensures
        r == lt(a, b),
{
    !nan(a) && !nan(b) && key(a) < key(b)
}

/// `x <= y`.
pub fn f64_le(a: u64, b: u64) -> (r: bool)
    ensures
        r == le(a, b),
{
    !nan(a) && !nan(b) && key(a) <= key(b)
}

/// `x > y`.
pub fn f64_gt(a: u64, b: u64) -> (r: bool)
    ensures
        r == lt(b, a),
{
    f64_lt(b, a)
}

/// `x >= y`.
pub fn f64_ge(a: u64, b: u64) -> (r: bool)
    ensures
        r == le(b, a),
{
    f64_le(b, a)
}

/// `(lo..=hi).contains(&x)`: `lo <= x && x <= hi`.
pub fn f64_in_closed(x: u64, lo: u64, hi: u64) -> (r: bool)
    ensures
        r == (le(lo, x) && le(x, hi)),
{
    f64_le(lo, x) && f64_le(x, hi)
}

} // verus!
