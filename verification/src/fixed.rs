//! Q32.32 fixed-point helpers shared by the viewport transform and the
//! escape-time engine.
//!
//! A plane coordinate is an `i64` holding the real value times `2^32`; a
//! scale (plane units per pixel) is the same representation, always
//! positive. All helpers here are exact integer arithmetic with stated
//! rounding, so every caller's contract can pin its result down.

use vstd::prelude::*;
use vstd::arithmetic::power2::pow2;
use vstd::arithmetic::power2::lemma_pow2_strictly_increases;
use vstd::arithmetic::power2::lemma_pow2_adds;
use vstd::arithmetic::power2::lemma2_to64;
use vstd::arithmetic::power2::lemma2_to64_rest;
use vstd::arithmetic::div_mod::lemma_hoist_over_denominator;
use vstd::arithmetic::mul::lemma_mul_inequality;
use vstd::arithmetic::mul::lemma_mul_strict_inequality;

verus! {

/// One plane unit in Q32.32.
pub const FP_ONE: i64 = 0x1_0000_0000;

/// Clamp `v` into `[lo, hi]`.
pub open spec fn clamp_spec(v: int, lo: int, hi: int) -> int {
    if v < lo {
        lo
    } else if v > hi {
        hi
    } else {
        v
    }
}

/// Clamp a wide intermediate value into an `i64` interval.
pub fn clamp_i128(v: i128, lo: i64, hi: i64) -> (r: i64)
    requires
        lo <= hi,
    ensures
        r as int == clamp_spec(v as int, lo as int, hi as int),
{
    if v < lo as i128 {
        lo
    } else if v > hi as i128 {
        hi
    } else {
        v as i64
    }
}

/// `2^n` as a `u64`.
pub fn pow2_u64(n: u64) -> (r: u64)
    requires
        n <= 63,
    ensures
        r == pow2(n as nat),
{
    let mut i: u64 = 0;
    let mut r: u64 = 1;
    assert(r == pow2(0)) by {
        lemma2_to64();
    }
    while i < n
        invariant
            i <= n,
            n <= 63,
            r == pow2(i as nat),
        decreases n - i,
    {
        proof {
            lemma2_to64();
            lemma2_to64_rest();
            lemma_pow2_strictly_increases(i as nat, 63);
            lemma_pow2_adds(i as nat, 1);
        }
        r = r * 2;
        i = i + 1;
    }
    r
}

/// A number whose square is at most `b^2` lies in `[-b, b]`.
pub proof fn lemma_abs_square_le(x: int, b: int)
    requires
        0 <= b,
        x * x <= b * b,
    ensures
        -b <= x <= b,
{
    if x > b {
        lemma_mul_inequality(b, x, b);
        lemma_mul_strict_inequality(b, x, x);
        assert(false);
    }
    if x < -b {
        assert(x * x == (-x) * (-x)) by (nonlinear_arith);
        lemma_mul_inequality(b, -x, b);
        lemma_mul_strict_inequality(b, -x, -x);
        assert(false);
    }
}

/// Floor division of a wide intermediate by `2^32`: the Q32.32 rescaling
/// step after a product of two fixed-point values.
pub fn shr32(t: i128) -> (r: i128)
    requires
        -0x1_0000_0000_0000_0000_0000_0000_0 < t < 0x1_0000_0000_0000_0000_0000_0000_0,
    ensures
        r as int == t as int / 0x1_0000_0000,
{
    // Shift into nonnegative range by a multiple of the divisor, divide
    // there, and shift the quotient back: floor division throughout.
    let s: i128 = t + 0x1_0000_0000_0000_0000_0000_0000_00;
    let su: u128 = s as u128;
    let qu: u128 = su / 0x1_0000_0000;
    let r: i128 = (qu as i128) - 0x1_0000_0000_0000_0000_00;
    proof {
        let m: int = 0x1_0000_0000;
        let j: int = 0x1_0000_0000_0000_0000_00;
        assert(su as int == t as int + j * m);
        lemma_hoist_over_denominator(t as int, j, m as nat);
        assert(qu as int == t as int / m + j);
    }
    r
}

} // verus!
