//! Saturating signed fixed-point arithmetic with a scale of one million.
//!
//! A value `v: i64` stands for the real number `v / SCALE`. Every operation
//! saturates its result into `[-FX_MAX, FX_MAX]`, so each one is total over
//! all inputs and every result fits comfortably in `i64`; within that range
//! the contracts pin the results exactly.

use vstd::prelude::*;

verus! {

/// Fixed-point scale: the representation of 1.0.
pub const SCALE: i64 = 1_000_000;

/// Largest magnitude a fixed-point value may take (one billion, scaled).
pub const FX_MAX: i64 = 1_000_000_000_000_000;

pub open spec fn abs_int(a: int) -> int {
    if a < 0 {
        -a
    } else {
        a
    }
}

/// Saturate an unbounded integer into the fixed-point range.
pub open spec fn sat64(x: int) -> i64 {
    if x < -FX_MAX {
        (-FX_MAX) as i64
    } else if x > FX_MAX {
        FX_MAX as i64
    } else {
        x as i64
    }
}

/// Division that truncates toward zero, as machine division does.
pub open spec fn tdiv(a: int, b: int) -> int
    recommends
        b != 0,
{
    let q = abs_int(a) / abs_int(b);
    if (a < 0) != (b < 0) {
        -q
    } else {
        q
    }
}

pub open spec fn spec_fx_add(a: i64, b: i64) -> i64 {
    sat64(a + b)
}

pub open spec fn spec_fx_sub(a: i64, b: i64) -> i64 {
    sat64(a - b)
}

pub open spec fn spec_fx_mul(a: i64, b: i64) -> i64 {
    sat64(tdiv(a * b, SCALE as int))
}

/// Fixed-point division; a zero divisor yields zero (degenerate inputs
/// produce garbage output rather than a failure, matching the policy that
/// frame math never fails).
pub open spec fn spec_fx_div(a: i64, b: i64) -> i64 {
    if b == 0 {
        0
    } else {
        sat64(tdiv(a * SCALE, b as int))
    }
}

pub open spec fn spec_fx_clamp(x: i64, lo: i64, hi: i64) -> i64 {
    if x < lo {
        lo
    } else if x > hi {
        hi
    } else {
        x
    }
}

/// Product of two magnitude-bounded integers is bounded by the product of
/// the bounds.
pub proof fn lemma_abs_mul_le(a: int, b: int, au: int, bu: int) by (nonlinear_arith)
    requires
        abs_int(a) <= au,
        abs_int(b) <= bu,
    ensures
        abs_int(a * b) <= au * bu,
{
}

/// Saturating fixed-point addition.
pub fn fx_add(a: i64, b: i64) -> (r: i64)
    ensures
        r == spec_fx_add(a, b),
{
    let s: i128 = a as i128 + b as i128;
    if s < -(FX_MAX as i128) {
        -FX_MAX
    } else if s > FX_MAX as i128 {
        FX_MAX
    } else {
        s as i64
    }
}

/// Saturating fixed-point subtraction.
pub fn fx_sub(a: i64, b: i64) -> (r: i64)
    ensures
        r == spec_fx_sub(a, b),
{
    let s: i128 = a as i128 - b as i128;
    if s < -(FX_MAX as i128) {
        -FX_MAX
    } else if s > FX_MAX as i128 {
        FX_MAX
    } else {
        s as i64
    }
}

/// Truncating division of a wide intermediate by a positive divisor.
pub(crate) fn tdiv128(a: i128, b: i128) -> (r: i128)
    requires
        0 < b,
        -0x7fff_ffff_ffff_ffff_ffff_ffff_ffff_ffff <= a,
    ensures
        r == tdiv(a as int, b as int),
        abs_int(r as int) == abs_int(a as int) / (b as int),
        abs_int(r as int) <= abs_int(a as int),
{
    let neg: bool = a < 0;
    let aa: u128 = if a < 0 {
        (-a) as u128
    } else {
        a as u128
    };
    let q: u128 = aa / (b as u128);
    proof {
        vstd::arithmetic::div_mod::lemma_div_nonincreasing(aa as int, b as int);
        vstd::arithmetic::div_mod::lemma_div_pos_is_pos(aa as int, b as int);
    }
    if neg {
        -(q as i128)
    } else {
        q as i128
    }
}

/// Saturating fixed-point multiplication: `(a * b) / SCALE`.
pub fn fx_mul(a: i64, b: i64) -> (r: i64)
    ensures
        r == spec_fx_mul(a, b),
{
    proof {
        lemma_abs_mul_le(a as int, b as int, 0x8000_0000_0000_0000, 0x8000_0000_0000_0000);
    }
    let p: i128 = (a as i128) * (b as i128);
    let q: i128 = tdiv128(p, SCALE as i128);
    if q < -(FX_MAX as i128) {
        -FX_MAX
    } else if q > FX_MAX as i128 {
        FX_MAX
    } else {
        q as i64
    }
}

/// Saturating fixed-point division: `(a * SCALE) / b`; zero when `b == 0`.
pub fn fx_div(a: i64, b: i64) -> (r: i64)
    ensures
        r == spec_fx_div(a, b),
{
    if b == 0 {
        return 0;
    }
    proof {
        lemma_abs_mul_le(a as int, SCALE as int, 0x8000_0000_0000_0000, SCALE as int);
    }
    let p: i128 = (a as i128) * (SCALE as i128);
    let (pp, bp): (i128, i128) = if b < 0 {
        (-p, -(b as i128))
    } else {
        (p, b as i128)
    };
    let q: i128 = tdiv128(pp, bp);
    proof {
        assert(tdiv(pp as int, bp as int) == tdiv(p as int, b as int));
    }
    if q < -(FX_MAX as i128) {
        -FX_MAX
    } else if q > FX_MAX as i128 {
        FX_MAX
    } else {
        q as i64
    }
}

/// Clamp into `[lo, hi]` (callers establish `lo <= hi`).
pub fn fx_clamp(x: i64, lo: i64, hi: i64) -> (r: i64)
    ensures
        r == spec_fx_clamp(x, lo, hi),
{
    if x < lo {
        lo
    } else if x > hi {
        hi
    } else {
        x
    }
}

} // verus!
