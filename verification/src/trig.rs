//! Fixed-point sine and cosine.
//!
//! The argument is an angle in radians, fixed-point scaled. The angle is
//! reduced modulo a full turn, folded into the first quadrant, and evaluated
//! there with a truncated Taylor polynomial in integer arithmetic; the result
//! is clamped into `[-SCALE, SCALE]`. `spec_sin` / `spec_cos` state the exact
//! value the executable code computes.

use vstd::prelude::*;

use crate::fx::{abs_int, tdiv, tdiv128, lemma_abs_mul_le, SCALE};

verus! {

/// Pi, fixed-point scaled (nearest integer).
pub const PI_FX: i64 = 3_141_593;

/// Pi over two, fixed-point scaled.
pub const HALF_PI_FX: i64 = 1_570_796;

/// Two pi, fixed-point scaled.
pub const TWO_PI_FX: i64 = 6_283_185;

/// Angle reduced into `(PI_FX - TWO_PI_FX, PI_FX]`.
pub open spec fn spec_reduce(x: i64) -> int {
    let m = (x as int) % (TWO_PI_FX as int);
    if m > PI_FX {
        m - TWO_PI_FX
    } else {
        m
    }
}

/// Taylor polynomial for sine on `[0, HALF_PI_FX]`, clamped into `[0, SCALE]`.
pub open spec fn spec_poly_sin(x: int) -> int
    recommends
        0 <= x <= HALF_PI_FX,
{
    let x2 = tdiv(x * x, SCALE as int);
    let t3 = tdiv(x * x2, 6 * SCALE);
    let t5 = tdiv(t3 * x2, 20 * SCALE);
    let t7 = tdiv(t5 * x2, 42 * SCALE);
    let t9 = tdiv(t7 * x2, 72 * SCALE);
    let r = x - t3 + t5 - t7 + t9;
    if r < 0 {
        0
    } else if r > SCALE {
        SCALE as int
    } else {
        r
    }
}

/// Taylor polynomial for cosine on `[0, HALF_PI_FX]`, clamped into `[0, SCALE]`.
pub open spec fn spec_poly_cos(x: int) -> int
    recommends
        0 <= x <= HALF_PI_FX,
{
    let x2 = tdiv(x * x, SCALE as int);
    let t2 = tdiv(x2, 2);
    let t4 = tdiv(t2 * x2, 12 * SCALE);
    let t6 = tdiv(t4 * x2, 30 * SCALE);
    let t8 = tdiv(t6 * x2, 56 * SCALE);
    let r = SCALE - t2 + t4 - t6 + t8;
    if r < 0 {
        0
    } else if r > SCALE {
        SCALE as int
    } else {
        r
    }
}

/// Sine on `[0, PI_FX]`, folded into the first quadrant.
pub open spec fn spec_sin_half(m: int) -> int
    recommends
        0 <= m <= PI_FX,
{
    if m > HALF_PI_FX {
        spec_poly_sin(PI_FX - m)
    } else {
        spec_poly_sin(m)
    }
}

/// Fixed-point sine of any angle.
pub open spec fn spec_sin(x: i64) -> i64 {
    let m = spec_reduce(x);
    if m < 0 {
        (-spec_sin_half(-m)) as i64
    } else {
        spec_sin_half(m) as i64
    }
}

/// Fixed-point cosine of any angle.
pub open spec fn spec_cos(x: i64) -> i64 {
    let m = spec_reduce(x);
    let ma = if m < 0 {
        -m
    } else {
        m
    };
    if ma > HALF_PI_FX {
        (-spec_poly_cos(PI_FX - ma)) as i64
    } else {
        spec_poly_cos(ma) as i64
    }
}

/// Reduce an angle into `[PI_FX - TWO_PI_FX, PI_FX]`.
fn reduce(x: i64) -> (m: i64)
    ensures
        m as int == spec_reduce(x),
        PI_FX - TWO_PI_FX <= m <= PI_FX,
{
    proof {
        vstd::arithmetic::div_mod::lemma_mod_bound(x as int, TWO_PI_FX as int);
    }
    let xi: i128 = x as i128;
    let aa: u128 = if xi < 0 {
        (-xi) as u128
    } else {
        xi as u128
    };
    let m0: i64 = (aa % (TWO_PI_FX as u128)) as i64;
    let me0: i64 = if xi >= 0 {
        m0
    } else if m0 == 0 {
        0
    } else {
        TWO_PI_FX - m0
    };
    proof {
        if xi < 0 {
            let a = -(x as int);
            let tp = TWO_PI_FX as int;
            vstd::arithmetic::div_mod::lemma_fundamental_div_mod(a, tp);
            let k = a / tp + 1;
            vstd::arithmetic::div_mod::lemma_mod_multiples_vanish(k, x as int, tp);
            assert(tp * k + x == tp - m0);
            if m0 == 0 {
                vstd::arithmetic::div_mod::lemma_mod_self_0(tp);
            } else {
                vstd::arithmetic::div_mod::lemma_small_mod((tp - m0) as nat, tp as nat);
            }
        }
        assert(me0 as int == (x as int) % (TWO_PI_FX as int));
    }
    if me0 > PI_FX {
        me0 - TWO_PI_FX
    } else {
        me0
    }
}

/// Evaluate the sine polynomial on the first quadrant.
fn poly_sin(x: i64) -> (r: i64)
    requires
        0 <= x <= HALF_PI_FX,
    ensures
        r as int == spec_poly_sin(x as int),
        0 <= r <= SCALE,
{
    let xl: i128 = x as i128;
    proof {
        lemma_abs_mul_le(xl as int, xl as int, HALF_PI_FX as int, HALF_PI_FX as int);
    }
    let p2: i128 = xl * xl;
    let x2: i128 = tdiv128(p2, 1_000_000);
    proof {
        vstd::arithmetic::div_mod::lemma_div_is_ordered(
            abs_int(p2 as int),
            2_467_400_073_616int,
            1_000_000,
        );
        assert(0 <= x2 <= 2_467_401);
        lemma_abs_mul_le(xl as int, x2 as int, HALF_PI_FX as int, 2_467_401);
    }
    let p3: i128 = xl * x2;
    let t3: i128 = tdiv128(p3, 6_000_000);
    proof {
        vstd::arithmetic::div_mod::lemma_div_is_ordered(
            abs_int(p3 as int),
            (HALF_PI_FX as int) * 2_467_401int,
            6_000_000,
        );
        assert(0 <= t3 <= 645_976);
        lemma_abs_mul_le(t3 as int, x2 as int, 645_976, 2_467_401);
    }
    let p5: i128 = t3 * x2;
    let t5: i128 = tdiv128(p5, 20_000_000);
    proof {
        vstd::arithmetic::div_mod::lemma_div_is_ordered(
            abs_int(p5 as int),
            645_976int * 2_467_401int,
            20_000_000,
        );
        assert(0 <= t5 <= 79_696);
        lemma_abs_mul_le(t5 as int, x2 as int, 79_696, 2_467_401);
    }
    let p7: i128 = t5 * x2;
    let t7: i128 = tdiv128(p7, 42_000_000);
    proof {
        vstd::arithmetic::div_mod::lemma_div_is_ordered(
            abs_int(p7 as int),
            79_696int * 2_467_401int,
            42_000_000,
        );
        assert(0 <= t7 <= 4_682);
        lemma_abs_mul_le(t7 as int, x2 as int, 4_682, 2_467_401);
    }
    let p9: i128 = t7 * x2;
    let t9: i128 = tdiv128(p9, 72_000_000);
    proof {
        vstd::arithmetic::div_mod::lemma_div_is_ordered(
            abs_int(p9 as int),
            4_682int * 2_467_401int,
            72_000_000,
        );
        assert(0 <= t9 <= 160_451);
    }
    let r0: i128 = xl - t3 + t5 - t7 + t9;
    let rc: i128 = if r0 < 0 {
        0
    } else if r0 > 1_000_000 {
        1_000_000
    } else {
        r0
    };
    rc as i64
}

/// Evaluate the cosine polynomial on the first quadrant.
fn poly_cos(x: i64) -> (r: i64)
    requires
        0 <= x <= HALF_PI_FX,
    ensures
        r as int == spec_poly_cos(x as int),
        0 <= r <= SCALE,
{
    let xl: i128 = x as i128;
    proof {
        lemma_abs_mul_le(xl as int, xl as int, HALF_PI_FX as int, HALF_PI_FX as int);
    }
    let p2: i128 = xl * xl;
    let x2: i128 = tdiv128(p2, 1_000_000);
    proof {
        vstd::arithmetic::div_mod::lemma_div_is_ordered(
            abs_int(p2 as int),
            2_467_400_073_616int,
            1_000_000,
        );
        assert(0 <= x2 <= 2_467_401);
    }
    let t2: i128 = tdiv128(x2, 2);
    proof {
        assert(0 <= t2 <= 1_233_701);
        lemma_abs_mul_le(t2 as int, x2 as int, 1_233_701, 2_467_401);
    }
    let p4: i128 = t2 * x2;
    let t4: i128 = tdiv128(p4, 12_000_000);
    proof {
        vstd::arithmetic::div_mod::lemma_div_is_ordered(
            abs_int(p4 as int),
            1_233_701int * 2_467_401int,
            12_000_000,
        );
        assert(0 <= t4 <= 253_679);
        lemma_abs_mul_le(t4 as int, x2 as int, 253_679, 2_467_401);
    }
    let p6: i128 = t4 * x2;
    let t6: i128 = tdiv128(p6, 30_000_000);
    proof {
        vstd::arithmetic::div_mod::lemma_div_is_ordered(
            abs_int(p6 as int),
            253_679int * 2_467_401int,
            30_000_000,
        );
        assert(0 <= t6 <= 20_866);
        lemma_abs_mul_le(t6 as int, x2 as int, 20_866, 2_467_401);
    }
    let p8: i128 = t6 * x2;
    let t8: i128 = tdiv128(p8, 56_000_000);
    proof {
        vstd::arithmetic::div_mod::lemma_div_is_ordered(
            abs_int(p8 as int),
            20_866int * 2_467_401int,
            56_000_000,
        );
        assert(0 <= t8 <= 919_344);
    }
    let r0: i128 = 1_000_000 - t2 + t4 - t6 + t8;
    let rc: i128 = if r0 < 0 {
        0
    } else if r0 > 1_000_000 {
        1_000_000
    } else {
        r0
    };
    rc as i64
}

/// Fixed-point sine.
pub fn sin_fp(x: i64) -> (r: i64)
    ensures
        r == spec_sin(x),
        -SCALE <= r <= SCALE,
{
    let m = reduce(x);
    if m < 0 {
        let p = if -m > HALF_PI_FX {
            poly_sin(PI_FX - (-m))
        } else {
            poly_sin(-m)
        };
        -p
    } else {
        if m > HALF_PI_FX {
            poly_sin(PI_FX - m)
        } else {
            poly_sin(m)
        }
    }
}

/// Fixed-point cosine.
pub fn cos_fp(x: i64) -> (r: i64)
    ensures
        r == spec_cos(x),
        -SCALE <= r <= SCALE,
{
    let m = reduce(x);
    let ma = if m < 0 {
        -m
    } else {
        m
    };
    if ma > HALF_PI_FX {
        let p = poly_cos(PI_FX - ma);
        -p
    } else {
        poly_cos(ma)
    }
}

/// Sine and cosine stay within the unit range.
pub proof fn lemma_trig_bounds(x: i64)
    ensures
        -SCALE <= spec_sin(x) <= SCALE,
        -SCALE <= spec_cos(x) <= SCALE,
{
}

/// Sine of zero is exactly zero and cosine of zero is exactly one.
pub proof fn lemma_trig_zero()
    ensures
        spec_sin(0) == 0,
        spec_cos(0) == SCALE,
{
    vstd::arithmetic::div_mod::lemma_small_mod(0, TWO_PI_FX as nat);
    assert(spec_reduce(0) == 0);
    assert(spec_poly_sin(0) == 0);
    assert(spec_poly_cos(0) == SCALE);
}

} // verus!
