//! Fixed-point vectors and the view-projection pipeline.
//!
//! `build_view_proj` composes a right-handed look-at view, a perspective
//! projection (field of view given in degrees), and the fixed clip-space
//! correction that remaps the depth range from `[-1, 1]` to `[0, 1]` for the
//! target graphics API. The matrix is row-major: `mRC` is row `R`, column
//! `C`, and the four rows are what a host uploads, tightly packed.

use vstd::prelude::*;

use crate::fx::{
    sat64, tdiv, tdiv128, lemma_abs_mul_le, fx_add, fx_sub, fx_mul, fx_div, spec_fx_add,
    spec_fx_sub, spec_fx_mul, spec_fx_div, SCALE,
};
use crate::trig::{spec_sin, spec_cos, sin_fp, cos_fp, PI_FX};

verus! {

/// A fixed-point three-component vector.
#[derive(Clone, Copy, Debug, PartialEq, Eq, Structural)]
pub struct Vec3 {
    pub x: i64,
    pub y: i64,
    pub z: i64,
}

/// A fixed-point 4x4 matrix, row-major: `mRC` is row `R`, column `C`.
#[derive(Clone, Copy, Debug, PartialEq, Eq, Structural)]
pub struct Mat4 {
    pub m00: i64,
    pub m01: i64,
    pub m02: i64,
    pub m03: i64,
    pub m10: i64,
    pub m11: i64,
    pub m12: i64,
    pub m13: i64,
    pub m20: i64,
    pub m21: i64,
    pub m22: i64,
    pub m23: i64,
    pub m30: i64,
    pub m31: i64,
    pub m32: i64,
    pub m33: i64,
}

pub open spec fn spec_fx_neg(a: i64) -> i64 {
    sat64(-(a as int))
}

pub open spec fn spec_vec_sub(a: Vec3, b: Vec3) -> Vec3 {
    Vec3 { x: spec_fx_sub(a.x, b.x), y: spec_fx_sub(a.y, b.y), z: spec_fx_sub(a.z, b.z) }
}

pub open spec fn spec_dot(a: Vec3, b: Vec3) -> i64 {
    spec_fx_add(
        spec_fx_add(spec_fx_mul(a.x, b.x), spec_fx_mul(a.y, b.y)),
        spec_fx_mul(a.z, b.z),
    )
}

pub open spec fn spec_cross(a: Vec3, b: Vec3) -> Vec3 {
    Vec3 {
        x: spec_fx_sub(spec_fx_mul(a.y, b.z), spec_fx_mul(a.z, b.y)),
        y: spec_fx_sub(spec_fx_mul(a.z, b.x), spec_fx_mul(a.x, b.z)),
        z: spec_fx_sub(spec_fx_mul(a.x, b.y), spec_fx_mul(a.y, b.x)),
    }
}

/// Integer square root: the largest `r` with `r * r <= n`.
pub open spec fn spec_isqrt(n: int) -> int
    decreases n,
{
    if n <= 0 {
        0
    } else {
        let r = spec_isqrt(n - 1);
        if (r + 1) * (r + 1) <= n {
            r + 1
        } else {
            r
        }
    }
}

/// `spec_isqrt` is the integer square root: nonnegative, and squeezed
/// between the squares on either side.
pub proof fn lemma_isqrt_props(n: int)
    requires
        0 <= n,
    ensures
        0 <= spec_isqrt(n),
        spec_isqrt(n) * spec_isqrt(n) <= n,
        n < (spec_isqrt(n) + 1) * (spec_isqrt(n) + 1),
    decreases n,
{
    if n == 0 {
    } else {
        lemma_isqrt_props(n - 1);
        let r = spec_isqrt(n - 1);
        if (r + 1) * (r + 1) <= n {
            assert(n - 1 < (r + 1) * (r + 1));
            assert(n < (r + 2) * (r + 2)) by (nonlinear_arith)
                requires
                    n == (r + 1) * (r + 1),
                    r >= 0,
            ;
        }
    }
}

/// Any `r` with `r * r <= n < (r + 1) * (r + 1)` is `spec_isqrt(n)`.
pub proof fn lemma_isqrt_unique(n: int, r: int)
    requires
        0 <= n,
        0 <= r,
        r * r <= n,
        n < (r + 1) * (r + 1),
    ensures
        r == spec_isqrt(n),
{
    lemma_isqrt_props(n);
    let s = spec_isqrt(n);
    if r < s {
        assert(r + 1 <= s);
        assert((r + 1) * (r + 1) <= s * s) by (nonlinear_arith)
            requires
                0 <= r + 1 <= s,
        ;
    } else if s < r {
        assert(s + 1 <= r);
        assert((s + 1) * (s + 1) <= r * r) by (nonlinear_arith)
            requires
                0 <= s + 1 <= r,
        ;
    }
}

/// Integer square root by bisection.
fn isqrt(n: u128) -> (r: u64)
    ensures
        r as int == spec_isqrt(n as int),
{
    let mut lo: u128 = 0;
    let mut hi: u128 = 0x1_0000_0000_0000_0000;
    proof {
        assert((hi as int) * (hi as int) > n as int) by (nonlinear_arith)
            requires
                hi == 0x1_0000_0000_0000_0000u128,
                n <= 0xffff_ffff_ffff_ffff_ffff_ffff_ffff_ffffu128,
        ;
    }
    while lo + 1 < hi
        invariant
            lo < hi,
            hi <= 0x1_0000_0000_0000_0000,
            (lo as int) * (lo as int) <= n as int,
            (n as int) < (hi as int) * (hi as int),
        decreases hi - lo,
    {
        let mid: u128 = lo + (hi - lo) / 2;
        proof {
            assert((mid as int) * (mid as int) < 0x1_0000_0000_0000_0000_0000_0000_0000_0000)
                by (nonlinear_arith)
                requires
                    mid < 0x1_0000_0000_0000_0000u128,
            ;
        }
        if mid * mid <= n {
            lo = mid;
        } else {
            hi = mid;
        }
    }
    proof {
        lemma_isqrt_unique(n as int, lo as int);
    }
    lo as u64
}

/// A vector scaled to unit length; the zero vector stays zero (degenerate
/// input yields garbage rather than a failure).
pub open spec fn spec_normalize(v: Vec3) -> Vec3 {
    let n2 = (v.x as int) * (v.x as int) + (v.y as int) * (v.y as int) + (v.z as int) * (
    v.z as int);
    let len = spec_isqrt(n2);
    if len == 0 {
        Vec3 { x: 0, y: 0, z: 0 }
    } else {
        Vec3 {
            x: sat64(tdiv((v.x as int) * SCALE, len)),
            y: sat64(tdiv((v.y as int) * SCALE, len)),
            z: sat64(tdiv((v.z as int) * SCALE, len)),
        }
    }
}

fn normalize(v: Vec3) -> (r: Vec3)
    ensures
        r == spec_normalize(v),
{
    proof {
        lemma_abs_mul_le(v.x as int, v.x as int, 0x8000_0000_0000_0000, 0x8000_0000_0000_0000);
        lemma_abs_mul_le(v.y as int, v.y as int, 0x8000_0000_0000_0000, 0x8000_0000_0000_0000);
        lemma_abs_mul_le(v.z as int, v.z as int, 0x8000_0000_0000_0000, 0x8000_0000_0000_0000);
        assert((v.x as int) * (v.x as int) >= 0) by (nonlinear_arith);
        assert((v.y as int) * (v.y as int) >= 0) by (nonlinear_arith);
        assert((v.z as int) * (v.z as int) >= 0) by (nonlinear_arith);
    }
    let xx: u128 = ((v.x as i128) * (v.x as i128)) as u128;
    let yy: u128 = ((v.y as i128) * (v.y as i128)) as u128;
    let zz: u128 = ((v.z as i128) * (v.z as i128)) as u128;
    let n2: u128 = xx + yy + zz;
    let len: u64 = isqrt(n2);
    if len == 0 {
        Vec3 { x: 0, y: 0, z: 0 }
    } else {
        Vec3 {
            x: div_sat(v.x, len),
            y: div_sat(v.y, len),
            z: div_sat(v.z, len),
        }
    }
}

/// `(a * SCALE) / len`, saturated; `len` is a positive raw length.
fn div_sat(a: i64, len: u64) -> (r: i64)
    requires
        len > 0,
    ensures
        r == sat64(tdiv((a as int) * SCALE, len as int)),
{
    proof {
        lemma_abs_mul_le(a as int, SCALE as int, 0x8000_0000_0000_0000, SCALE as int);
    }
    let p: i128 = (a as i128) * (SCALE as i128);
    let q: i128 = tdiv128(p, len as i128);
    if q < -(crate::fx::FX_MAX as i128) {
        -crate::fx::FX_MAX
    } else if q > crate::fx::FX_MAX as i128 {
        crate::fx::FX_MAX
    } else {
        q as i64
    }
}

fn vec_sub(a: Vec3, b: Vec3) -> (r: Vec3)
    ensures
        r == spec_vec_sub(a, b),
{
    Vec3 { x: fx_sub(a.x, b.x), y: fx_sub(a.y, b.y), z: fx_sub(a.z, b.z) }
}

fn dot(a: Vec3, b: Vec3) -> (r: i64)
    ensures
        r == spec_dot(a, b),
{
    fx_add(fx_add(fx_mul(a.x, b.x), fx_mul(a.y, b.y)), fx_mul(a.z, b.z))
}

fn cross(a: Vec3, b: Vec3) -> (r: Vec3)
    ensures
        r == spec_cross(a, b),
{
    Vec3 {
        x: fx_sub(fx_mul(a.y, b.z), fx_mul(a.z, b.y)),
        y: fx_sub(fx_mul(a.z, b.x), fx_mul(a.x, b.z)),
        z: fx_sub(fx_mul(a.x, b.y), fx_mul(a.y, b.x)),
    }
}

fn fx_neg(a: i64) -> (r: i64)
    ensures
        r == spec_fx_neg(a),
{
    if a <= -crate::fx::FX_MAX {
        crate::fx::FX_MAX
    } else if a >= crate::fx::FX_MAX {
        -crate::fx::FX_MAX
    } else {
        -a
    }
}

/// Right-handed look-at view matrix.
pub open spec fn spec_look_at(eye: Vec3, target: Vec3, up: Vec3) -> Mat4 {
    let f = spec_normalize(spec_vec_sub(target, eye));
    let s = spec_normalize(spec_cross(f, up));
    let u = spec_cross(s, f);
    Mat4 {
        m00: s.x,
        m01: s.y,
        m02: s.z,
        m03: spec_fx_neg(spec_dot(s, eye)),
        m10: u.x,
        m11: u.y,
        m12: u.z,
        m13: spec_fx_neg(spec_dot(u, eye)),
        m20: spec_fx_neg(f.x),
        m21: spec_fx_neg(f.y),
        m22: spec_fx_neg(f.z),
        m23: spec_dot(f, eye),
        m30: 0,
        m31: 0,
        m32: 0,
        m33: SCALE,
    }
}

pub fn look_at_rh(eye: Vec3, target: Vec3, up: Vec3) -> (m: Mat4)
    ensures
        m == spec_look_at(eye, target, up),
{
    let f = normalize(vec_sub(target, eye));
    let s = normalize(cross(f, up));
    let u = cross(s, f);
    Mat4 {
        m00: s.x,
        m01: s.y,
        m02: s.z,
        m03: fx_neg(dot(s, eye)),
        m10: u.x,
        m11: u.y,
        m12: u.z,
        m13: fx_neg(dot(u, eye)),
        m20: fx_neg(f.x),
        m21: fx_neg(f.y),
        m22: fx_neg(f.z),
        m23: dot(f, eye),
        m30: 0,
        m31: 0,
        m32: 0,
        m33: SCALE,
    }
}

/// Half of an angle given in degrees, converted to radians.
pub open spec fn spec_half_rad(deg: i64) -> i64 {
    sat64(tdiv((deg as int) * (PI_FX as int), 360 * SCALE))
}

fn half_rad(deg: i64) -> (r: i64)
    ensures
        r == spec_half_rad(deg),
{
    proof {
        lemma_abs_mul_le(deg as int, PI_FX as int, 0x8000_0000_0000_0000, PI_FX as int);
    }
    let p: i128 = (deg as i128) * (PI_FX as i128);
    let q: i128 = tdiv128(p, 360_000_000);
    if q < -(crate::fx::FX_MAX as i128) {
        -crate::fx::FX_MAX
    } else if q > crate::fx::FX_MAX as i128 {
        crate::fx::FX_MAX
    } else {
        q as i64
    }
}

/// Perspective projection: field of view in degrees, right-handed,
/// clip depth in `[-1, 1]` before correction.
pub open spec fn spec_perspective(fovy_deg: i64, aspect: i64, znear: i64, zfar: i64) -> Mat4 {
    let half = spec_half_rad(fovy_deg);
    let cot = spec_fx_div(spec_cos(half), spec_sin(half));
    let nf = spec_fx_sub(znear, zfar);
    Mat4 {
        m00: spec_fx_div(cot, aspect),
        m01: 0,
        m02: 0,
        m03: 0,
        m10: 0,
        m11: cot,
        m12: 0,
        m13: 0,
        m20: 0,
        m21: 0,
        m22: spec_fx_div(spec_fx_add(zfar, znear), nf),
        m23: spec_fx_div(spec_fx_mul(spec_fx_mul(2_000_000, zfar), znear), nf),
        m30: 0,
        m31: 0,
        m32: (-SCALE) as i64,
        m33: 0,
    }
}

pub fn perspective(fovy_deg: i64, aspect: i64, znear: i64, zfar: i64) -> (m: Mat4)
    ensures
        m == spec_perspective(fovy_deg, aspect, znear, zfar),
{
    let half = half_rad(fovy_deg);
    let cot = fx_div(cos_fp(half), sin_fp(half));
    let nf = fx_sub(znear, zfar);
    Mat4 {
        m00: fx_div(cot, aspect),
        m01: 0,
        m02: 0,
        m03: 0,
        m10: 0,
        m11: cot,
        m12: 0,
        m13: 0,
        m20: 0,
        m21: 0,
        m22: fx_div(fx_add(zfar, znear), nf),
        m23: fx_div(fx_mul(fx_mul(2_000_000, zfar), znear), nf),
        m30: 0,
        m31: 0,
        m32: -SCALE,
        m33: 0,
    }
}

/// The fixed clip-space correction: depth `[-1, 1]` remapped to `[0, 1]`.
pub open spec fn spec_correction() -> Mat4 {
    Mat4 {
        m00: SCALE,
        m01: 0,
        m02: 0,
        m03: 0,
        m10: 0,
        m11: SCALE,
        m12: 0,
        m13: 0,
        m20: 0,
        m21: 0,
        m22: 500_000,
        m23: 500_000,
        m30: 0,
        m31: 0,
        m32: 0,
        m33: SCALE,
    }
}

pub fn correction() -> (m: Mat4)
    ensures
        m == spec_correction(),
{
    Mat4 {
        m00: SCALE,
        m01: 0,
        m02: 0,
        m03: 0,
        m10: 0,
        m11: SCALE,
        m12: 0,
        m13: 0,
        m20: 0,
        m21: 0,
        m22: 500_000,
        m23: 500_000,
        m30: 0,
        m31: 0,
        m32: 0,
        m33: SCALE,
    }
}

pub open spec fn spec_dot4(a0: i64, a1: i64, a2: i64, a3: i64, b0: i64, b1: i64, b2: i64, b3: i64) -> i64 {
    spec_fx_add(
        spec_fx_add(spec_fx_add(spec_fx_mul(a0, b0), spec_fx_mul(a1, b1)), spec_fx_mul(a2, b2)),
        spec_fx_mul(a3, b3),
    )
}

fn dot4(a0: i64, a1: i64, a2: i64, a3: i64, b0: i64, b1: i64, b2: i64, b3: i64) -> (r: i64)
    ensures
        r == spec_dot4(a0, a1, a2, a3, b0, b1, b2, b3),
{
    fx_add(fx_add(fx_add(fx_mul(a0, b0), fx_mul(a1, b1)), fx_mul(a2, b2)), fx_mul(a3, b3))
}

pub open spec fn spec_mat_mul(a: Mat4, b: Mat4) -> Mat4 {
    Mat4 {
        m00: spec_dot4(a.m00, a.m01, a.m02, a.m03, b.m00, b.m10, b.m20, b.m30),
        m01: spec_dot4(a.m00, a.m01, a.m02, a.m03, b.m01, b.m11, b.m21, b.m31),
        m02: spec_dot4(a.m00, a.m01, a.m02, a.m03, b.m02, b.m12, b.m22, b.m32),
        m03: spec_dot4(a.m00, a.m01, a.m02, a.m03, b.m03, b.m13, b.m23, b.m33),
        m10: spec_dot4(a.m10, a.m11, a.m12, a.m13, b.m00, b.m10, b.m20, b.m30),
        m11: spec_dot4(a.m10, a.m11, a.m12, a.m13, b.m01, b.m11, b.m21, b.m31),
        m12: spec_dot4(a.m10, a.m11, a.m12, a.m13, b.m02, b.m12, b.m22, b.m32),
        m13: spec_dot4(a.m10, a.m11, a.m12, a.m13, b.m03, b.m13, b.m23, b.m33),
        m20: spec_dot4(a.m20, a.m21, a.m22, a.m23, b.m00, b.m10, b.m20, b.m30),
        m21: spec_dot4(a.m20, a.m21, a.m22, a.m23, b.m01, b.m11, b.m21, b.m31),
        m22: spec_dot4(a.m20, a.m21, a.m22, a.m23, b.m02, b.m12, b.m22, b.m32),
        m23: spec_dot4(a.m20, a.m21, a.m22, a.m23, b.m03, b.m13, b.m23, b.m33),
        m30: spec_dot4(a.m30, a.m31, a.m32, a.m33, b.m00, b.m10, b.m20, b.m30),
        m31: spec_dot4(a.m30, a.m31, a.m32, a.m33, b.m01, b.m11, b.m21, b.m31),
        m32: spec_dot4(a.m30, a.m31, a.m32, a.m33, b.m02, b.m12, b.m22, b.m32),
        m33: spec_dot4(a.m30, a.m31, a.m32, a.m33, b.m03, b.m13, b.m23, b.m33),
    }
}

pub fn mat_mul(a: &Mat4, b: &Mat4) -> (m: Mat4)
    ensures
        m == spec_mat_mul(*a, *b),
{
    Mat4 {
        m00: dot4(a.m00, a.m01, a.m02, a.m03, b.m00, b.m10, b.m20, b.m30),
        m01: dot4(a.m00, a.m01, a.m02, a.m03, b.m01, b.m11, b.m21, b.m31),
        m02: dot4(a.m00, a.m01, a.m02, a.m03, b.m02, b.m12, b.m22, b.m32),
        m03: dot4(a.m00, a.m01, a.m02, a.m03, b.m03, b.m13, b.m23, b.m33),
        m10: dot4(a.m10, a.m11, a.m12, a.m13, b.m00, b.m10, b.m20, b.m30),
        m11: dot4(a.m10, a.m11, a.m12, a.m13, b.m01, b.m11, b.m21, b.m31),
        m12: dot4(a.m10, a.m11, a.m12, a.m13, b.m02, b.m12, b.m22, b.m32),
        m13: dot4(a.m10, a.m11, a.m12, a.m13, b.m03, b.m13, b.m23, b.m33),
        m20: dot4(a.m20, a.m21, a.m22, a.m23, b.m00, b.m10, b.m20, b.m30),
        m21: dot4(a.m20, a.m21, a.m22, a.m23, b.m01, b.m11, b.m21, b.m31),
        m22: dot4(a.m20, a.m21, a.m22, a.m23, b.m02, b.m12, b.m22, b.m32),
        m23: dot4(a.m20, a.m21, a.m22, a.m23, b.m03, b.m13, b.m23, b.m33),
        m30: dot4(a.m30, a.m31, a.m32, a.m33, b.m00, b.m10, b.m20, b.m30),
        m31: dot4(a.m30, a.m31, a.m32, a.m33, b.m01, b.m11, b.m21, b.m31),
        m32: dot4(a.m30, a.m31, a.m32, a.m33, b.m02, b.m12, b.m22, b.m32),
        m33: dot4(a.m30, a.m31, a.m32, a.m33, b.m03, b.m13, b.m23, b.m33),
    }
}

/// The identity transform.
pub open spec fn spec_identity() -> Mat4 {
    Mat4 {
        m00: SCALE,
        m01: 0,
        m02: 0,
        m03: 0,
        m10: 0,
        m11: SCALE,
        m12: 0,
        m13: 0,
        m20: 0,
        m21: 0,
        m22: SCALE,
        m23: 0,
        m30: 0,
        m31: 0,
        m32: 0,
        m33: SCALE,
    }
}

pub fn identity() -> (m: Mat4)
    ensures
        m == spec_identity(),
{
    Mat4 {
        m00: SCALE,
        m01: 0,
        m02: 0,
        m03: 0,
        m10: 0,
        m11: SCALE,
        m12: 0,
        m13: 0,
        m20: 0,
        m21: 0,
        m22: SCALE,
        m23: 0,
        m30: 0,
        m31: 0,
        m32: 0,
        m33: SCALE,
    }
}

} // verus!
