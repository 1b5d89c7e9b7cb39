use orbit_camera::camera::Camera;
use orbit_camera::fx::{fx_add, fx_clamp, fx_div, fx_mul, fx_sub, FX_MAX, SCALE};
use orbit_camera::matrix::{identity, look_at_rh, mat_mul, perspective, Mat4, Vec3};
use orbit_camera::trig::{cos_fp, sin_fp, HALF_PI_FX, TWO_PI_FX};

const S: i64 = 1_000_000;

#[test]
fn fixed_point_basics() {
    assert_eq!(SCALE, S);
    assert_eq!(fx_add(250_000, 500_000), 750_000);
    assert_eq!(fx_sub(250_000, 500_000), -250_000);
    assert_eq!(fx_mul(3 * S, 2 * S), 6 * S);
    assert_eq!(fx_mul(-3 * S, 2 * S), -6 * S);
    assert_eq!(fx_div(S, 3 * S), 333_333);
    assert_eq!(fx_div(-S, 3 * S), -333_333);
    assert_eq!(fx_clamp(5, 0, 3), 3);
    assert_eq!(fx_clamp(-5, 0, 3), 0);
    assert_eq!(fx_clamp(2, 0, 3), 2);
}

#[test]
fn fixed_point_saturates_and_tolerates_zero_divisors() {
    assert_eq!(fx_add(FX_MAX, FX_MAX), FX_MAX);
    assert_eq!(fx_sub(-FX_MAX, FX_MAX), -FX_MAX);
    assert_eq!(fx_mul(FX_MAX, FX_MAX), FX_MAX);
    assert_eq!(fx_mul(FX_MAX, -FX_MAX), -FX_MAX);
    assert_eq!(fx_div(7 * S, 0), 0);
}

#[test]
fn trig_special_values() {
    assert_eq!(sin_fp(0), 0);
    assert_eq!(cos_fp(0), S);
    assert_eq!(sin_fp(HALF_PI_FX), S);
    assert_eq!(sin_fp(-HALF_PI_FX), -S);
    // thirty degrees: sine is one half
    assert_eq!(sin_fp(523_599), 500_000);
    // reference values for half a radian
    assert_eq!(sin_fp(-500_000), -479_426);
    assert_eq!(cos_fp(-500_000), 877_583);
    assert_eq!(cos_fp(500_000), 877_583);
}

#[test]
fn trig_is_periodic_and_bounded() {
    let samples: [i64; 6] = [0, 700_000, -1_234_567, 3_000_000, 5_000_000, -6_000_000];
    for &x in samples.iter() {
        assert_eq!(sin_fp(x + TWO_PI_FX), sin_fp(x));
        assert_eq!(cos_fp(x - TWO_PI_FX), cos_fp(x));
        assert!(sin_fp(x) >= -S && sin_fp(x) <= S);
        assert!(cos_fp(x) >= -S && cos_fp(x) <= S);
    }
}

#[test]
fn look_at_from_straight_ahead_is_a_pure_translation() {
    let eye = Vec3 { x: 0, y: 0, z: 4 * S };
    let target = Vec3 { x: 0, y: 0, z: 0 };
    let up = Vec3 { x: 0, y: S, z: 0 };
    let v = look_at_rh(eye, target, up);
    assert_eq!(v.m00, S);
    assert_eq!(v.m11, S);
    assert_eq!(v.m22, S);
    assert_eq!(v.m23, -4 * S);
    assert_eq!(v.m03, 0);
    assert_eq!(v.m13, 0);
    assert_eq!(v.m33, S);
    assert_eq!(v.m01, 0);
    assert_eq!(v.m10, 0);
    assert_eq!(v.m20, 0);
    assert_eq!(v.m30, 0);
}

#[test]
fn perspective_coefficients_for_the_reference_frustum() {
    let p = perspective(45 * S, S, S / 10, 100 * S);
    // cot(22.5 degrees) is about 2.414214
    assert_eq!(p.m00, 2_414_214);
    assert_eq!(p.m11, 2_414_214);
    // depth coefficients: -(far + near) / (far - near) and -2*far*near / (far - near)
    assert_eq!(p.m22, -1_002_002);
    assert_eq!(p.m23, -200_200);
    assert_eq!(p.m32, -S);
    assert_eq!(p.m33, 0);
}

#[test]
fn matrix_multiply_by_identity_is_itself() {
    let p = perspective(45 * S, S, S / 10, 100 * S);
    let i = identity();
    assert_eq!(mat_mul(&p, &i), p);
    assert_eq!(mat_mul(&i, &p), p);
}

#[test]
fn view_projection_matches_the_reference_matrix() {
    let cam = Camera {
        eye: Vec3 { x: 0, y: 0, z: 4 * S },
        target: Vec3 { x: 0, y: 0, z: 0 },
        up: Vec3 { x: 0, y: S, z: 0 },
        aspect: S,
        fovy: 45 * S,
        znear: S / 10,
        zfar: 100 * S,
    };
    let m = cam.build_view_projection_matrix();
    let expected = Mat4 {
        m00: 2_414_214,
        m01: 0,
        m02: 0,
        m03: 0,
        m10: 0,
        m11: 2_414_214,
        m12: 0,
        m13: 0,
        m20: 0,
        m21: 0,
        m22: -1_001_001,
        m23: 3_903_904,
        m30: 0,
        m31: 0,
        m32: -S,
        m33: 4 * S,
    };
    assert_eq!(m, expected);
}
