use solarsim::fixed::{fp_clamp, fp_cos, fp_div, fp_mul, fp_sin, isqrt, FP_HALF_PI, FP_ONE, FP_PI};
use solarsim::mat::{normal_matrix, Mat4};
use solarsim::noise::{FractalKind, NoiseKind};
use solarsim::planets::{create_earth_noises, create_jupiter_noise, create_mercury_noises};
use solarsim::transforms::{create_model_matrix, create_view_matrix, create_viewport_matrix};
use solarsim::vec3::Vec3;

#[test]
fn fixed_point_products_and_quotients() {
    assert_eq!(fp_mul(2 * FP_ONE, 3 * FP_ONE), 6 * FP_ONE);
    assert_eq!(fp_mul(-2 * FP_ONE, 3 * FP_ONE), -6 * FP_ONE);
    assert_eq!(fp_mul(FP_ONE / 2, FP_ONE / 2), FP_ONE / 4);
    assert_eq!(fp_div(6 * FP_ONE, 3 * FP_ONE), 2 * FP_ONE);
    assert_eq!(fp_div(FP_ONE, 2 * FP_ONE), FP_ONE / 2);
    assert_eq!(fp_div(-FP_ONE, 2 * FP_ONE), -(FP_ONE / 2));
}

#[test]
fn clamp_bounds() {
    assert_eq!(fp_clamp(5, 0, 10), 5);
    assert_eq!(fp_clamp(-5, 0, 10), 0);
    assert_eq!(fp_clamp(50, 0, 10), 10);
}

#[test]
fn integer_square_roots() {
    assert_eq!(isqrt(0), 0);
    assert_eq!(isqrt(1), 1);
    assert_eq!(isqrt(3), 1);
    assert_eq!(isqrt(4), 2);
    assert_eq!(isqrt(99), 9);
    assert_eq!(isqrt(100), 10);
    assert_eq!(isqrt(u64::MAX), 4294967295);
}

#[test]
fn sine_and_cosine_land_in_the_unit_range_with_the_right_signs() {
    assert_eq!(fp_sin(0), 0);
    assert_eq!(fp_sin(FP_PI), 0);
    // The rounded rational approximation is exact at the axis points, so a
    // zero rotation is exactly the identity.
    assert_eq!(fp_sin(FP_HALF_PI), FP_ONE);
    assert_eq!(fp_cos(0), FP_ONE);
    assert!(fp_sin(FP_PI + FP_HALF_PI) < -60000);
    assert!(fp_cos(FP_PI) < -60000);
    for a in [-300000i64, -1, 0, 1, 12345, 200000, 411774, 500000] {
        let s = fp_sin(a);
        let c = fp_cos(a);
        assert!(s >= -FP_ONE && s <= FP_ONE);
        assert!(c >= -FP_ONE && c <= FP_ONE);
    }
}

#[test]
fn vector_length_and_normalize() {
    let v = Vec3::new(3 * FP_ONE, 4 * FP_ONE, 0);
    assert_eq!(v.length(), 5 * FP_ONE);
    let n = v.normalized();
    assert_eq!(n.x, fp_div(3 * FP_ONE, 5 * FP_ONE));
    assert_eq!(n.y, fp_div(4 * FP_ONE, 5 * FP_ONE));
    assert_eq!(n.z, 0);
    let z = Vec3::new(0, 0, 0).normalized();
    assert_eq!((z.x, z.y, z.z), (0, 0, 0));
}

#[test]
fn model_matrix_without_rotation_is_scale_plus_translation() {
    let m = create_model_matrix(
        Vec3::new(FP_ONE, 2 * FP_ONE, 3 * FP_ONE),
        2 * FP_ONE,
        Vec3::new(0, 0, 0),
    );
    assert_eq!(m.m00, 2 * FP_ONE);
    assert_eq!(m.m11, 2 * FP_ONE);
    assert_eq!(m.m22, 2 * FP_ONE);
    assert_eq!(m.m03, FP_ONE);
    assert_eq!(m.m13, 2 * FP_ONE);
    assert_eq!(m.m23, 3 * FP_ONE);
    assert_eq!(m.m33, FP_ONE);
    assert_eq!(m.m01, 0);
    assert_eq!(m.m30, 0);
}

#[test]
fn view_matrix_looking_down_negative_z() {
    let m = create_view_matrix(
        Vec3::new(0, 0, 15 * FP_ONE),
        Vec3::new(0, 0, 0),
        Vec3::new(0, FP_ONE, 0),
    );
    assert_eq!(m.m00, FP_ONE);
    assert_eq!(m.m11, FP_ONE);
    assert_eq!(m.m22, FP_ONE);
    assert_eq!(m.m23, -15 * FP_ONE);
    assert_eq!(m.m03, 0);
    assert_eq!(m.m13, 0);
    assert_eq!(m.m33, FP_ONE);
}

#[test]
fn viewport_matrix_maps_ndc_to_pixels() {
    let m = create_viewport_matrix(800 * FP_ONE, 600 * FP_ONE);
    assert_eq!(m.m00, 400 * FP_ONE);
    assert_eq!(m.m03, 400 * FP_ONE);
    assert_eq!(m.m11, -300 * FP_ONE);
    assert_eq!(m.m13, 300 * FP_ONE);
    assert_eq!(m.m22, FP_ONE);
    assert_eq!(m.m33, FP_ONE);
}

#[test]
fn normal_matrix_of_identity_is_identity() {
    let n = normal_matrix(&Mat4::identity());
    assert_eq!(n.m00, FP_ONE);
    assert_eq!(n.m11, FP_ONE);
    assert_eq!(n.m22, FP_ONE);
    assert_eq!(n.m01, 0);
    assert_eq!(n.m10, 0);
}

#[test]
fn earth_noise_configurations() {
    let n = create_earth_noises();
    assert_eq!(n.len(), 5);
    assert_eq!(n[0].seed, 42);
    assert_eq!(n[0].kind, NoiseKind::Perlin);
    assert_eq!(n[0].frequency, FP_ONE);
    assert_eq!(n[0].fractal, FractalKind::FBm);
    assert_eq!(n[0].octaves, 5);
    assert_eq!(n[3].seed, 40);
    assert_eq!(n[3].octaves, 1);
    assert_eq!(n[4].frequency, 655);
    assert_eq!(n[4].lacunarity, 3 * FP_ONE);
}

#[test]
fn jupiter_and_mercury_noise_configurations() {
    let j = create_jupiter_noise();
    assert_eq!(j.len(), 3);
    assert_eq!(j[0].kind, NoiseKind::OpenSimplex2);
    assert_eq!(j[0].frequency, 5 * FP_ONE);
    let m = create_mercury_noises();
    assert_eq!(m.len(), 3);
    assert_eq!(m[0].kind, NoiseKind::Cellular);
    assert_eq!(m[1].fractal, FractalKind::Ridged);
    assert_eq!(m[2].frequency, 6554);
}
