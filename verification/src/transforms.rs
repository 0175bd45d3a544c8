use vstd::prelude::*;

use crate::fixed::{fp_cos, fp_div, fp_divv, fp_mul, fp_mulv, fp_sin, spec_cos, spec_sin, tdiv, FP_ONE, FP_SAT};
use crate::mat::{mat_in_sat, spec_mat_mul, Mat4};
use crate::vec3::{spec_vcross, spec_vdot, spec_vnormalized, spec_vsub, vec_in_sat, Vec3};

verus! {

/// Near clipping plane distance, fixed point (0.1).
pub const NEAR_FP: i64 = 6554;

/// Far clipping plane distance, fixed point (1000.0).
pub const FAR_FP: i64 = 65536000;

/// Half of the vertical field of view, fixed-point radians (pi / 8, i.e. a
/// 45-degree field of view).
pub const FOV_HALF_FP: i64 = 25736;

/// Largest magnitude accepted for an angle handed to the trigonometric
/// helpers.
pub const ANGLE_LIM: i64 = 0x0080_0000_0000_0000;

/// Rotation about the x axis, from a (sine, cosine) pair.
pub open spec fn spec_rot_x(s: int, c: int) -> Mat4 {
    Mat4 {
        m00: FP_ONE,
        m01: 0,
        m02: 0,
        m03: 0,
        m10: 0,
        m11: c as i64,
        m12: (0 - s) as i64,
        m13: 0,
        m20: 0,
        m21: s as i64,
        m22: c as i64,
        m23: 0,
        m30: 0,
        m31: 0,
        m32: 0,
        m33: FP_ONE,
    }
}

/// Rotation about the y axis, from a (sine, cosine) pair.
pub open spec fn spec_rot_y(s: int, c: int) -> Mat4 {
    Mat4 {
        m00: c as i64,
        m01: 0,
        m02: s as i64,
        m03: 0,
        m10: 0,
        m11: FP_ONE,
        m12: 0,
        m13: 0,
        m20: (0 - s) as i64,
        m21: 0,
        m22: c as i64,
        m23: 0,
        m30: 0,
        m31: 0,
        m32: 0,
        m33: FP_ONE,
    }
}

/// Rotation about the z axis, from a (sine, cosine) pair.
pub open spec fn spec_rot_z(s: int, c: int) -> Mat4 {
    Mat4 {
        m00: c as i64,
        m01: (0 - s) as i64,
        m02: 0,
        m03: 0,
        m10: s as i64,
        m11: c as i64,
        m12: 0,
        m13: 0,
        m20: 0,
        m21: 0,
        m22: FP_ONE,
        m23: 0,
        m30: 0,
        m31: 0,
        m32: 0,
        m33: FP_ONE,
    }
}

/// Uniform scale plus translation.
pub open spec fn spec_translate_scale(t: Vec3, scale: i64) -> Mat4 {
    Mat4 {
        m00: scale,
        m01: 0,
        m02: 0,
        m03: t.x,
        m10: 0,
        m11: scale,
        m12: 0,
        m13: t.y,
        m20: 0,
        m21: 0,
        m22: scale,
        m23: t.z,
        m30: 0,
        m31: 0,
        m32: 0,
        m33: FP_ONE,
    }
}

/// The model matrix: translation and uniform scale applied to the rotation
/// `Rz * Ry * Rx` of the given Euler angles.
pub open spec fn spec_model_matrix(translation: Vec3, scale: i64, rotation: Vec3) -> Mat4 {
    let rx = spec_rot_x(spec_sin(rotation.x as int), spec_cos(rotation.x as int));
    let ry = spec_rot_y(spec_sin(rotation.y as int), spec_cos(rotation.y as int));
    let rz = spec_rot_z(spec_sin(rotation.z as int), spec_cos(rotation.z as int));
    let rot = spec_mat_mul(spec_mat_mul(rz, ry), rx);
    spec_mat_mul(spec_translate_scale(translation, scale), rot)
}

fn rot_x(s: i64, c: i64) -> (r: Mat4)
    requires
        -FP_ONE <= s <= FP_ONE,
        -FP_ONE <= c <= FP_ONE,
    ensures
        r == spec_rot_x(s as int, c as int),
        mat_in_sat(r),
{
    Mat4 {
        m00: FP_ONE,
        m01: 0,
        m02: 0,
        m03: 0,
        m10: 0,
        m11: c,
        m12: -s,
        m13: 0,
        m20: 0,
        m21: s,
        m22: c,
        m23: 0,
        m30: 0,
        m31: 0,
        m32: 0,
        m33: FP_ONE,
    }
}

fn rot_y(s: i64, c: i64) -> (r: Mat4)
    requires
        -FP_ONE <= s <= FP_ONE,
        -FP_ONE <= c <= FP_ONE,
    ensures
        r == spec_rot_y(s as int, c as int),
        mat_in_sat(r),
{
    Mat4 {
        m00: c,
        m01: 0,
        m02: s,
        m03: 0,
        m10: 0,
        m11: FP_ONE,
        m12: 0,
        m13: 0,
        m20: -s,
        m21: 0,
        m22: c,
        m23: 0,
        m30: 0,
        m31: 0,
        m32: 0,
        m33: FP_ONE,
    }
}

fn rot_z(s: i64, c: i64) -> (r: Mat4)
    requires
        -FP_ONE <= s <= FP_ONE,
        -FP_ONE <= c <= FP_ONE,
    ensures
        r == spec_rot_z(s as int, c as int),
        mat_in_sat(r),
{
    Mat4 {
        m00: c,
        m01: -s,
        m02: 0,
        m03: 0,
        m10: s,
        m11: c,
        m12: 0,
        m13: 0,
        m20: 0,
        m21: 0,
        m22: FP_ONE,
        m23: 0,
        m30: 0,
        m31: 0,
        m32: 0,
        m33: FP_ONE,
    }
}

/// Build the model matrix for a body from its translation, uniform scale and
/// Euler rotation angles (fixed-point radians).
#[verifier::rlimit(100)]
pub fn create_model_matrix(translation: Vec3, scale: i64, rotation: Vec3) -> (r: Mat4)
    requires
        vec_in_sat(translation),
        -FP_SAT <= scale <= FP_SAT,
        -ANGLE_LIM <= rotation.x <= ANGLE_LIM,
        -ANGLE_LIM <= rotation.y <= ANGLE_LIM,
        -ANGLE_LIM <= rotation.z <= ANGLE_LIM,
    ensures
        r == spec_model_matrix(translation, scale, rotation),
        mat_in_sat(r),
{
    let rx = rot_x(fp_sin(rotation.x), fp_cos(rotation.x));
    let ry = rot_y(fp_sin(rotation.y), fp_cos(rotation.y));
    let rz = rot_z(fp_sin(rotation.z), fp_cos(rotation.z));
    let rot = rz.mul_mat(&ry).mul_mat(&rx);
    let tm = Mat4 {
        m00: scale,
        m01: 0,
        m02: 0,
        m03: translation.x,
        m10: 0,
        m11: scale,
        m12: 0,
        m13: translation.y,
        m20: 0,
        m21: 0,
        m22: scale,
        m23: translation.z,
        m30: 0,
        m31: 0,
        m32: 0,
        m33: FP_ONE,
    };
    tm.mul_mat(&rot)
}

/// The right-handed look-at view matrix for an eye position, look-at target
/// and up direction.
pub open spec fn spec_view_matrix(eye: Vec3, center: Vec3, up: Vec3) -> Mat4 {
    let f = spec_vnormalized(spec_vsub(center, eye));
    let s = spec_vnormalized(spec_vcross(f, up));
    let u = spec_vcross(s, f);
    Mat4 {
        m00: s.x,
        m01: s.y,
        m02: s.z,
        m03: (0 - spec_vdot(s, eye)) as i64,
        m10: u.x,
        m11: u.y,
        m12: u.z,
        m13: (0 - spec_vdot(u, eye)) as i64,
        m20: (0 - f.x) as i64,
        m21: (0 - f.y) as i64,
        m22: (0 - f.z) as i64,
        m23: spec_vdot(f, eye) as i64,
        m30: 0,
        m31: 0,
        m32: 0,
        m33: FP_ONE,
    }
}

/// Build the view matrix from camera vectors.
pub fn create_view_matrix(eye: Vec3, center: Vec3, up: Vec3) -> (r: Mat4)
    requires
        vec_in_sat(eye),
        vec_in_sat(center),
        vec_in_sat(up),
    ensures
        r == spec_view_matrix(eye, center, up),
        mat_in_sat(r),
{
    let f = center.sub(&eye).normalized();
    let s = f.cross(&up).normalized();
    let u = s.cross(&f);
    Mat4 {
        m00: s.x,
        m01: s.y,
        m02: s.z,
        m03: -s.dot(&eye),
        m10: u.x,
        m11: u.y,
        m12: u.z,
        m13: -u.dot(&eye),
        m20: -f.x,
        m21: -f.y,
        m22: -f.z,
        m23: f.dot(&eye),
        m30: 0,
        m31: 0,
        m32: 0,
        m33: FP_ONE,
    }
}

/// `v` itself unless it is zero, in which case `FP_ONE`: the defensive
/// divisor used by the projection matrix.
pub open spec fn spec_nonzero(v: int) -> int {
    if v == 0 {
        FP_ONE as int
    } else {
        v
    }
}

/// The right-handed perspective projection matrix for a 45-degree field of
/// view and the fixed near and far planes.
pub open spec fn spec_perspective_matrix(width: int, height: int) -> Mat4 {
    let aspect = fp_divv(width, height);
    let ch = spec_cos(FOV_HALF_FP as int);
    let tan_half = fp_divv(spec_sin(FOV_HALF_FP as int), spec_nonzero(ch));
    Mat4 {
        m00: fp_divv(FP_ONE as int, spec_nonzero(fp_mulv(aspect, tan_half))) as i64,
        m01: 0,
        m02: 0,
        m03: 0,
        m10: 0,
        m11: fp_divv(FP_ONE as int, spec_nonzero(tan_half)) as i64,
        m12: 0,
        m13: 0,
        m20: 0,
        m21: 0,
        m22: (0 - fp_divv(FAR_FP + NEAR_FP, FAR_FP - NEAR_FP)) as i64,
        m23: (0 - fp_divv(2 * fp_mulv(FAR_FP as int, NEAR_FP as int), FAR_FP - NEAR_FP)) as i64,
        m30: 0,
        m31: 0,
        m32: (-FP_ONE) as i64,
        m33: 0,
    }
}

fn nonzero(v: i64) -> (r: i64)
    requires
        -FP_SAT <= v <= FP_SAT,
    ensures
        r == spec_nonzero(v as int),
        r != 0,
        -FP_SAT <= r <= FP_SAT,
{
    if v == 0 {
        FP_ONE
    } else {
        v
    }
}

/// Build the perspective projection matrix for a window of the given
/// fixed-point pixel dimensions.
pub fn create_perspective_matrix(width: i64, height: i64) -> (r: Mat4)
    requires
        0 < width <= FP_SAT,
        0 < height <= FP_SAT,
    ensures
        r == spec_perspective_matrix(width as int, height as int),
        mat_in_sat(r),
{
    let aspect = fp_div(width, height);
    let ch = fp_cos(FOV_HALF_FP);
    let tan_half = fp_div(fp_sin(FOV_HALF_FP), nonzero(ch));
    let fn_prod = fp_mul(FAR_FP, NEAR_FP);
    Mat4 {
        m00: fp_div(FP_ONE, nonzero(fp_mul(aspect, tan_half))),
        m01: 0,
        m02: 0,
        m03: 0,
        m10: 0,
        m11: fp_div(FP_ONE, nonzero(tan_half)),
        m12: 0,
        m13: 0,
        m20: 0,
        m21: 0,
        m22: -fp_div(FAR_FP + NEAR_FP, FAR_FP - NEAR_FP),
        m23: -fp_div(2 * fn_prod, FAR_FP - NEAR_FP),
        m30: 0,
        m31: 0,
        m32: -FP_ONE,
        m33: 0,
    }
}

/// The viewport matrix: maps normalized device coordinates onto pixel space
/// with the y axis pointing down.
pub open spec fn spec_viewport_matrix(width: int, height: int) -> Mat4 {
    let w2 = tdiv(width, 2);
    let h2 = tdiv(height, 2);
    Mat4 {
        m00: w2 as i64,
        m01: 0,
        m02: 0,
        m03: w2 as i64,
        m10: 0,
        m11: (0 - h2) as i64,
        m12: 0,
        m13: h2 as i64,
        m20: 0,
        m21: 0,
        m22: FP_ONE,
        m23: 0,
        m30: 0,
        m31: 0,
        m32: 0,
        m33: FP_ONE,
    }
}

/// Build the viewport matrix for a framebuffer of the given fixed-point
/// pixel dimensions.
pub fn create_viewport_matrix(width: i64, height: i64) -> (r: Mat4)
    requires
        0 <= width <= FP_SAT,
        0 <= height <= FP_SAT,
    ensures
        r == spec_viewport_matrix(width as int, height as int),
        mat_in_sat(r),
{
    let w2 = width / 2;
    let h2 = height / 2;
    Mat4 {
        m00: w2,
        m01: 0,
        m02: 0,
        m03: w2,
        m10: 0,
        m11: -h2,
        m12: 0,
        m13: h2,
        m20: 0,
        m21: 0,
        m22: FP_ONE,
        m23: 0,
        m30: 0,
        m31: 0,
        m32: 0,
        m33: FP_ONE,
    }
}

} // verus!
