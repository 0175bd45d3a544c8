use vstd::prelude::*;

use crate::fixed::{fp_clamped, fp_div, fp_divv, fp_mul, fp_mulv, fp_sat, FP_ONE, FP_SAT};
use crate::vec3::{vec_in_sat, Vec3};

verus! {

/// A 4x4 matrix of fixed-point scalars, row major: `mRC` is row `R`,
/// column `C`.
#[derive(Clone, Copy, PartialEq, Eq, Structural, Debug)]
pub struct Mat4 {
    pub m00: i64,
    pub m01: i64,
    pub m02: i64,
    pub m03: i64,
    pub m10: i64,
    pub m11: i64,
    pub m12: i64,
    pub m13: i64,
    pub m20: i64,
    pub m21: i64,
    pub m22: i64,
    pub m23: i64,
    pub m30: i64,
    pub m31: i64,
    pub m32: i64,
    pub m33: i64,
}

/// A homogeneous 4-component vector of fixed-point scalars.
#[derive(Clone, Copy, PartialEq, Eq, Structural, Debug)]
pub struct Vec4 {
    pub x: i64,
    pub y: i64,
    pub z: i64,
    pub w: i64,
}

pub open spec fn mat_in_sat(m: Mat4) -> bool {
    &&& -FP_SAT <= m.m00 <= FP_SAT
    &&& -FP_SAT <= m.m01 <= FP_SAT
    &&& -FP_SAT <= m.m02 <= FP_SAT
    &&& -FP_SAT <= m.m03 <= FP_SAT
    &&& -FP_SAT <= m.m10 <= FP_SAT
    &&& -FP_SAT <= m.m11 <= FP_SAT
    &&& -FP_SAT <= m.m12 <= FP_SAT
    &&& -FP_SAT <= m.m13 <= FP_SAT
    &&& -FP_SAT <= m.m20 <= FP_SAT
    &&& -FP_SAT <= m.m21 <= FP_SAT
    &&& -FP_SAT <= m.m22 <= FP_SAT
    &&& -FP_SAT <= m.m23 <= FP_SAT
    &&& -FP_SAT <= m.m30 <= FP_SAT
    &&& -FP_SAT <= m.m31 <= FP_SAT
    &&& -FP_SAT <= m.m32 <= FP_SAT
    &&& -FP_SAT <= m.m33 <= FP_SAT
}

pub open spec fn vec4_in_sat(v: Vec4) -> bool {
    &&& -FP_SAT <= v.x <= FP_SAT
    &&& -FP_SAT <= v.y <= FP_SAT
    &&& -FP_SAT <= v.z <= FP_SAT
    &&& -FP_SAT <= v.w <= FP_SAT
}

/// Saturated fixed-point 4-term dot product.
pub open spec fn spec_dot4(a0: int, a1: int, a2: int, a3: int, b0: int, b1: int, b2: int, b3: int) -> int {
    fp_clamped(
        fp_mulv(a0, b0) + fp_mulv(a1, b1) + fp_mulv(a2, b2) + fp_mulv(a3, b3),
        -FP_SAT as int,
        FP_SAT as int,
    )
}

fn dot4(a0: i64, a1: i64, a2: i64, a3: i64, b0: i64, b1: i64, b2: i64, b3: i64) -> (r: i64)
    requires
        -FP_SAT <= a0 <= FP_SAT,
        -FP_SAT <= a1 <= FP_SAT,
        -FP_SAT <= a2 <= FP_SAT,
        -FP_SAT <= a3 <= FP_SAT,
        -FP_SAT <= b0 <= FP_SAT,
        -FP_SAT <= b1 <= FP_SAT,
        -FP_SAT <= b2 <= FP_SAT,
        -FP_SAT <= b3 <= FP_SAT,
    ensures
        r == spec_dot4(a0 as int, a1 as int, a2 as int, a3 as int, b0 as int, b1 as int, b2 as int, b3 as int),
        -FP_SAT <= r <= FP_SAT,
{
    let p0 = fp_mul(a0, b0);
    let p1 = fp_mul(a1, b1);
    let p2 = fp_mul(a2, b2);
    let p3 = fp_mul(a3, b3);
    fp_sat(p0 + p1 + p2 + p3)
}

/// Matrix-vector product, component-wise saturated.
pub open spec fn spec_mat_vec(m: Mat4, v: Vec4) -> Vec4 {
    Vec4 {
        x: spec_dot4(m.m00 as int, m.m01 as int, m.m02 as int, m.m03 as int, v.x as int, v.y as int, v.z as int, v.w as int) as i64,
        y: spec_dot4(m.m10 as int, m.m11 as int, m.m12 as int, m.m13 as int, v.x as int, v.y as int, v.z as int, v.w as int) as i64,
        z: spec_dot4(m.m20 as int, m.m21 as int, m.m22 as int, m.m23 as int, v.x as int, v.y as int, v.z as int, v.w as int) as i64,
        w: spec_dot4(m.m30 as int, m.m31 as int, m.m32 as int, m.m33 as int, v.x as int, v.y as int, v.z as int, v.w as int) as i64,
    }
}

/// Matrix-matrix product, entry-wise saturated.
pub open spec fn spec_mat_mul(a: Mat4, b: Mat4) -> Mat4 {
    Mat4 {
        m00: spec_dot4(a.m00 as int, a.m01 as int, a.m02 as int, a.m03 as int, b.m00 as int, b.m10 as int, b.m20 as int, b.m30 as int) as i64,
        m01: spec_dot4(a.m00 as int, a.m01 as int, a.m02 as int, a.m03 as int, b.m01 as int, b.m11 as int, b.m21 as int, b.m31 as int) as i64,
        m02: spec_dot4(a.m00 as int, a.m01 as int, a.m02 as int, a.m03 as int, b.m02 as int, b.m12 as int, b.m22 as int, b.m32 as int) as i64,
        m03: spec_dot4(a.m00 as int, a.m01 as int, a.m02 as int, a.m03 as int, b.m03 as int, b.m13 as int, b.m23 as int, b.m33 as int) as i64,
        m10: spec_dot4(a.m10 as int, a.m11 as int, a.m12 as int, a.m13 as int, b.m00 as int, b.m10 as int, b.m20 as int, b.m30 as int) as i64,
        m11: spec_dot4(a.m10 as int, a.m11 as int, a.m12 as int, a.m13 as int, b.m01 as int, b.m11 as int, b.m21 as int, b.m31 as int) as i64,
        m12: spec_dot4(a.m10 as int, a.m11 as int, a.m12 as int, a.m13 as int, b.m02 as int, b.m12 as int, b.m22 as int, b.m32 as int) as i64,
        m13: spec_dot4(a.m10 as int, a.m11 as int, a.m12 as int, a.m13 as int, b.m03 as int, b.m13 as int, b.m23 as int, b.m33 as int) as i64,
        m20: spec_dot4(a.m20 as int, a.m21 as int, a.m22 as int, a.m23 as int, b.m00 as int, b.m10 as int, b.m20 as int, b.m30 as int) as i64,
        m21: spec_dot4(a.m20 as int, a.m21 as int, a.m22 as int, a.m23 as int, b.m01 as int, b.m11 as int, b.m21 as int, b.m31 as int) as i64,
        m22: spec_dot4(a.m20 as int, a.m21 as int, a.m22 as int, a.m23 as int, b.m02 as int, b.m12 as int, b.m22 as int, b.m32 as int) as i64,
        m23: spec_dot4(a.m20 as int, a.m21 as int, a.m22 as int, a.m23 as int, b.m03 as int, b.m13 as int, b.m23 as int, b.m33 as int) as i64,
        m30: spec_dot4(a.m30 as int, a.m31 as int, a.m32 as int, a.m33 as int, b.m00 as int, b.m10 as int, b.m20 as int, b.m30 as int) as i64,
        m31: spec_dot4(a.m30 as int, a.m31 as int, a.m32 as int, a.m33 as int, b.m01 as int, b.m11 as int, b.m21 as int, b.m31 as int) as i64,
        m32: spec_dot4(a.m30 as int, a.m31 as int, a.m32 as int, a.m33 as int, b.m02 as int, b.m12 as int, b.m22 as int, b.m32 as int) as i64,
        m33: spec_dot4(a.m30 as int, a.m31 as int, a.m32 as int, a.m33 as int, b.m03 as int, b.m13 as int, b.m23 as int, b.m33 as int) as i64,
    }
}

pub open spec fn spec_mat_identity() -> Mat4 {
    Mat4 {
        m00: FP_ONE,
        m01: 0,
        m02: 0,
        m03: 0,
        m10: 0,
        m11: FP_ONE,
        m12: 0,
        m13: 0,
        m20: 0,
        m21: 0,
        m22: FP_ONE,
        m23: 0,
        m30: 0,
        m31: 0,
        m32: 0,
        m33: FP_ONE,
    }
}

impl Mat4 {
    pub fn identity() -> (r: Mat4)
        ensures
            r == spec_mat_identity(),
            mat_in_sat(r),
    {
        Mat4 {
            m00: FP_ONE,
            m01: 0,
            m02: 0,
            m03: 0,
            m10: 0,
            m11: FP_ONE,
            m12: 0,
            m13: 0,
            m20: 0,
            m21: 0,
            m22: FP_ONE,
            m23: 0,
            m30: 0,
            m31: 0,
            m32: 0,
            m33: FP_ONE,
        }
    }

    /// Apply the matrix to a homogeneous vector.
    pub fn mul_vec4(&self, v: &Vec4) -> (r: Vec4)
        requires
            mat_in_sat(*self),
            vec4_in_sat(*v),
        ensures
            r == spec_mat_vec(*self, *v),
            vec4_in_sat(r),
    {
        Vec4 {
            x: dot4(self.m00, self.m01, self.m02, self.m03, v.x, v.y, v.z, v.w),
            y: dot4(self.m10, self.m11, self.m12, self.m13, v.x, v.y, v.z, v.w),
            z: dot4(self.m20, self.m21, self.m22, self.m23, v.x, v.y, v.z, v.w),
            w: dot4(self.m30, self.m31, self.m32, self.m33, v.x, v.y, v.z, v.w),
        }
    }

    /// Matrix product `self * other`.
    pub fn mul_mat(&self, other: &Mat4) -> (r: Mat4)
        requires
            mat_in_sat(*self),
            mat_in_sat(*other),
        ensures
            r == spec_mat_mul(*self, *other),
            mat_in_sat(r),
    {
        let a = self;
        let b = other;
        Mat4 {
            m00: dot4(a.m00, a.m01, a.m02, a.m03, b.m00, b.m10, b.m20, b.m30),
            m01: dot4(a.m00, a.m01, a.m02, a.m03, b.m01, b.m11, b.m21, b.m31),
            m02: dot4(a.m00, a.m01, a.m02, a.m03, b.m02, b.m12, b.m22, b.m32),
            m03: dot4(a.m00, a.m01, a.m02, a.m03, b.m03, b.m13, b.m23, b.m33),
            m10: dot4(a.m10, a.m11, a.m12, a.m13, b.m00, b.m10, b.m20, b.m30),
            m11: dot4(a.m10, a.m11, a.m12, a.m13, b.m01, b.m11, b.m21, b.m31),
            m12: dot4(a.m10, a.m11, a.m12, a.m13, b.m02, b.m12, b.m22, b.m32),
            m13: dot4(a.m10, a.m11, a.m12, a.m13, b.m03, b.m13, b.m23, b.m33),
            m20: dot4(a.m20, a.m21, a.m22, a.m23, b.m00, b.m10, b.m20, b.m30),
            m21: dot4(a.m20, a.m21, a.m22, a.m23, b.m01, b.m11, b.m21, b.m31),
            m22: dot4(a.m20, a.m21, a.m22, a.m23, b.m02, b.m12, b.m22, b.m32),
            m23: dot4(a.m20, a.m21, a.m22, a.m23, b.m03, b.m13, b.m23, b.m33),
            m30: dot4(a.m30, a.m31, a.m32, a.m33, b.m00, b.m10, b.m20, b.m30),
            m31: dot4(a.m30, a.m31, a.m32, a.m33, b.m01, b.m11, b.m21, b.m31),
            m32: dot4(a.m30, a.m31, a.m32, a.m33, b.m02, b.m12, b.m22, b.m32),
            m33: dot4(a.m30, a.m31, a.m32, a.m33, b.m03, b.m13, b.m23, b.m33),
        }
    }
}

/// A 3x3 matrix of fixed-point scalars, row major.
#[derive(Clone, Copy, PartialEq, Eq, Structural, Debug)]
pub struct Mat3 {
    pub m00: i64,
    pub m01: i64,
    pub m02: i64,
    pub m10: i64,
    pub m11: i64,
    pub m12: i64,
    pub m20: i64,
    pub m21: i64,
    pub m22: i64,
}

pub open spec fn mat3_in_sat(m: Mat3) -> bool {
    &&& -FP_SAT <= m.m00 <= FP_SAT
    &&& -FP_SAT <= m.m01 <= FP_SAT
    &&& -FP_SAT <= m.m02 <= FP_SAT
    &&& -FP_SAT <= m.m10 <= FP_SAT
    &&& -FP_SAT <= m.m11 <= FP_SAT
    &&& -FP_SAT <= m.m12 <= FP_SAT
    &&& -FP_SAT <= m.m20 <= FP_SAT
    &&& -FP_SAT <= m.m21 <= FP_SAT
    &&& -FP_SAT <= m.m22 <= FP_SAT
}

/// Saturated fixed-point 3-term dot product.
pub open spec fn spec_dot3(a0: int, a1: int, a2: int, b0: int, b1: int, b2: int) -> int {
    fp_clamped(
        fp_mulv(a0, b0) + fp_mulv(a1, b1) + fp_mulv(a2, b2),
        -FP_SAT as int,
        FP_SAT as int,
    )
}

fn dot3(a0: i64, a1: i64, a2: i64, b0: i64, b1: i64, b2: i64) -> (r: i64)
    requires
        -FP_SAT <= a0 <= FP_SAT,
        -FP_SAT <= a1 <= FP_SAT,
        -FP_SAT <= a2 <= FP_SAT,
        -FP_SAT <= b0 <= FP_SAT,
        -FP_SAT <= b1 <= FP_SAT,
        -FP_SAT <= b2 <= FP_SAT,
    ensures
        r == spec_dot3(a0 as int, a1 as int, a2 as int, b0 as int, b1 as int, b2 as int),
        -FP_SAT <= r <= FP_SAT,
{
    let p0 = fp_mul(a0, b0);
    let p1 = fp_mul(a1, b1);
    let p2 = fp_mul(a2, b2);
    fp_sat(p0 + p1 + p2)
}

/// A saturated fixed-point 2x2 minor: `a * b - c * d`.
pub open spec fn spec_minor(a: int, b: int, c: int, d: int) -> int {
    fp_clamped(fp_mulv(a, b) - fp_mulv(c, d), -FP_SAT as int, FP_SAT as int)
}

fn minor(a: i64, b: i64, c: i64, d: i64) -> (r: i64)
    requires
        -FP_SAT <= a <= FP_SAT,
        -FP_SAT <= b <= FP_SAT,
        -FP_SAT <= c <= FP_SAT,
        -FP_SAT <= d <= FP_SAT,
    ensures
        r == spec_minor(a as int, b as int, c as int, d as int),
        -FP_SAT <= r <= FP_SAT,
{
    fp_sat(fp_mul(a, b) - fp_mul(c, d))
}

pub open spec fn spec_mat3_det(m: Mat3) -> int {
    spec_dot3(
        m.m00 as int,
        m.m01 as int,
        m.m02 as int,
        spec_minor(m.m11 as int, m.m22 as int, m.m12 as int, m.m21 as int),
        spec_minor(m.m12 as int, m.m20 as int, m.m10 as int, m.m22 as int),
        spec_minor(m.m10 as int, m.m21 as int, m.m11 as int, m.m20 as int),
    )
}

pub open spec fn spec_mat3_identity() -> Mat3 {
    Mat3 {
        m00: FP_ONE,
        m01: 0,
        m02: 0,
        m10: 0,
        m11: FP_ONE,
        m12: 0,
        m20: 0,
        m21: 0,
        m22: FP_ONE,
    }
}

/// The inverse (adjugate over determinant) of a 3x3 matrix, or identity when
/// the determinant is zero.
pub open spec fn spec_mat3_inverse_or_identity(m: Mat3) -> Mat3 {
    let det = spec_mat3_det(m);
    if det == 0 {
        spec_mat3_identity()
    } else {
        Mat3 {
            m00: fp_divv(spec_minor(m.m11 as int, m.m22 as int, m.m12 as int, m.m21 as int), det) as i64,
            m01: fp_divv(spec_minor(m.m02 as int, m.m21 as int, m.m01 as int, m.m22 as int), det) as i64,
            m02: fp_divv(spec_minor(m.m01 as int, m.m12 as int, m.m02 as int, m.m11 as int), det) as i64,
            m10: fp_divv(spec_minor(m.m12 as int, m.m20 as int, m.m10 as int, m.m22 as int), det) as i64,
            m11: fp_divv(spec_minor(m.m00 as int, m.m22 as int, m.m02 as int, m.m20 as int), det) as i64,
            m12: fp_divv(spec_minor(m.m02 as int, m.m10 as int, m.m00 as int, m.m12 as int), det) as i64,
            m20: fp_divv(spec_minor(m.m10 as int, m.m21 as int, m.m11 as int, m.m20 as int), det) as i64,
            m21: fp_divv(spec_minor(m.m01 as int, m.m20 as int, m.m00 as int, m.m21 as int), det) as i64,
            m22: fp_divv(spec_minor(m.m00 as int, m.m11 as int, m.m01 as int, m.m10 as int), det) as i64,
        }
    }
}

pub open spec fn spec_mat3_transpose(m: Mat3) -> Mat3 {
    Mat3 {
        m00: m.m00,
        m01: m.m10,
        m02: m.m20,
        m10: m.m01,
        m11: m.m11,
        m12: m.m21,
        m20: m.m02,
        m21: m.m12,
        m22: m.m22,
    }
}

pub open spec fn spec_mat3_of_mat4(m: Mat4) -> Mat3 {
    Mat3 {
        m00: m.m00,
        m01: m.m01,
        m02: m.m02,
        m10: m.m10,
        m11: m.m11,
        m12: m.m12,
        m20: m.m20,
        m21: m.m21,
        m22: m.m22,
    }
}

pub open spec fn spec_mat3_vec(m: Mat3, v: Vec3) -> Vec3 {
    Vec3 {
        x: spec_dot3(m.m00 as int, m.m01 as int, m.m02 as int, v.x as int, v.y as int, v.z as int) as i64,
        y: spec_dot3(m.m10 as int, m.m11 as int, m.m12 as int, v.x as int, v.y as int, v.z as int) as i64,
        z: spec_dot3(m.m20 as int, m.m21 as int, m.m22 as int, v.x as int, v.y as int, v.z as int) as i64,
    }
}

/// The normal matrix of a model matrix: inverse-transpose of its 3x3 linear
/// part, falling back to identity when not invertible.
pub open spec fn spec_normal_matrix(model: Mat4) -> Mat3 {
    spec_mat3_inverse_or_identity(spec_mat3_transpose(spec_mat3_of_mat4(model)))
}

impl Mat3 {
    pub fn identity() -> (r: Mat3)
        ensures
            r == spec_mat3_identity(),
            mat3_in_sat(r),
    {
        Mat3 {
            m00: FP_ONE,
            m01: 0,
            m02: 0,
            m10: 0,
            m11: FP_ONE,
            m12: 0,
            m20: 0,
            m21: 0,
            m22: FP_ONE,
        }
    }

    pub fn of_mat4(m: &Mat4) -> (r: Mat3)
        requires
            mat_in_sat(*m),
        ensures
            r == spec_mat3_of_mat4(*m),
            mat3_in_sat(r),
    {
        Mat3 {
            m00: m.m00,
            m01: m.m01,
            m02: m.m02,
            m10: m.m10,
            m11: m.m11,
            m12: m.m12,
            m20: m.m20,
            m21: m.m21,
            m22: m.m22,
        }
    }

    pub fn transpose(&self) -> (r: Mat3)
        requires
            mat3_in_sat(*self),
        ensures
            r == spec_mat3_transpose(*self),
            mat3_in_sat(r),
    {
        Mat3 {
            m00: self.m00,
            m01: self.m10,
            m02: self.m20,
            m10: self.m01,
            m11: self.m11,
            m12: self.m21,
            m20: self.m02,
            m21: self.m12,
            m22: self.m22,
        }
    }

    pub fn det(&self) -> (r: i64)
        requires
            mat3_in_sat(*self),
        ensures
            r == spec_mat3_det(*self),
            -FP_SAT <= r <= FP_SAT,
    {
        let c0 = minor(self.m11, self.m22, self.m12, self.m21);
        let c1 = minor(self.m12, self.m20, self.m10, self.m22);
        let c2 = minor(self.m10, self.m21, self.m11, self.m20);
        dot3(self.m00, self.m01, self.m02, c0, c1, c2)
    }

    /// The inverse, or the identity matrix when the determinant is zero.
    pub fn inverse_or_identity(&self) -> (r: Mat3)
        requires
            mat3_in_sat(*self),
        ensures
            r == spec_mat3_inverse_or_identity(*self),
            mat3_in_sat(r),
    {
        let det = self.det();
        if det == 0 {
            Mat3::identity()
        } else {
            Mat3 {
                m00: fp_div(minor(self.m11, self.m22, self.m12, self.m21), det),
                m01: fp_div(minor(self.m02, self.m21, self.m01, self.m22), det),
                m02: fp_div(minor(self.m01, self.m12, self.m02, self.m11), det),
                m10: fp_div(minor(self.m12, self.m20, self.m10, self.m22), det),
                m11: fp_div(minor(self.m00, self.m22, self.m02, self.m20), det),
                m12: fp_div(minor(self.m02, self.m10, self.m00, self.m12), det),
                m20: fp_div(minor(self.m10, self.m21, self.m11, self.m20), det),
                m21: fp_div(minor(self.m01, self.m20, self.m00, self.m21), det),
                m22: fp_div(minor(self.m00, self.m11, self.m01, self.m10), det),
            }
        }
    }

    pub fn mul_vec3(&self, v: &Vec3) -> (r: Vec3)
        requires
            mat3_in_sat(*self),
            vec_in_sat(*v),
        ensures
            r == spec_mat3_vec(*self, *v),
            vec_in_sat(r),
    {
        Vec3 {
            x: dot3(self.m00, self.m01, self.m02, v.x, v.y, v.z),
            y: dot3(self.m10, self.m11, self.m12, v.x, v.y, v.z),
            z: dot3(self.m20, self.m21, self.m22, v.x, v.y, v.z),
        }
    }
}

/// The normal matrix of a model matrix.
pub fn normal_matrix(model: &Mat4) -> (r: Mat3)
    requires
        mat_in_sat(*model),
    ensures
        r == spec_normal_matrix(*model),
        mat3_in_sat(r),
{
    Mat3::of_mat4(model).transpose().inverse_or_identity()
}

} // verus!
