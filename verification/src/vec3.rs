use vstd::prelude::*;

use crate::fixed::{
    fp_clamped, fp_div, fp_divv, fp_mul, fp_mulv, fp_sat, isqrt, FP_ONE, FP_SAT,
};

verus! {

/// A 3-component vector of fixed-point scalars.
#[derive(Clone, Copy, PartialEq, Eq, Structural, Debug)]
pub struct Vec3 {
    pub x: i64,
    pub y: i64,
    pub z: i64,
}

/// All components within the saturation range of the fixed-point arithmetic.
pub open spec fn vec_in_sat(v: Vec3) -> bool {
    &&& -FP_SAT <= v.x <= FP_SAT
    &&& -FP_SAT <= v.y <= FP_SAT
    &&& -FP_SAT <= v.z <= FP_SAT
}

pub open spec fn spec_vadd(a: Vec3, b: Vec3) -> Vec3 {
    Vec3 {
        x: fp_clamped(a.x + b.x, -FP_SAT as int, FP_SAT as int) as i64,
        y: fp_clamped(a.y + b.y, -FP_SAT as int, FP_SAT as int) as i64,
        z: fp_clamped(a.z + b.z, -FP_SAT as int, FP_SAT as int) as i64,
    }
}

pub open spec fn spec_vsub(a: Vec3, b: Vec3) -> Vec3 {
    Vec3 {
        x: fp_clamped(a.x - b.x, -FP_SAT as int, FP_SAT as int) as i64,
        y: fp_clamped(a.y - b.y, -FP_SAT as int, FP_SAT as int) as i64,
        z: fp_clamped(a.z - b.z, -FP_SAT as int, FP_SAT as int) as i64,
    }
}

pub open spec fn spec_vscale(a: Vec3, s: int) -> Vec3 {
    Vec3 {
        x: fp_mulv(a.x as int, s) as i64,
        y: fp_mulv(a.y as int, s) as i64,
        z: fp_mulv(a.z as int, s) as i64,
    }
}

/// The fixed-point dot product: the sum of the three rescaled products,
/// saturated.
pub open spec fn spec_vdot(a: Vec3, b: Vec3) -> int {
    fp_clamped(
        fp_mulv(a.x as int, b.x as int) + fp_mulv(a.y as int, b.y as int) + fp_mulv(
            a.z as int,
            b.z as int,
        ),
        -FP_SAT as int,
        FP_SAT as int,
    )
}

pub open spec fn spec_vcross(a: Vec3, b: Vec3) -> Vec3 {
    Vec3 {
        x: fp_clamped(
            fp_mulv(a.y as int, b.z as int) - fp_mulv(a.z as int, b.y as int),
            -FP_SAT as int,
            FP_SAT as int,
        ) as i64,
        y: fp_clamped(
            fp_mulv(a.z as int, b.x as int) - fp_mulv(a.x as int, b.z as int),
            -FP_SAT as int,
            FP_SAT as int,
        ) as i64,
        z: fp_clamped(
            fp_mulv(a.x as int, b.y as int) - fp_mulv(a.y as int, b.x as int),
            -FP_SAT as int,
            FP_SAT as int,
        ) as i64,
    }
}

/// Floor of the square root of a non-negative integer.
pub open spec fn sqrt_floor(n: nat) -> nat
    decreases n,
{
    if n == 0 {
        0
    } else {
        let r = sqrt_floor((n - 1) as nat);
        if (r + 1) * (r + 1) <= n {
            r + 1
        } else {
            r
        }
    }
}

pub proof fn lemma_sqrt_floor_bounds(n: nat)
    ensures
        sqrt_floor(n) * sqrt_floor(n) <= n,
        n < (sqrt_floor(n) + 1) * (sqrt_floor(n) + 1),
    decreases n,
{
    if n == 0 {
        let s = sqrt_floor(n);
        assert(s == 0);
        assert((s + 1) * (s + 1) == 1) by (nonlinear_arith)
            requires
                s == 0,
        ;
    } else {
        lemma_sqrt_floor_bounds((n - 1) as nat);
        let r = sqrt_floor((n - 1) as nat);
        assert(r * r <= n - 1);
        assert(n - 1 < (r + 1) * (r + 1));
        if (r + 1) * (r + 1) <= n {
            assert(sqrt_floor(n) == r + 1);
            assert((r + 1) * (r + 1) < (r + 2) * (r + 2)) by (nonlinear_arith);
            assert(sqrt_floor(n) * sqrt_floor(n) <= n);
            assert(n < (sqrt_floor(n) + 1) * (sqrt_floor(n) + 1));
        } else {
            assert(sqrt_floor(n) == r);
            assert(r * r <= n);
            assert(sqrt_floor(n) * sqrt_floor(n) <= n);
            assert(n < (sqrt_floor(n) + 1) * (sqrt_floor(n) + 1));
        }
    }
}

pub proof fn lemma_sqrt_floor_unique(n: nat, r: nat)
    requires
        r * r <= n,
        n < (r + 1) * (r + 1),
    ensures
        r == sqrt_floor(n),
{
    lemma_sqrt_floor_bounds(n);
    let s = sqrt_floor(n);
    assert(r == s) by (nonlinear_arith)
        requires
            r * r <= n,
            n < (r + 1) * (r + 1),
            s * s <= n,
            n < (s + 1) * (s + 1),
    ;
}

/// The fixed-point length of a vector: the square root of the saturated dot
/// product, rescaled into fixed-point units.
pub open spec fn spec_vlength(v: Vec3) -> int {
    sqrt_floor((spec_vdot(v, v) * FP_ONE) as nat) as int
}

pub open spec fn spec_vnormalized(v: Vec3) -> Vec3 {
    let m = spec_vlength(v);
    if m == 0 {
        Vec3 { x: 0, y: 0, z: 0 }
    } else {
        Vec3 {
            x: fp_divv(v.x as int, m) as i64,
            y: fp_divv(v.y as int, m) as i64,
            z: fp_divv(v.z as int, m) as i64,
        }
    }
}

impl Vec3 {
    pub fn new(x: i64, y: i64, z: i64) -> (r: Vec3)
        ensures
            r == (Vec3 { x, y, z }),
    {
        Vec3 { x, y, z }
    }

    pub fn zero() -> (r: Vec3)
        ensures
            r == (Vec3 { x: 0, y: 0, z: 0 }),
    {
        Vec3 { x: 0, y: 0, z: 0 }
    }

    pub fn add(&self, other: &Vec3) -> (r: Vec3)
        requires
            vec_in_sat(*self),
            vec_in_sat(*other),
        ensures
            r == spec_vadd(*self, *other),
            vec_in_sat(r),
    {
        Vec3 { x: fp_sat(self.x + other.x), y: fp_sat(self.y + other.y), z: fp_sat(
            self.z + other.z,
        ) }
    }

    pub fn sub(&self, other: &Vec3) -> (r: Vec3)
        requires
            vec_in_sat(*self),
            vec_in_sat(*other),
        ensures
            r == spec_vsub(*self, *other),
            vec_in_sat(r),
    {
        Vec3 { x: fp_sat(self.x - other.x), y: fp_sat(self.y - other.y), z: fp_sat(
            self.z - other.z,
        ) }
    }

    pub fn scale(&self, s: i64) -> (r: Vec3)
        requires
            vec_in_sat(*self),
            -FP_SAT <= s <= FP_SAT,
        ensures
            r == spec_vscale(*self, s as int),
            vec_in_sat(r),
    {
        Vec3 { x: fp_mul(self.x, s), y: fp_mul(self.y, s), z: fp_mul(self.z, s) }
    }

    pub fn dot(&self, other: &Vec3) -> (r: i64)
        requires
            vec_in_sat(*self),
            vec_in_sat(*other),
        ensures
            r == spec_vdot(*self, *other),
            -FP_SAT <= r <= FP_SAT,
    {
        let px = fp_mul(self.x, other.x);
        let py = fp_mul(self.y, other.y);
        let pz = fp_mul(self.z, other.z);
        fp_sat(px + py + pz)
    }

    pub fn cross(&self, other: &Vec3) -> (r: Vec3)
        requires
            vec_in_sat(*self),
            vec_in_sat(*other),
        ensures
            r == spec_vcross(*self, *other),
            vec_in_sat(r),
    {
        Vec3 {
            x: fp_sat(fp_mul(self.y, other.z) - fp_mul(self.z, other.y)),
            y: fp_sat(fp_mul(self.z, other.x) - fp_mul(self.x, other.z)),
            z: fp_sat(fp_mul(self.x, other.y) - fp_mul(self.y, other.x)),
        }
    }

    /// The fixed-point length of the vector.
    pub fn length(&self) -> (r: i64)
        requires
            vec_in_sat(*self),
        ensures
            r == spec_vlength(*self),
            0 <= r <= FP_SAT,
    {
        let d = self.dot(self);
        proof {
            lemma_dot_self_nonneg(*self);
        }
        let n: u64 = (d as u64) * (FP_ONE as u64);
        let s = isqrt(n);
        proof {
            lemma_sqrt_floor_unique(n as nat, s as nat);
            assert((s as int) * (s as int) <= (FP_SAT as int) * (FP_ONE as int));
            assert(s <= FP_SAT) by (nonlinear_arith)
                requires
                    (s as int) * (s as int) <= (FP_SAT as int) * (FP_ONE as int),
                    s >= 0,
            ;
        }
        s as i64
    }

    /// The vector scaled to (approximately) unit fixed-point length; the zero
    /// vector when the length is zero.
    pub fn normalized(&self) -> (r: Vec3)
        requires
            vec_in_sat(*self),
        ensures
            r == spec_vnormalized(*self),
            vec_in_sat(r),
    {
        let m = self.length();
        if m == 0 {
            Vec3 { x: 0, y: 0, z: 0 }
        } else {
            Vec3 { x: fp_div(self.x, m), y: fp_div(self.y, m), z: fp_div(self.z, m) }
        }
    }
}

/// The saturated dot product of a vector with itself is non-negative.
pub proof fn lemma_dot_self_nonneg(v: Vec3)
    ensures
        0 <= spec_vdot(v, v) <= FP_SAT,
{
    assert(v.x as int * (v.x as int) >= 0) by (nonlinear_arith);
    assert(v.y as int * (v.y as int) >= 0) by (nonlinear_arith);
    assert(v.z as int * (v.z as int) >= 0) by (nonlinear_arith);
}

} // verus!
