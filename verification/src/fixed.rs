use vstd::prelude::*;

verus! {

/// Number of fixed-point units in 1.0: every scalar quantity in the pipeline
/// (coordinates, depths, intensities, noise values) is an integer counting
/// 1/65536ths.
pub const FP_ONE: i64 = 65536;

/// Saturation bound for fixed-point arithmetic: every scalar the pipeline
/// produces stays within `[-FP_SAT, FP_SAT]`, so products always fit in an
/// `i64` after rescaling.
pub const FP_SAT: i64 = 0x4000_0000_0000;

/// Half turn in fixed-point radians (`pi * FP_ONE`, rounded).
pub const FP_PI: i64 = 205887;

/// Full turn in fixed-point radians.
pub const FP_TWO_PI: i64 = 411774;

/// Quarter turn in fixed-point radians.
pub const FP_HALF_PI: i64 = 102944;

pub open spec fn abs_i(v: int) -> int {
    if v < 0 {
        -v
    } else {
        v
    }
}

/// Division truncating toward zero (the semantics of Rust's `/` operator),
/// defined for any non-zero divisor.
pub open spec fn tdiv(a: int, b: int) -> int
    recommends
        b != 0,
{
    let q = abs_i(a) / abs_i(b);
    if (a < 0) == (b < 0) {
        q
    } else {
        -q
    }
}

pub open spec fn fp_clamped(v: int, lo: int, hi: int) -> int {
    if v < lo {
        lo
    } else if v > hi {
        hi
    } else {
        v
    }
}

/// The value of a fixed-point product: rescaled by `FP_ONE` and saturated at
/// `FP_SAT`.
pub open spec fn fp_mulv(a: int, b: int) -> int {
    fp_clamped(tdiv(a * b, FP_ONE as int), -FP_SAT as int, FP_SAT as int)
}

/// The value of a fixed-point quotient: `a / b` scaled so that dividing two
/// equal values yields `FP_ONE`, saturated at `FP_SAT`.
pub open spec fn fp_divv(a: int, b: int) -> int
    recommends
        b != 0,
{
    fp_clamped(tdiv(a * FP_ONE, b), -FP_SAT as int, FP_SAT as int)
}

/// Clamp `v` into `[lo, hi]`.
pub fn fp_clamp(v: i64, lo: i64, hi: i64) -> (r: i64)
    requires
        lo <= hi,
    ensures
        r == fp_clamped(v as int, lo as int, hi as int),
{
    if v < lo {
        lo
    } else if v > hi {
        hi
    } else {
        v
    }
}

/// Saturate `v` into the global fixed-point range.
pub fn fp_sat(v: i64) -> (r: i64)
    ensures
        r == fp_clamped(v as int, -FP_SAT as int, FP_SAT as int),
        -FP_SAT <= r <= FP_SAT,
{
    fp_clamp(v, -FP_SAT, FP_SAT)
}

/// Truncating division of a non-negative dividend by a positive divisor.
fn udiv(a: i64, b: i64) -> (r: i64)
    requires
        a >= 0,
        b > 0,
    ensures
        r == tdiv(a as int, b as int),
        0 <= r <= a,
{
    a / b
}

/// Truncating signed division, total for any non-zero divisor within range.
pub fn fp_tdiv(a: i64, b: i64) -> (r: i64)
    requires
        b != 0,
        a > i64::MIN,
        b > i64::MIN,
    ensures
        r == tdiv(a as int, b as int),
        abs_i(r as int) <= abs_i(a as int),
{
    let aa = if a < 0 { -a } else { a };
    let bb = if b < 0 { -b } else { b };
    let q = udiv(aa, bb);
    if (a < 0) == (b < 0) {
        q
    } else {
        -q
    }
}

/// Fixed-point multiplication: `a * b / FP_ONE`, saturated at `FP_SAT`.
pub fn fp_mul(a: i64, b: i64) -> (r: i64)
    requires
        -FP_SAT <= a <= FP_SAT,
        -FP_SAT <= b <= FP_SAT,
    ensures
        r == fp_mulv(a as int, b as int),
        -FP_SAT <= r <= FP_SAT,
{
    proof {
        assert(-(FP_SAT as int) * (FP_SAT as int) <= (a as int) * (b as int) <= (FP_SAT as int) * (
        FP_SAT as int)) by (nonlinear_arith)
            requires
                -FP_SAT <= a <= FP_SAT,
                -FP_SAT <= b <= FP_SAT,
        ;
    }
    let p: i128 = (a as i128) * (b as i128);
    let pp: i128 = if p < 0 { -p } else { p };
    let qq: i128 = pp / (FP_ONE as i128);
    let q: i128 = if p < 0 { -qq } else { qq };
    proof {
        assert(q == tdiv(a as int * b as int, FP_ONE as int));
    }
    if q < -(FP_SAT as i128) {
        -FP_SAT
    } else if q > FP_SAT as i128 {
        FP_SAT
    } else {
        q as i64
    }
}

/// Integer square root: the greatest `r` with `r * r <= n`.
pub fn isqrt(n: u64) -> (r: u64)
    ensures
        (r as int) * (r as int) <= n as int,
        (n as int) < (r as int + 1) * (r as int + 1),
{
    if n == 0 {
        return 0;
    }
    let mut lo: u64 = 0;
    let mut hi: u64 = 4294967296;
    while hi - lo > 1
        invariant
            lo < hi <= 4294967296,
            (lo as int) * (lo as int) <= n as int,
            (n as int) < (hi as int) * (hi as int),
        decreases hi - lo,
    {
        let mid: u64 = lo + (hi - lo) / 2;
        proof {
            assert((mid as int) * (mid as int) <= 4294967296int * 4294967296int)
                by (nonlinear_arith)
                requires
                    0 <= mid <= 4294967296,
            ;
        }
        if (mid as u128) * (mid as u128) <= n as u128 {
            lo = mid;
        } else {
            hi = mid;
        }
    }
    lo
}

/// An angle reduced into `[0, FP_TWO_PI)`: the mathematical (Euclidean)
/// remainder.
pub fn fp_angle_reduce(a: i64) -> (r: i64)
    requires
        a > i64::MIN,
    ensures
        r == (a as int) % (FP_TWO_PI as int),
        0 <= r < FP_TWO_PI,
{
    if a >= 0 {
        a % FP_TWO_PI
    } else {
        let m = (-a) % FP_TWO_PI;
        proof {
            vstd::arithmetic::div_mod::lemma_fundamental_div_mod(-a as int, FP_TWO_PI as int);
            vstd::arithmetic::div_mod::lemma_fundamental_div_mod_converse(
                a as int,
                FP_TWO_PI as int,
                -((-a as int) / (FP_TWO_PI as int)) - (if m == 0 {
                    0int
                } else {
                    1int
                }),
                if m == 0 {
                    0int
                } else {
                    FP_TWO_PI - m
                },
            );
        }
        if m == 0 {
            0
        } else {
            FP_TWO_PI - m
        }
    }
}

/// The rational sine approximation on `[0, FP_PI]`, in fixed point, clamped
/// into `[0, FP_ONE]`. The division rounds to nearest, which makes the
/// approximation exact at `0`, at the apex (where the sine is `FP_ONE`) and
/// at `FP_PI`; a cosine of an angle of zero is therefore exactly one.
pub open spec fn spec_half_sin(x: int) -> int {
    let u = x * (FP_PI - x);
    let num = 16 * u;
    let den = 5 * (FP_PI as int) * (FP_PI as int) - 4 * u;
    fp_clamped(tdiv(num * FP_ONE + den / 2, den), 0, FP_ONE as int)
}

/// The fixed-point sine of an angle in fixed-point radians.
pub open spec fn spec_sin(a: int) -> int {
    let m = a % (FP_TWO_PI as int);
    if m <= FP_PI {
        spec_half_sin(m)
    } else {
        -spec_half_sin(m - FP_PI)
    }
}

/// The fixed-point cosine of an angle in fixed-point radians.
pub open spec fn spec_cos(a: int) -> int {
    spec_sin(a + FP_HALF_PI)
}

/// Sine on `[0, FP_PI]` by a rational approximation.
fn half_sin(x: i64) -> (r: i64)
    requires
        0 <= x <= FP_PI,
    ensures
        r == spec_half_sin(x as int),
        0 <= r <= FP_ONE,
{
    proof {
        assert((x as int) * (FP_PI - x as int) <= (FP_PI as int) * (FP_PI as int))
            by (nonlinear_arith)
            requires
                0 <= x <= FP_PI,
        ;
        assert(0 <= (x as int) * (FP_PI - x as int)) by (nonlinear_arith)
            requires
                0 <= x <= FP_PI,
        ;
    }
    let u: i64 = x * (FP_PI - x);
    let num: i64 = 16 * u;
    let den: i64 = 5 * FP_PI * FP_PI - 4 * u;
    let q = udiv(num * FP_ONE + den / 2, den);
    fp_clamp(q, 0, FP_ONE)
}

/// Approximate sine of `a` fixed-point radians, in `[-FP_ONE, FP_ONE]`.
pub fn fp_sin(a: i64) -> (r: i64)
    requires
        -0x0100_0000_0000_0000 <= a <= 0x0100_0000_0000_0000,
    ensures
        r == spec_sin(a as int),
        -FP_ONE <= r <= FP_ONE,
{
    let m = fp_angle_reduce(a);
    if m <= FP_PI {
        half_sin(m)
    } else {
        -half_sin(m - FP_PI)
    }
}

/// Approximate cosine of `a` fixed-point radians, in `[-FP_ONE, FP_ONE]`.
pub fn fp_cos(a: i64) -> (r: i64)
    requires
        -0x0080_0000_0000_0000 <= a <= 0x0080_0000_0000_0000,
    ensures
        r == spec_cos(a as int),
        -FP_ONE <= r <= FP_ONE,
{
    fp_sin(a + FP_HALF_PI)
}

/// Fixed-point division: `a * FP_ONE / b`, saturated at `FP_SAT`.
pub fn fp_div(a: i64, b: i64) -> (r: i64)
    requires
        -FP_SAT <= a <= FP_SAT,
        b != 0,
        b > i64::MIN,
    ensures
        r == fp_divv(a as int, b as int),
        -FP_SAT <= r <= FP_SAT,
{
    let n: i64 = a * FP_ONE;
    let q = fp_tdiv(n, b);
    fp_sat(q)
}

} // verus!
