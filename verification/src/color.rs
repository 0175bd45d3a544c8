use vstd::prelude::*;

use crate::fixed::{fp_clamp, fp_clamped, fp_tdiv, tdiv, FP_ONE, FP_SAT};

verus! {

/// An RGB color. Channels nominally range over `[0, 255]`; intermediate
/// shading results may leave that range until `clamp` is applied.
#[derive(Clone, Copy, PartialEq, Eq, Structural, Debug)]
pub struct Color {
    pub r: i64,
    pub g: i64,
    pub b: i64,
}

/// Largest displayable channel value.
pub const CHAN_MAX: i64 = 255;

/// All channels within the displayable range.
pub open spec fn color_in_display(c: Color) -> bool {
    &&& 0 <= c.r <= CHAN_MAX
    &&& 0 <= c.g <= CHAN_MAX
    &&& 0 <= c.b <= CHAN_MAX
}

/// Channels within the range shading intermediates can reach (a sum of a few
/// scaled displayable colors).
pub open spec fn color_in_work(c: Color) -> bool {
    &&& -4 * CHAN_MAX <= c.r <= 4 * CHAN_MAX
    &&& -4 * CHAN_MAX <= c.g <= 4 * CHAN_MAX
    &&& -4 * CHAN_MAX <= c.b <= 4 * CHAN_MAX
}

pub open spec fn spec_color_clamped(c: Color) -> Color {
    Color {
        r: fp_clamped(c.r as int, 0, CHAN_MAX as int) as i64,
        g: fp_clamped(c.g as int, 0, CHAN_MAX as int) as i64,
        b: fp_clamped(c.b as int, 0, CHAN_MAX as int) as i64,
    }
}

/// One channel of a linear interpolation with an already-clamped fixed-point
/// parameter `t`.
pub open spec fn spec_lerp_chan(a: int, b: int, t: int) -> int {
    a + tdiv((b - a) * t, FP_ONE as int)
}

/// Linear interpolation from `a` (at `t == 0`) to `b` (at `t == FP_ONE`); the
/// parameter is clamped into `[0, FP_ONE]` first.
pub open spec fn spec_color_lerp(a: Color, b: Color, t: int) -> Color {
    let tc = fp_clamped(t, 0, FP_ONE as int);
    Color {
        r: spec_lerp_chan(a.r as int, b.r as int, tc) as i64,
        g: spec_lerp_chan(a.g as int, b.g as int, tc) as i64,
        b: spec_lerp_chan(a.b as int, b.b as int, tc) as i64,
    }
}

/// A color scaled by a fixed-point intensity in `[0, FP_ONE]`.
pub open spec fn spec_color_scaled(c: Color, i: int) -> Color {
    Color {
        r: tdiv(c.r * i, FP_ONE as int) as i64,
        g: tdiv(c.g * i, FP_ONE as int) as i64,
        b: tdiv(c.b * i, FP_ONE as int) as i64,
    }
}

pub open spec fn spec_color_sum(a: Color, b: Color) -> Color {
    Color { r: (a.r + b.r) as i64, g: (a.g + b.g) as i64, b: (a.b + b.b) as i64 }
}

/// One interpolated channel lies between its endpoints (and so stays
/// displayable when they are).
pub proof fn lemma_lerp_chan_range(a: int, b: int, t: int)
    requires
        0 <= t <= FP_ONE,
    ensures
        a <= b ==> a <= spec_lerp_chan(a, b, t) <= b,
        b <= a ==> b <= spec_lerp_chan(a, b, t) <= a,
{
    let d = b - a;
    let x = d * t;
    if d >= 0 {
        assert(0 <= x <= d * FP_ONE) by (nonlinear_arith)
            requires
                0 <= t <= FP_ONE,
                d >= 0,
                x == d * t,
        ;
        vstd::arithmetic::div_mod::lemma_div_pos_is_pos(x, FP_ONE as int);
        vstd::arithmetic::div_mod::lemma_div_is_ordered(x, d * FP_ONE, FP_ONE as int);
        vstd::arithmetic::div_mod::lemma_div_multiples_vanish(d, FP_ONE as int);
        assert(0 <= tdiv(x, FP_ONE as int) <= d);
    } else {
        assert(0 <= -x <= (-d) * FP_ONE) by (nonlinear_arith)
            requires
                0 <= t <= FP_ONE,
                d < 0,
                x == d * t,
        ;
        vstd::arithmetic::div_mod::lemma_div_pos_is_pos(-x, FP_ONE as int);
        vstd::arithmetic::div_mod::lemma_div_is_ordered(-x, (-d) * FP_ONE, FP_ONE as int);
        vstd::arithmetic::div_mod::lemma_div_multiples_vanish(-d, FP_ONE as int);
        assert(0 <= (-x) / (FP_ONE as int) <= -d);
        assert(tdiv(x, FP_ONE as int) == -((-x) / (FP_ONE as int)));
    }
}

/// Interpolation at the endpoints of the parameter range returns the
/// endpoint colors exactly: `lerp(a, b, 0) == a` and
/// `lerp(a, b, FP_ONE) == b`, for any colors `a` and `b`.
pub proof fn lemma_lerp_endpoints(a: Color, b: Color)
    ensures
        spec_color_lerp(a, b, 0) == a,
        spec_color_lerp(a, b, FP_ONE as int) == b,
{
    lemma_lerp_chan_endpoints(a.r as int, b.r as int);
    lemma_lerp_chan_endpoints(a.g as int, b.g as int);
    lemma_lerp_chan_endpoints(a.b as int, b.b as int);
}

proof fn lemma_lerp_chan_endpoints(a: int, b: int)
    ensures
        spec_lerp_chan(a, b, 0) == a,
        spec_lerp_chan(a, b, FP_ONE as int) == b,
{
    let d = b - a;
    assert(d * 0 == 0) by (nonlinear_arith);
    assert(tdiv(0, FP_ONE as int) == 0);
    if d >= 0 {
        vstd::arithmetic::div_mod::lemma_div_multiples_vanish(d, FP_ONE as int);
    } else {
        vstd::arithmetic::div_mod::lemma_div_multiples_vanish(-d, FP_ONE as int);
        assert((-(d * FP_ONE)) == (-d) * FP_ONE) by (nonlinear_arith);
    }
    assert(tdiv(d * FP_ONE, FP_ONE as int) == d);
}

impl Color {
    pub fn new(r: i64, g: i64, b: i64) -> (c: Color)
        ensures
            c == (Color { r, g, b }),
    {
        Color { r, g, b }
    }

    /// A displayable color from fixed-point channel fractions
    /// (`FP_ONE` is full brightness), each clamped into `[0, FP_ONE]`.
    pub fn from_fp(r: i64, g: i64, b: i64) -> (c: Color)
        requires
            -FP_SAT <= r <= FP_SAT,
            -FP_SAT <= g <= FP_SAT,
            -FP_SAT <= b <= FP_SAT,
        ensures
            c.r == tdiv(fp_clamped(r as int, 0, FP_ONE as int) * CHAN_MAX, FP_ONE as int),
            c.g == tdiv(fp_clamped(g as int, 0, FP_ONE as int) * CHAN_MAX, FP_ONE as int),
            c.b == tdiv(fp_clamped(b as int, 0, FP_ONE as int) * CHAN_MAX, FP_ONE as int),
            color_in_display(c),
    {
        Color { r: chan_from_fp(r), g: chan_from_fp(g), b: chan_from_fp(b) }
    }

    /// Clamp every channel into the displayable range.
    pub fn clamp(&self) -> (c: Color)
        ensures
            c == spec_color_clamped(*self),
            color_in_display(c),
    {
        Color {
            r: fp_clamp(self.r, 0, CHAN_MAX),
            g: fp_clamp(self.g, 0, CHAN_MAX),
            b: fp_clamp(self.b, 0, CHAN_MAX),
        }
    }

    /// Linear interpolation toward `other`, `t` in fixed point
    /// (`0` yields `self`, `FP_ONE` yields `other`).
    pub fn lerp(&self, other: &Color, t: i64) -> (c: Color)
        requires
            color_in_display(*self),
            color_in_display(*other),
            -FP_SAT <= t <= FP_SAT,
        ensures
            c == spec_color_lerp(*self, *other, t as int),
            color_in_display(c),
    {
        let tc = fp_clamp(t, 0, FP_ONE);
        proof {
            lemma_lerp_chan_range(self.r as int, other.r as int, tc as int);
            lemma_lerp_chan_range(self.g as int, other.g as int, tc as int);
            lemma_lerp_chan_range(self.b as int, other.b as int, tc as int);
        }
        Color {
            r: lerp_chan(self.r, other.r, tc),
            g: lerp_chan(self.g, other.g, tc),
            b: lerp_chan(self.b, other.b, tc),
        }
    }

    /// Scale every channel by a fixed-point intensity in `[0, FP_ONE]`.
    pub fn scaled(&self, intensity: i64) -> (c: Color)
        requires
            color_in_display(*self),
            0 <= intensity <= FP_ONE,
        ensures
            c == spec_color_scaled(*self, intensity as int),
            color_in_display(c),
    {
        proof {
            lemma_scale_chan_range(self.r as int, intensity as int);
            lemma_scale_chan_range(self.g as int, intensity as int);
            lemma_scale_chan_range(self.b as int, intensity as int);
            lemma_chan_product_bounds(self.r as int, intensity as int);
            lemma_chan_product_bounds(self.g as int, intensity as int);
            lemma_chan_product_bounds(self.b as int, intensity as int);
        }
        Color {
            r: fp_tdiv(self.r * intensity, FP_ONE),
            g: fp_tdiv(self.g * intensity, FP_ONE),
            b: fp_tdiv(self.b * intensity, FP_ONE),
        }
    }

    /// Channel-wise sum (not clamped; feed through `clamp` for display).
    pub fn sum(&self, other: &Color) -> (c: Color)
        requires
            color_in_work(*self),
            color_in_work(*other),
        ensures
            c == spec_color_sum(*self, *other),
    {
        Color { r: self.r + other.r, g: self.g + other.g, b: self.b + other.b }
    }

    /// Pack a displayable color as `0x00RRGGBB`.
    pub fn to_hex(&self) -> (h: u32)
        requires
            color_in_display(*self),
        ensures
            h == self.r * 0x10000 + self.g * 0x100 + self.b,
    {
        (self.r * 0x10000 + self.g * 0x100 + self.b) as u32
    }
}

fn chan_from_fp(v: i64) -> (r: i64)
    requires
        -FP_SAT <= v <= FP_SAT,
    ensures
        r == tdiv(fp_clamped(v as int, 0, FP_ONE as int) * CHAN_MAX, FP_ONE as int),
        0 <= r <= CHAN_MAX,
{
    let c = fp_clamp(v, 0, FP_ONE);
    proof {
        assert(0 <= c * CHAN_MAX <= FP_ONE * CHAN_MAX) by (nonlinear_arith)
            requires
                0 <= c <= FP_ONE,
        ;
        vstd::arithmetic::div_mod::lemma_div_pos_is_pos(c * CHAN_MAX, FP_ONE as int);
        vstd::arithmetic::div_mod::lemma_div_is_ordered(
            c * CHAN_MAX,
            CHAN_MAX * FP_ONE,
            FP_ONE as int,
        );
        vstd::arithmetic::div_mod::lemma_div_multiples_vanish(CHAN_MAX as int, FP_ONE as int);
    }
    (c * CHAN_MAX) / FP_ONE
}

fn lerp_chan(a: i64, b: i64, tc: i64) -> (r: i64)
    requires
        0 <= a <= CHAN_MAX,
        0 <= b <= CHAN_MAX,
        0 <= tc <= FP_ONE,
    ensures
        r == spec_lerp_chan(a as int, b as int, tc as int),
{
    proof {
        lemma_lerp_chan_range(a as int, b as int, tc as int);
        assert(-CHAN_MAX * FP_ONE <= (b - a) * (tc as int) <= CHAN_MAX * FP_ONE)
            by (nonlinear_arith)
            requires
                0 <= a <= CHAN_MAX,
                0 <= b <= CHAN_MAX,
                0 <= tc <= FP_ONE,
        ;
    }
    a + fp_tdiv((b - a) * tc, FP_ONE)
}

proof fn lemma_chan_product_bounds(a: int, i: int)
    requires
        0 <= a <= CHAN_MAX,
        0 <= i <= FP_ONE,
    ensures
        0 <= a * i <= CHAN_MAX * FP_ONE,
{
    assert(0 <= a * i <= CHAN_MAX * FP_ONE) by (nonlinear_arith)
        requires
            0 <= a <= CHAN_MAX,
            0 <= i <= FP_ONE,
    ;
}

proof fn lemma_scale_chan_range(a: int, i: int)
    requires
        0 <= a <= CHAN_MAX,
        0 <= i <= FP_ONE,
    ensures
        0 <= tdiv(a * i, FP_ONE as int) <= a,
{
    assert(0 <= a * i <= a * FP_ONE) by (nonlinear_arith)
        requires
            0 <= a,
            0 <= i <= FP_ONE,
    ;
    vstd::arithmetic::div_mod::lemma_div_pos_is_pos(a * i, FP_ONE as int);
    vstd::arithmetic::div_mod::lemma_div_is_ordered(a * i, a * FP_ONE, FP_ONE as int);
    vstd::arithmetic::div_mod::lemma_div_multiples_vanish(a, FP_ONE as int);
}

} // verus!
