use vstd::prelude::*;

use crate::color::{color_in_display, spec_color_clamped, spec_color_lerp, spec_color_scaled, spec_color_sum, Color};
use crate::fixed::{fp_clamp, fp_clamped, fp_mul, fp_mulv, fp_sat, fp_sin, fp_tdiv, spec_sin, tdiv, FP_ONE, FP_SAT};
use crate::fragment::{frag_in_sat, Fragment};
use crate::mat::{normal_matrix, spec_mat_mul, spec_mat_vec, spec_mat3_vec, spec_normal_matrix, Mat4, Vec4};
use crate::uniforms::{uniforms_wf, Uniforms};
use crate::vec3::{spec_vdot, spec_vnormalized, spec_vsub, Vec3};
use crate::vertex::{vertex_in_sat, Vertex};

verus! {

/// Height of the light source above the scene origin, fixed point (20.0).
pub const LIGHT_Z: i64 = 1310720;

/// One noise sample a shader asks for: which field of the uniforms' noise
/// list, and the fixed-point coordinates to sample it at (`planar` samples
/// ignore `z`).
#[derive(Clone, Copy, PartialEq, Eq, Structural, Debug)]
pub struct NoiseSite {
    pub index: usize,
    pub x: i64,
    pub y: i64,
    pub z: i64,
    pub planar: bool,
}

/// A noise sample clamped into the unit fixed-point range.
pub open spec fn spec_unit(n: int) -> int {
    fp_clamped(n, -FP_ONE as int, FP_ONE as int)
}

fn unit(n: i64) -> (r: i64)
    ensures
        r == spec_unit(n as int),
        -FP_ONE <= r <= FP_ONE,
{
    fp_clamp(n, -FP_ONE, FP_ONE)
}

/// A noise sample remapped from `[-1, 1]` into `[0, 1]`, fixed point.
pub open spec fn spec_unit01(n: int) -> int {
    tdiv(spec_unit(n) + FP_ONE, 2)
}

fn unit01(n: i64) -> (r: i64)
    ensures
        r == spec_unit01(n as int),
        0 <= r <= FP_ONE,
{
    let u = unit(n);
    proof {
        vstd::arithmetic::div_mod::lemma_div_pos_is_pos(u + FP_ONE, 2);
        vstd::arithmetic::div_mod::lemma_div_is_ordered(u + FP_ONE, 2 * FP_ONE, 2);
        vstd::arithmetic::div_mod::lemma_div_multiples_vanish(FP_ONE as int, 2);
    }
    (u + FP_ONE) / 2
}

/// The position of the scene's light.
pub open spec fn spec_light_pos() -> Vec3 {
    Vec3 { x: 0, y: 0, z: LIGHT_Z }
}

/// Diffuse lighting at a fragment: the renormalized surface normal dotted
/// with the direction toward the light, clamped at zero.
pub open spec fn spec_diffuse(f: Fragment) -> int {
    let n = spec_vnormalized(f.normal);
    let ld = spec_vnormalized(spec_vsub(spec_light_pos(), f.vertex_position));
    fp_clamped(spec_vdot(n, ld), 0, FP_ONE as int)
}

fn diffuse(f: &Fragment) -> (r: i64)
    requires
        frag_in_sat(*f),
    ensures
        r == spec_diffuse(*f),
        0 <= r <= FP_ONE,
{
    let n = f.normal.normalized();
    let light_pos = Vec3 { x: 0, y: 0, z: LIGHT_Z };
    let ld = light_pos.sub(&f.vertex_position).normalized();
    fp_clamp(n.dot(&ld), 0, FP_ONE)
}

/// The screen-space vertex produced by the vertex stage: the
/// projection-view-model product applied to the homogeneous position,
/// perspective division (with divisor 1 when `w` is zero), the viewport
/// mapping, and the normal transformed by the model's normal matrix.
pub open spec fn spec_vertex_shader(v: Vertex, u: Uniforms) -> Vertex {
    let mvp = spec_mat_mul(spec_mat_mul(u.projection_matrix, u.view_matrix), u.model_matrix);
    let clip = spec_mat_vec(mvp, Vec4 { x: v.position.x, y: v.position.y, z: v.position.z, w: FP_ONE });
    let w = if clip.w == 0 {
        FP_ONE as int
    } else {
        clip.w as int
    };
    let ndc = Vec4 {
        x: crate::fixed::fp_divv(clip.x as int, w) as i64,
        y: crate::fixed::fp_divv(clip.y as int, w) as i64,
        z: crate::fixed::fp_divv(clip.z as int, w) as i64,
        w: FP_ONE,
    };
    let screen = spec_mat_vec(u.viewport_matrix, ndc);
    let tn = spec_mat3_vec(spec_normal_matrix(u.model_matrix), v.normal);
    Vertex {
        transformed_position: Vec3 { x: screen.x, y: screen.y, z: screen.z },
        transformed_normal: tn,
        ..v
    }
}

/// The vertex stage. A pure function of its arguments: two calls with equal
/// arguments return the identical vertex.
#[verifier::rlimit(100)]
pub fn vertex_shader(v: &Vertex, u: &Uniforms) -> (r: Vertex)
    requires
        vertex_in_sat(*v),
        uniforms_wf(*u),
    ensures
        r == spec_vertex_shader(*v, *u),
        vertex_in_sat(r),
{
    let mvp = u.projection_matrix.mul_mat(&u.view_matrix).mul_mat(&u.model_matrix);
    let clip = mvp.mul_vec4(&Vec4 { x: v.position.x, y: v.position.y, z: v.position.z, w: FP_ONE });
    let w = if clip.w == 0 {
        FP_ONE
    } else {
        clip.w
    };
    let ndc = Vec4 {
        x: crate::fixed::fp_div(clip.x, w),
        y: crate::fixed::fp_div(clip.y, w),
        z: crate::fixed::fp_div(clip.z, w),
        w: FP_ONE,
    };
    let screen = u.viewport_matrix.mul_vec4(&ndc);
    let nm = normal_matrix(&u.model_matrix);
    let tn = nm.mul_vec3(&v.normal);
    Vertex {
        position: v.position,
        normal: v.normal,
        tex_u: v.tex_u,
        tex_v: v.tex_v,
        color: v.color,
        transformed_position: Vec3 { x: screen.x, y: screen.y, z: screen.z },
        transformed_normal: tn,
    }
}

/// The animated offset the hot-surface shader adds to its sampling depth: a
/// slow sinusoid of time.
pub open spec fn spec_lava_pulsate(time: int) -> int {
    fp_mulv(spec_sin(fp_mulv(fp_mulv(time, 655), 13107)), 32768)
}

fn lava_pulsate(time: i64) -> (r: i64)
    requires
        -FP_SAT <= time <= FP_SAT,
    ensures
        r == spec_lava_pulsate(time as int),
        -FP_ONE <= r <= FP_ONE,
{
    fp_mul(fp_sin(fp_mul(fp_mul(time, 655), 13107)), 32768)
}

/// The two samples the hot-surface shader takes: the same field at the
/// fragment's position and at a large constant offset, both zoomed, with the
/// pulsating depth perturbation.
pub open spec fn spec_lava_sites(f: Fragment, time: int) -> Seq<NoiseSite> {
    let p = spec_lava_pulsate(time);
    let s1 = NoiseSite {
        index: 0,
        x: fp_mulv(f.vertex_position.x as int, 65536000) as i64,
        y: fp_mulv(f.vertex_position.y as int, 65536000) as i64,
        z: fp_mulv(fp_clamped(f.depth + p, -FP_SAT as int, FP_SAT as int), 65536000) as i64,
        planar: false,
    };
    let s2 = NoiseSite {
        index: 0,
        x: fp_mulv(fp_clamped(f.vertex_position.x + 65536000, -FP_SAT as int, FP_SAT as int), 65536000) as i64,
        y: fp_mulv(fp_clamped(f.vertex_position.y + 65536000, -FP_SAT as int, FP_SAT as int), 65536000) as i64,
        z: fp_mulv(fp_clamped(f.depth + 65536000 + p, -FP_SAT as int, FP_SAT as int), 65536000) as i64,
        planar: false,
    };
    seq![s1, s2]
}

pub fn lava_shader_sites(f: &Fragment, time: i64) -> (r: Vec<NoiseSite>)
    requires
        frag_in_sat(*f),
        -FP_SAT <= time <= FP_SAT,
    ensures
        r@ == spec_lava_sites(*f, time as int),
        r@.len() == 2,
{
    let p = lava_pulsate(time);
    let s1 = NoiseSite {
        index: 0,
        x: fp_mul(f.vertex_position.x, 65536000),
        y: fp_mul(f.vertex_position.y, 65536000),
        z: fp_mul(fp_sat(f.depth + p), 65536000),
        planar: false,
    };
    let s2 = NoiseSite {
        index: 0,
        x: fp_mul(fp_sat(f.vertex_position.x + 65536000), 65536000),
        y: fp_mul(fp_sat(f.vertex_position.y + 65536000), 65536000),
        z: fp_mul(fp_sat(f.depth + 65536000 + p), 65536000),
        planar: false,
    };
    let mut v: Vec<NoiseSite> = Vec::new();
    v.push(s1);
    v.push(s2);
    proof {
        assert(v@ =~= spec_lava_sites(*f, time as int));
    }
    v
}

/// The hot-surface color: the average of the two samples blends the dark
/// color toward the bright one, scaled by the fragment's lighting intensity.
pub open spec fn spec_lava_color(f: Fragment, samples: Seq<i64>) -> Color
    recommends
        samples.len() >= 2,
{
    let n1 = spec_unit(samples[0] as int);
    let n2 = spec_unit(samples[1] as int);
    let avg = tdiv(n1 + n2, 2);
    let dark = Color { r: 130, g: 20, b: 0 };
    let bright = Color { r: 255, g: 240, b: 0 };
    spec_color_scaled(spec_color_lerp(dark, bright, avg), f.intensity as int)
}

/// The animated hot-surface material.
pub fn lava_shader(f: &Fragment, samples: &Vec<i64>) -> (r: Color)
    requires
        frag_in_sat(*f),
        samples@.len() >= 2,
    ensures
        r == spec_lava_color(*f, samples@),
        color_in_display(r),
{
    let n1 = unit(samples[0]);
    let n2 = unit(samples[1]);
    let avg = fp_tdiv(n1 + n2, 2);
    let dark = Color::new(130, 20, 0);
    let bright = Color::new(255, 240, 0);
    dark.lerp(&bright, avg).scaled(f.intensity)
}

/// The default material: the hot-surface shader's sampling plan.
pub fn fragment_shader_sites(f: &Fragment, time: i64) -> (r: Vec<NoiseSite>)
    requires
        frag_in_sat(*f),
        -FP_SAT <= time <= FP_SAT,
    ensures
        r@ == spec_lava_sites(*f, time as int),
        r@.len() == 2,
{
    lava_shader_sites(f, time)
}

/// The default material: the hot-surface shader.
pub fn fragment_shader(f: &Fragment, samples: &Vec<i64>) -> (r: Color)
    requires
        frag_in_sat(*f),
        samples@.len() >= 2,
    ensures
        r == spec_lava_color(*f, samples@),
        color_in_display(r),
{
    lava_shader(f, samples)
}

/// The two samples the land/water/cloud shader takes: the terrain field and
/// the cloud field, each drifting with time at its own speed.
pub open spec fn spec_earth_sites(f: Fragment, time: int) -> Seq<NoiseSite> {
    let t = fp_mulv(time, 7);
    let o1 = fp_mulv(t, 655);
    let o2 = fp_mulv(t, 1966);
    let s1 = NoiseSite {
        index: 0,
        x: fp_clamped(f.vertex_position.x + o1, -FP_SAT as int, FP_SAT as int) as i64,
        y: fp_clamped(f.vertex_position.y + o1, -FP_SAT as int, FP_SAT as int) as i64,
        z: fp_clamped(f.vertex_position.z + o1, -FP_SAT as int, FP_SAT as int) as i64,
        planar: false,
    };
    let s2 = NoiseSite {
        index: 1,
        x: fp_clamped(f.vertex_position.x + o2, -FP_SAT as int, FP_SAT as int) as i64,
        y: fp_clamped(f.vertex_position.y + o2, -FP_SAT as int, FP_SAT as int) as i64,
        z: fp_clamped(f.vertex_position.z + o2, -FP_SAT as int, FP_SAT as int) as i64,
        planar: false,
    };
    seq![s1, s2]
}

pub fn shader_earth_sites(f: &Fragment, time: i64) -> (r: Vec<NoiseSite>)
    requires
        frag_in_sat(*f),
        -FP_SAT <= time <= FP_SAT,
    ensures
        r@ == spec_earth_sites(*f, time as int),
        r@.len() == 2,
{
    let t = fp_mul(time, 7);
    let o1 = fp_mul(t, 655);
    let o2 = fp_mul(t, 1966);
    let s1 = NoiseSite {
        index: 0,
        x: fp_sat(f.vertex_position.x + o1),
        y: fp_sat(f.vertex_position.y + o1),
        z: fp_sat(f.vertex_position.z + o1),
        planar: false,
    };
    let s2 = NoiseSite {
        index: 1,
        x: fp_sat(f.vertex_position.x + o2),
        y: fp_sat(f.vertex_position.y + o2),
        z: fp_sat(f.vertex_position.z + o2),
        planar: false,
    };
    let mut v: Vec<NoiseSite> = Vec::new();
    v.push(s1);
    v.push(s2);
    proof {
        assert(v@ =~= spec_earth_sites(*f, time as int));
    }
    v
}

/// The land/water/cloud color: the terrain sample thresholds into land or
/// water, the cloud sample's remapped opacity blends a cloud layer over it,
/// and ambient plus diffuse lighting is applied. The cloud remap offsets the
/// sample by 1.5 rather than 1.0 before halving; this asymmetry is kept
/// deliberately.
pub open spec fn spec_earth_color(f: Fragment, samples: Seq<i64>) -> Color
    recommends
        samples.len() >= 2,
{
    let d = spec_diffuse(f);
    let landn = spec_unit01(samples[0] as int);
    let base = if landn > 32768 {
        Color { r: 77, g: 128, b: 51 }
    } else {
        Color { r: 0, g: 26, b: 102 }
    };
    let cloudn = tdiv(spec_unit(samples[1] as int) + 98304, 2);
    let opacity = fp_clamped(crate::fixed::fp_divv(cloudn - 45875, 19661), 0, FP_ONE as int);
    let base2 = spec_color_lerp(base, Color { r: 153, g: 153, b: 153 }, opacity);
    let lit = spec_color_scaled(base2, d);
    let ambient = spec_color_scaled(base2, 19661);
    spec_color_clamped(spec_color_sum(ambient, lit))
}

/// The land/water/cloud material.
pub fn shader_earth(f: &Fragment, samples: &Vec<i64>) -> (r: Color)
    requires
        frag_in_sat(*f),
        samples@.len() >= 2,
    ensures
        r == spec_earth_color(*f, samples@),
        color_in_display(r),
{
    let d = diffuse(f);
    let landn = unit01(samples[0]);
    let base = if landn > 32768 {
        Color::new(77, 128, 51)
    } else {
        Color::new(0, 26, 102)
    };
    let u1 = unit(samples[1]);
    proof {
        vstd::arithmetic::div_mod::lemma_div_pos_is_pos(u1 + 98304, 2);
        vstd::arithmetic::div_mod::lemma_div_is_ordered(u1 + 98304, 163840, 2);
    }
    let cloudn = (u1 + 98304) / 2;
    let opacity = fp_clamp(crate::fixed::fp_div(cloudn - 45875, 19661), 0, FP_ONE);
    let base2 = base.lerp(&Color::new(153, 153, 153), opacity);
    let lit = base2.scaled(d);
    let ambient = base2.scaled(19661);
    ambient.sum(&lit).clamp()
}

/// The single sample the banded gas-giant shader takes: its field at the
/// fragment's model-space position.
pub open spec fn spec_jupiter_sites(f: Fragment) -> Seq<NoiseSite> {
    seq![
        NoiseSite {
            index: 0,
            x: f.vertex_position.x,
            y: f.vertex_position.y,
            z: f.vertex_position.z,
            planar: false,
        },
    ]
}

pub fn shader_jupiter_sites(f: &Fragment) -> (r: Vec<NoiseSite>)
    requires
        frag_in_sat(*f),
    ensures
        r@ == spec_jupiter_sites(*f),
        r@.len() == 1,
{
    let s = NoiseSite {
        index: 0,
        x: f.vertex_position.x,
        y: f.vertex_position.y,
        z: f.vertex_position.z,
        planar: false,
    };
    let mut v: Vec<NoiseSite> = Vec::new();
    v.push(s);
    proof {
        assert(v@ =~= spec_jupiter_sites(*f));
    }
    v
}

/// The banded gas-giant color: the normalized sample interpolates smoothly
/// between the two band colors (no threshold), then ambient plus diffuse
/// lighting is applied.
pub open spec fn spec_jupiter_color(f: Fragment, samples: Seq<i64>) -> Color
    recommends
        samples.len() >= 1,
{
    let d = spec_diffuse(f);
    let n = spec_unit01(samples[0] as int);
    let base = spec_color_lerp(Color { r: 205, g: 133, b: 63 }, Color { r: 221, g: 183, b: 134 }, n);
    let lit = spec_color_scaled(base, d);
    let ambient = spec_color_scaled(base, 6554);
    spec_color_clamped(spec_color_sum(ambient, lit))
}

/// The banded gas-giant material.
pub fn shader_jupiter(f: &Fragment, samples: &Vec<i64>) -> (r: Color)
    requires
        frag_in_sat(*f),
        samples@.len() >= 1,
    ensures
        r == spec_jupiter_color(*f, samples@),
        color_in_display(r),
{
    let d = diffuse(f);
    let n = unit01(samples[0]);
    let base = Color::new(205, 133, 63).lerp(&Color::new(221, 183, 134), n);
    let lit = base.scaled(d);
    let ambient = base.scaled(6554);
    ambient.sum(&lit).clamp()
}

/// The single planar sample the cloud shader takes: the field at the zoomed,
/// offset position, drifting with time along one axis.
pub open spec fn spec_cloud_sites(f: Fragment, time: int) -> Seq<NoiseSite> {
    let t = fp_mulv(time, 32768);
    seq![
        NoiseSite {
            index: 0,
            x: fp_clamped(
                fp_mulv(f.vertex_position.x as int, 6553600) + 6553600 + t,
                -FP_SAT as int,
                FP_SAT as int,
            ) as i64,
            y: fp_clamped(
                fp_mulv(f.vertex_position.y as int, 6553600) + 6553600,
                -FP_SAT as int,
                FP_SAT as int,
            ) as i64,
            z: 0,
            planar: true,
        },
    ]
}

pub fn cloud_shader_sites(f: &Fragment, time: i64) -> (r: Vec<NoiseSite>)
    requires
        frag_in_sat(*f),
        -FP_SAT <= time <= FP_SAT,
    ensures
        r@ == spec_cloud_sites(*f, time as int),
        r@.len() == 1,
{
    let t = fp_mul(time, 32768);
    let s = NoiseSite {
        index: 0,
        x: fp_sat(fp_mul(f.vertex_position.x, 6553600) + 6553600 + t),
        y: fp_sat(fp_mul(f.vertex_position.y, 6553600) + 6553600),
        z: 0,
        planar: true,
    };
    let mut v: Vec<NoiseSite> = Vec::new();
    v.push(s);
    proof {
        assert(v@ =~= spec_cloud_sites(*f, time as int));
    }
    v
}

/// Cloud or sky by a threshold on the sample, under the fragment's lighting.
pub open spec fn spec_cloud_color(f: Fragment, samples: Seq<i64>) -> Color
    recommends
        samples.len() >= 1,
{
    let n = spec_unit(samples[0] as int);
    let base = if n > 32768 {
        Color { r: 255, g: 255, b: 255 }
    } else {
        Color { r: 30, g: 97, b: 145 }
    };
    spec_color_scaled(base, f.intensity as int)
}

/// The cloud-or-sky material.
pub fn cloud_shader(f: &Fragment, samples: &Vec<i64>) -> (r: Color)
    requires
        frag_in_sat(*f),
        samples@.len() >= 1,
    ensures
        r == spec_cloud_color(*f, samples@),
        color_in_display(r),
{
    let n = unit(samples[0]);
    let base = if n > 32768 {
        Color::new(255, 255, 255)
    } else {
        Color::new(30, 97, 145)
    };
    base.scaled(f.intensity)
}

/// The single planar sample the spotted shader takes.
pub open spec fn spec_dalmata_sites(f: Fragment) -> Seq<NoiseSite> {
    seq![
        NoiseSite {
            index: 0,
            x: fp_mulv(f.vertex_position.x as int, 6553600) as i64,
            y: fp_mulv(f.vertex_position.y as int, 6553600) as i64,
            z: 0,
            planar: true,
        },
    ]
}

pub fn dalmata_shader_sites(f: &Fragment) -> (r: Vec<NoiseSite>)
    requires
        frag_in_sat(*f),
    ensures
        r@ == spec_dalmata_sites(*f),
        r@.len() == 1,
{
    let s = NoiseSite {
        index: 0,
        x: fp_mul(f.vertex_position.x, 6553600),
        y: fp_mul(f.vertex_position.y, 6553600),
        z: 0,
        planar: true,
    };
    let mut v: Vec<NoiseSite> = Vec::new();
    v.push(s);
    proof {
        assert(v@ =~= spec_dalmata_sites(*f));
    }
    v
}

/// White spots on black by a threshold on the sample.
pub open spec fn spec_dalmata_color(f: Fragment, samples: Seq<i64>) -> Color
    recommends
        samples.len() >= 1,
{
    let n = spec_unit(samples[0] as int);
    let base = if n < 32768 {
        Color { r: 255, g: 255, b: 255 }
    } else {
        Color { r: 0, g: 0, b: 0 }
    };
    spec_color_scaled(base, f.intensity as int)
}

/// The spotted material.
pub fn dalmata_shader(f: &Fragment, samples: &Vec<i64>) -> (r: Color)
    requires
        frag_in_sat(*f),
        samples@.len() >= 1,
    ensures
        r == spec_dalmata_color(*f, samples@),
        color_in_display(r),
{
    let n = unit(samples[0]);
    let base = if n < 32768 {
        Color::new(255, 255, 255)
    } else {
        Color::new(0, 0, 0)
    };
    base.scaled(f.intensity)
}

/// The single planar sample the cell-pattern shader takes.
pub open spec fn spec_cellular_sites(f: Fragment) -> Seq<NoiseSite> {
    seq![
        NoiseSite {
            index: 0,
            x: fp_clamped(
                fp_mulv(f.vertex_position.x as int, 1966080) + 3276800,
                -FP_SAT as int,
                FP_SAT as int,
            ) as i64,
            y: fp_clamped(
                fp_mulv(f.vertex_position.y as int, 1966080) + 3276800,
                -FP_SAT as int,
                FP_SAT as int,
            ) as i64,
            z: 0,
            planar: true,
        },
    ]
}

pub fn cellular_shader_sites(f: &Fragment) -> (r: Vec<NoiseSite>)
    requires
        frag_in_sat(*f),
    ensures
        r@ == spec_cellular_sites(*f),
        r@.len() == 1,
{
    let s = NoiseSite {
        index: 0,
        x: fp_sat(fp_mul(f.vertex_position.x, 1966080) + 3276800),
        y: fp_sat(fp_mul(f.vertex_position.y, 1966080) + 3276800),
        z: 0,
        planar: true,
    };
    let mut v: Vec<NoiseSite> = Vec::new();
    v.push(s);
    proof {
        assert(v@ =~= spec_cellular_sites(*f));
    }
    v
}

/// Four shades of green picked by thresholds on the magnitude of the sample.
pub open spec fn spec_cellular_color(f: Fragment, samples: Seq<i64>) -> Color
    recommends
        samples.len() >= 1,
{
    let n = spec_unit(samples[0] as int);
    let a = if n < 0 {
        -n
    } else {
        n
    };
    let base = if a < 9830 {
        Color { r: 85, g: 107, b: 47 }
    } else if a < 45875 {
        Color { r: 124, g: 252, b: 0 }
    } else if a < 49152 {
        Color { r: 34, g: 139, b: 34 }
    } else {
        Color { r: 173, g: 255, b: 47 }
    };
    spec_color_scaled(base, f.intensity as int)
}

/// The cell-pattern material.
pub fn cellular_shader(f: &Fragment, samples: &Vec<i64>) -> (r: Color)
    requires
        frag_in_sat(*f),
        samples@.len() >= 1,
    ensures
        r == spec_cellular_color(*f, samples@),
        color_in_display(r),
{
    let n = unit(samples[0]);
    let a = if n < 0 {
        -n
    } else {
        n
    };
    let base = if a < 9830 {
        Color::new(85, 107, 47)
    } else if a < 45875 {
        Color::new(124, 252, 0)
    } else if a < 49152 {
        Color::new(34, 139, 34)
    } else {
        Color::new(173, 255, 47)
    };
    base.scaled(f.intensity)
}

/// The two samples the cratered gray body takes: large features and fine
/// detail, at two zoom levels.
pub open spec fn spec_moon_sites(f: Fragment) -> Seq<NoiseSite> {
    let s1 = NoiseSite {
        index: 0,
        x: fp_mulv(f.vertex_position.x as int, 131072) as i64,
        y: fp_mulv(f.vertex_position.y as int, 131072) as i64,
        z: fp_mulv(f.vertex_position.z as int, 131072) as i64,
        planar: false,
    };
    let s2 = NoiseSite {
        index: 1,
        x: fp_mulv(f.vertex_position.x as int, 655360) as i64,
        y: fp_mulv(f.vertex_position.y as int, 655360) as i64,
        z: fp_mulv(f.vertex_position.z as int, 655360) as i64,
        planar: false,
    };
    seq![s1, s2]
}

pub fn shader_moon_sites(f: &Fragment) -> (r: Vec<NoiseSite>)
    requires
        frag_in_sat(*f),
    ensures
        r@ == spec_moon_sites(*f),
        r@.len() == 2,
{
    let s1 = NoiseSite {
        index: 0,
        x: fp_mul(f.vertex_position.x, 131072),
        y: fp_mul(f.vertex_position.y, 131072),
        z: fp_mul(f.vertex_position.z, 131072),
        planar: false,
    };
    let s2 = NoiseSite {
        index: 1,
        x: fp_mul(f.vertex_position.x, 655360),
        y: fp_mul(f.vertex_position.y, 655360),
        z: fp_mul(f.vertex_position.z, 655360),
        planar: false,
    };
    let mut v: Vec<NoiseSite> = Vec::new();
    v.push(s1);
    v.push(s2);
    proof {
        assert(v@ =~= spec_moon_sites(*f));
    }
    v
}

/// Three grays picked by thresholds on the first sample; the second sample
/// darkens the surface slightly without changing the discrete choice.
pub open spec fn spec_moon_color(f: Fragment, samples: Seq<i64>) -> Color
    recommends
        samples.len() >= 2,
{
    let n1 = spec_unit(samples[0] as int);
    let n2 = spec_unit(samples[1] as int);
    let base = if n1 < -13107 {
        Color { r: 90, g: 90, b: 95 }
    } else if n1 < 19661 {
        Color { r: 150, g: 150, b: 155 }
    } else {
        Color { r: 200, g: 200, b: 205 }
    };
    let a = if n2 < 0 {
        -n2
    } else {
        n2
    };
    let shaded = spec_color_lerp(base, Color { r: 60, g: 60, b: 65 }, fp_mulv(a, 16384));
    spec_color_scaled(shaded, f.intensity as int)
}

/// The cratered gray material.
pub fn shader_moon(f: &Fragment, samples: &Vec<i64>) -> (r: Color)
    requires
        frag_in_sat(*f),
        samples@.len() >= 2,
    ensures
        r == spec_moon_color(*f, samples@),
        color_in_display(r),
{
    let n1 = unit(samples[0]);
    let n2 = unit(samples[1]);
    let base = if n1 < -13107 {
        Color::new(90, 90, 95)
    } else if n1 < 19661 {
        Color::new(150, 150, 155)
    } else {
        Color::new(200, 200, 205)
    };
    let a = if n2 < 0 {
        -n2
    } else {
        n2
    };
    let shaded = base.lerp(&Color::new(60, 60, 65), fp_mul(a, 16384));
    shaded.scaled(f.intensity)
}

/// The two samples the cratered brown body takes.
pub open spec fn spec_mercury_sites(f: Fragment) -> Seq<NoiseSite> {
    let s1 = NoiseSite {
        index: 0,
        x: fp_mulv(f.vertex_position.x as int, 32768) as i64,
        y: fp_mulv(f.vertex_position.y as int, 32768) as i64,
        z: fp_mulv(f.vertex_position.z as int, 32768) as i64,
        planar: false,
    };
    let s2 = NoiseSite {
        index: 1,
        x: fp_mulv(f.vertex_position.x as int, 131072) as i64,
        y: fp_mulv(f.vertex_position.y as int, 131072) as i64,
        z: fp_mulv(f.vertex_position.z as int, 131072) as i64,
        planar: false,
    };
    seq![s1, s2]
}

pub fn shader_mercury_sites(f: &Fragment) -> (r: Vec<NoiseSite>)
    requires
        frag_in_sat(*f),
    ensures
        r@ == spec_mercury_sites(*f),
        r@.len() == 2,
{
    let s1 = NoiseSite {
        index: 0,
        x: fp_mul(f.vertex_position.x, 32768),
        y: fp_mul(f.vertex_position.y, 32768),
        z: fp_mul(f.vertex_position.z, 32768),
        planar: false,
    };
    let s2 = NoiseSite {
        index: 1,
        x: fp_mul(f.vertex_position.x, 131072),
        y: fp_mul(f.vertex_position.y, 131072),
        z: fp_mul(f.vertex_position.z, 131072),
        planar: false,
    };
    let mut v: Vec<NoiseSite> = Vec::new();
    v.push(s1);
    v.push(s2);
    proof {
        assert(v@ =~= spec_mercury_sites(*f));
    }
    v
}

/// Four browns picked by thresholds on the crater sample; the texture sample
/// darkens the surface without changing the discrete choice.
pub open spec fn spec_mercury_color(f: Fragment, samples: Seq<i64>) -> Color
    recommends
        samples.len() >= 2,
{
    let n1 = spec_unit(samples[0] as int);
    let n2 = spec_unit(samples[1] as int);
    let base = if n1 < -19661 {
        Color { r: 70, g: 60, b: 50 }
    } else if n1 < 6554 {
        Color { r: 120, g: 110, b: 100 }
    } else if n1 < 39322 {
        Color { r: 160, g: 150, b: 140 }
    } else {
        Color { r: 190, g: 180, b: 170 }
    };
    let a = if n2 < 0 {
        -n2
    } else {
        n2
    };
    let shaded = spec_color_lerp(base, Color { r: 50, g: 45, b: 40 }, fp_mulv(a, 13107));
    spec_color_scaled(shaded, f.intensity as int)
}

/// The cratered brown material.
pub fn shader_mercury(f: &Fragment, samples: &Vec<i64>) -> (r: Color)
    requires
        frag_in_sat(*f),
        samples@.len() >= 2,
    ensures
        r == spec_mercury_color(*f, samples@),
        color_in_display(r),
{
    let n1 = unit(samples[0]);
    let n2 = unit(samples[1]);
    let base = if n1 < -19661 {
        Color::new(70, 60, 50)
    } else if n1 < 6554 {
        Color::new(120, 110, 100)
    } else if n1 < 39322 {
        Color::new(160, 150, 140)
    } else {
        Color::new(190, 180, 170)
    };
    let a = if n2 < 0 {
        -n2
    } else {
        n2
    };
    let shaded = base.lerp(&Color::new(50, 45, 40), fp_mul(a, 13107));
    shaded.scaled(f.intensity)
}

/// The two samples the hazy yellow body takes: surface bands and the
/// atmosphere layer.
pub open spec fn spec_venus_sites(f: Fragment) -> Seq<NoiseSite> {
    let s1 = NoiseSite {
        index: 0,
        x: fp_mulv(f.vertex_position.x as int, 327680) as i64,
        y: fp_mulv(f.vertex_position.y as int, 327680) as i64,
        z: fp_mulv(f.vertex_position.z as int, 327680) as i64,
        planar: false,
    };
    let s2 = NoiseSite {
        index: 1,
        x: fp_mulv(f.vertex_position.x as int, 32768) as i64,
        y: fp_mulv(f.vertex_position.y as int, 32768) as i64,
        z: fp_mulv(f.vertex_position.z as int, 32768) as i64,
        planar: false,
    };
    seq![s1, s2]
}

pub fn shader_venus_sites(f: &Fragment) -> (r: Vec<NoiseSite>)
    requires
        frag_in_sat(*f),
    ensures
        r@ == spec_venus_sites(*f),
        r@.len() == 2,
{
    let s1 = NoiseSite {
        index: 0,
        x: fp_mul(f.vertex_position.x, 327680),
        y: fp_mul(f.vertex_position.y, 327680),
        z: fp_mul(f.vertex_position.z, 327680),
        planar: false,
    };
    let s2 = NoiseSite {
        index: 1,
        x: fp_mul(f.vertex_position.x, 32768),
        y: fp_mul(f.vertex_position.y, 32768),
        z: fp_mul(f.vertex_position.z, 32768),
        planar: false,
    };
    let mut v: Vec<NoiseSite> = Vec::new();
    v.push(s1);
    v.push(s2);
    proof {
        assert(v@ =~= spec_venus_sites(*f));
    }
    v
}

/// The hazy yellow color: the surface sample blends the two band colors, the
/// atmosphere sample's remapped opacity blends a haze layer over them, and
/// ambient plus diffuse lighting is applied.
pub open spec fn spec_venus_color(f: Fragment, samples: Seq<i64>) -> Color
    recommends
        samples.len() >= 2,
{
    let d = spec_diffuse(f);
    let n = spec_unit01(samples[0] as int);
    let base = spec_color_lerp(Color { r: 230, g: 180, b: 90 }, Color { r: 180, g: 120, b: 60 }, n);
    let cn = spec_unit01(samples[1] as int);
    let opacity = fp_clamped(crate::fixed::fp_divv(cn - 39322, 26214), 0, FP_ONE as int);
    let base2 = spec_color_lerp(base, Color { r: 240, g: 230, b: 200 }, opacity);
    let lit = spec_color_scaled(base2, d);
    let ambient = spec_color_scaled(base2, 13107);
    spec_color_clamped(spec_color_sum(ambient, lit))
}

/// The hazy yellow material.
pub fn shader_venus(f: &Fragment, samples: &Vec<i64>) -> (r: Color)
    requires
        frag_in_sat(*f),
        samples@.len() >= 2,
    ensures
        r == spec_venus_color(*f, samples@),
        color_in_display(r),
{
    let d = diffuse(f);
    let n = unit01(samples[0]);
    let base = Color::new(230, 180, 90).lerp(&Color::new(180, 120, 60), n);
    let cn = unit01(samples[1]);
    let opacity = fp_clamp(crate::fixed::fp_div(cn - 39322, 26214), 0, FP_ONE);
    let base2 = base.lerp(&Color::new(240, 230, 200), opacity);
    let lit = base2.scaled(d);
    let ambient = base2.scaled(13107);
    ambient.sum(&lit).clamp()
}

/// The ring material: a constant color under the fragment's lighting; it
/// takes no noise samples.
pub open spec fn spec_ring_color(f: Fragment) -> Color {
    spec_color_scaled(Color { r: 180, g: 170, b: 150 }, f.intensity as int)
}

pub fn shader_ring(f: &Fragment) -> (r: Color)
    requires
        frag_in_sat(*f),
    ensures
        r == spec_ring_color(*f),
        color_in_display(r),
{
    Color::new(180, 170, 150).scaled(f.intensity)
}

/// The black-or-white color a percentile draw selects, under the fragment's
/// lighting.
pub open spec fn spec_bw_color(v: int, intensity: int) -> Color {
    let base = if v < 50 {
        Color { r: 0, g: 0, b: 0 }
    } else {
        Color { r: 255, g: 255, b: 255 }
    };
    spec_color_scaled(base, intensity)
}

/// A salt-and-pepper material: a percentile drawn from a generator seeded by
/// the fragment's position and the time picks black or white.
pub fn black_and_white(f: &Fragment, time: i64) -> (r: Color)
    requires
        frag_in_sat(*f),
        -FP_SAT <= time <= FP_SAT,
    ensures
        exists|v: int| 0 <= v <= 100 && r == spec_bw_color(v, f.intensity as int),
        color_in_display(r),
{
    let seed_fp = fp_mul(fp_mul(time, f.vertex_position.y), f.vertex_position.x);
    let seed: u64 = if seed_fp < 0 {
        (-seed_fp) as u64
    } else {
        seed_fp as u64
    };
    let mut rng = crate::rng::rng_from_seed(seed);
    let v = crate::rng::rng_range(&mut rng, 0, 100);
    let base = if v < 50 {
        Color::new(0, 0, 0)
    } else {
        Color::new(255, 255, 255)
    };
    let out = base.scaled(f.intensity);
    proof {
        assert(out == spec_bw_color(v as int, f.intensity as int));
    }
    out
}

/// A debugging material: one color drawn from a generator seeded by the
/// frame time, under the fragment's lighting.
pub fn random_color_shader(f: &Fragment, time: i64) -> (r: Color)
    requires
        frag_in_sat(*f),
        -FP_SAT <= time <= FP_SAT,
    ensures
        exists|cr: int, cg: int, cb: int|
            0 <= cr <= 255 && 0 <= cg <= 255 && 0 <= cb <= 255 && r == #[trigger] spec_color_scaled(
                Color { r: cr as i64, g: cg as i64, b: cb as i64 },
                f.intensity as int,
            ),
        color_in_display(r),
{
    let seed: u64 = if time < 0 {
        0
    } else {
        (time / FP_ONE) as u64
    };
    let mut rng = crate::rng::rng_from_seed(seed);
    let cr = crate::rng::rng_range(&mut rng, 0, 255);
    let cg = crate::rng::rng_range(&mut rng, 0, 255);
    let cb = crate::rng::rng_range(&mut rng, 0, 255);
    let out = Color::new(cr, cg, cb).scaled(f.intensity);
    proof {
        assert(out == spec_color_scaled(
            Color { r: cr as int as i64, g: cg as int as i64, b: cb as int as i64 },
            f.intensity as int,
        ));
    }
    out
}

/// The closed family of per-body materials.
#[derive(Clone, Copy, PartialEq, Eq, Structural, Debug)]
pub enum ShaderKind {
    Earth,
    Jupiter,
    Moon,
    Venus,
    Mercury,
    Ring,
    Lava,
    Cloud,
    Dalmata,
    Cellular,
}

/// How many noise samples each material consumes.
pub open spec fn spec_sample_count(kind: ShaderKind) -> int {
    match kind {
        ShaderKind::Earth => 2,
        ShaderKind::Jupiter => 1,
        ShaderKind::Moon => 2,
        ShaderKind::Venus => 2,
        ShaderKind::Mercury => 2,
        ShaderKind::Ring => 0,
        ShaderKind::Lava => 2,
        ShaderKind::Cloud => 1,
        ShaderKind::Dalmata => 1,
        ShaderKind::Cellular => 1,
    }
}

pub fn sample_count(kind: ShaderKind) -> (r: usize)
    ensures
        r == spec_sample_count(kind),
{
    match kind {
        ShaderKind::Earth => 2,
        ShaderKind::Jupiter => 1,
        ShaderKind::Moon => 2,
        ShaderKind::Venus => 2,
        ShaderKind::Mercury => 2,
        ShaderKind::Ring => 0,
        ShaderKind::Lava => 2,
        ShaderKind::Cloud => 1,
        ShaderKind::Dalmata => 1,
        ShaderKind::Cellular => 1,
    }
}

/// The sampling plan of each material.
pub open spec fn spec_shade_sites(kind: ShaderKind, f: Fragment, time: int) -> Seq<NoiseSite> {
    match kind {
        ShaderKind::Earth => spec_earth_sites(f, time),
        ShaderKind::Jupiter => spec_jupiter_sites(f),
        ShaderKind::Moon => spec_moon_sites(f),
        ShaderKind::Venus => spec_venus_sites(f),
        ShaderKind::Mercury => spec_mercury_sites(f),
        ShaderKind::Ring => Seq::empty(),
        ShaderKind::Lava => spec_lava_sites(f, time),
        ShaderKind::Cloud => spec_cloud_sites(f, time),
        ShaderKind::Dalmata => spec_dalmata_sites(f),
        ShaderKind::Cellular => spec_cellular_sites(f),
    }
}

/// The noise samples a material needs for a fragment: one site per sample,
/// in the order `shade` expects them.
pub fn shade_sites(kind: ShaderKind, f: &Fragment, time: i64) -> (r: Vec<NoiseSite>)
    requires
        frag_in_sat(*f),
        -FP_SAT <= time <= FP_SAT,
    ensures
        r@ == spec_shade_sites(kind, *f, time as int),
        r@.len() == spec_sample_count(kind),
{
    match kind {
        ShaderKind::Earth => shader_earth_sites(f, time),
        ShaderKind::Jupiter => shader_jupiter_sites(f),
        ShaderKind::Moon => shader_moon_sites(f),
        ShaderKind::Venus => shader_venus_sites(f),
        ShaderKind::Mercury => shader_mercury_sites(f),
        ShaderKind::Ring => {
            let v: Vec<NoiseSite> = Vec::new();
            proof {
                assert(v@ =~= Seq::<NoiseSite>::empty());
            }
            v
        },
        ShaderKind::Lava => lava_shader_sites(f, time),
        ShaderKind::Cloud => cloud_shader_sites(f, time),
        ShaderKind::Dalmata => dalmata_shader_sites(f),
        ShaderKind::Cellular => cellular_shader_sites(f),
    }
}

/// The color of each material, given the samples its sites asked for.
pub open spec fn spec_shade(kind: ShaderKind, f: Fragment, samples: Seq<i64>) -> Color
    recommends
        samples.len() >= spec_sample_count(kind),
{
    match kind {
        ShaderKind::Earth => spec_earth_color(f, samples),
        ShaderKind::Jupiter => spec_jupiter_color(f, samples),
        ShaderKind::Moon => spec_moon_color(f, samples),
        ShaderKind::Venus => spec_venus_color(f, samples),
        ShaderKind::Mercury => spec_mercury_color(f, samples),
        ShaderKind::Ring => spec_ring_color(f),
        ShaderKind::Lava => spec_lava_color(f, samples),
        ShaderKind::Cloud => spec_cloud_color(f, samples),
        ShaderKind::Dalmata => spec_dalmata_color(f, samples),
        ShaderKind::Cellular => spec_cellular_color(f, samples),
    }
}

/// Shade a fragment with the given material. A pure function of its
/// arguments: two calls with equal fragment and samples return the identical
/// color.
pub fn shade(kind: ShaderKind, f: &Fragment, samples: &Vec<i64>) -> (r: Color)
    requires
        frag_in_sat(*f),
        samples@.len() >= spec_sample_count(kind),
    ensures
        r == spec_shade(kind, *f, samples@),
        color_in_display(r),
{
    match kind {
        ShaderKind::Earth => shader_earth(f, samples),
        ShaderKind::Jupiter => shader_jupiter(f, samples),
        ShaderKind::Moon => shader_moon(f, samples),
        ShaderKind::Venus => shader_venus(f, samples),
        ShaderKind::Mercury => shader_mercury(f, samples),
        ShaderKind::Ring => shader_ring(f),
        ShaderKind::Lava => lava_shader(f, samples),
        ShaderKind::Cloud => cloud_shader(f, samples),
        ShaderKind::Dalmata => dalmata_shader(f, samples),
        ShaderKind::Cellular => cellular_shader(f, samples),
    }
}

} // verus!
