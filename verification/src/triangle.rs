use vstd::prelude::*;

use crate::fixed::{fp_clamp, fp_clamped, tdiv, FP_ONE, FP_SAT};
use crate::fragment::{frag_in_sat, Fragment};
use crate::vec3::{spec_vadd, spec_vdot, spec_vnormalized, vec_in_sat, Vec3};
use crate::vertex::{vertex_in_sat, Vertex};

verus! {

/// Largest pixel coordinate magnitude the rasterizer works with; screen
/// positions are clamped into this window before scan conversion.
pub const RASTER_LIM: i64 = 1048576;

/// Floor of a fixed-point value, as an integer pixel coordinate.
pub open spec fn spec_floor_fp(a: int) -> int {
    a / (FP_ONE as int)
}

fn floor_fp(a: i64) -> (r: i64)
    requires
        -FP_SAT <= a <= FP_SAT,
    ensures
        r == spec_floor_fp(a as int),
{
    if a >= 0 {
        a / FP_ONE
    } else {
        let q = (-a + FP_ONE - 1) / FP_ONE;
        proof {
            let qe = (a as int) / (FP_ONE as int);
            let re = (a as int) % (FP_ONE as int);
            vstd::arithmetic::div_mod::lemma_fundamental_div_mod(a as int, FP_ONE as int);
            vstd::arithmetic::div_mod::lemma_fundamental_div_mod_converse(
                -a + FP_ONE - 1,
                FP_ONE as int,
                -qe,
                FP_ONE - 1 - re,
            );
        }
        -q
    }
}

/// The integer pixel coordinate of a fixed-point screen position: its floor,
/// clamped into the raster window.
pub open spec fn spec_pixel(a: int) -> int {
    fp_clamped(spec_floor_fp(a), -RASTER_LIM as int, RASTER_LIM as int)
}

fn pixel_coord(a: i64) -> (r: i64)
    requires
        -FP_SAT <= a <= FP_SAT,
    ensures
        r == spec_pixel(a as int),
        -RASTER_LIM <= r <= RASTER_LIM,
{
    fp_clamp(floor_fp(a), -RASTER_LIM, RASTER_LIM)
}

/// The edge function: twice the signed area of the triangle `(a, b, p)`.
/// Positive when `p` lies to the left of the directed edge `a -> b`.
pub open spec fn spec_edge(ax: int, ay: int, bx: int, by: int, px: int, py: int) -> int {
    (bx - ax) * (py - ay) - (by - ay) * (px - ax)
}

fn edge_fn(ax: i64, ay: i64, bx: i64, by: i64, px: i64, py: i64) -> (r: i64)
    requires
        -RASTER_LIM <= ax <= RASTER_LIM,
        -RASTER_LIM <= ay <= RASTER_LIM,
        -RASTER_LIM <= bx <= RASTER_LIM,
        -RASTER_LIM <= by <= RASTER_LIM,
        -RASTER_LIM <= px <= RASTER_LIM,
        -RASTER_LIM <= py <= RASTER_LIM,
    ensures
        r == spec_edge(ax as int, ay as int, bx as int, by as int, px as int, py as int),
        -0x200_0000_0000_0000 <= r <= 0x200_0000_0000_0000,
{
    proof {
        assert((bx - ax) * (py - ay) <= 0x100_0000_0000_0000 && (bx - ax) * (py - ay)
            >= -0x100_0000_0000_0000 && (by - ay) * (px - ax) <= 0x100_0000_0000_0000 && (by - ay)
            * (px - ax) >= -0x100_0000_0000_0000) by (nonlinear_arith)
            requires
                -2 * RASTER_LIM <= bx - ax <= 2 * RASTER_LIM,
                -2 * RASTER_LIM <= py - ay <= 2 * RASTER_LIM,
                -2 * RASTER_LIM <= by - ay <= 2 * RASTER_LIM,
                -2 * RASTER_LIM <= px - ax <= 2 * RASTER_LIM,
        ;
    }
    (bx - ax) * (py - ay) - (by - ay) * (px - ax)
}

/// The tie-breaking rule for pixels exactly on an edge: the edge is counted
/// when it is a "top" edge (horizontal, pointing left) or a "left" edge
/// (pointing up, with y growing downward on screen).
pub open spec fn spec_is_top_left(ax: int, ay: int, bx: int, by: int) -> bool {
    by - ay < 0 || (by - ay == 0 && bx - ax < 0)
}

fn is_top_left(ax: i64, ay: i64, bx: i64, by: i64) -> (r: bool)
    requires
        -RASTER_LIM <= ax <= RASTER_LIM,
        -RASTER_LIM <= ay <= RASTER_LIM,
        -RASTER_LIM <= bx <= RASTER_LIM,
        -RASTER_LIM <= by <= RASTER_LIM,
    ensures
        r == spec_is_top_left(ax as int, ay as int, bx as int, by as int),
{
    by - ay < 0 || (by - ay == 0 && bx - ax < 0)
}

/// Whether the directed edge `a -> b` accepts the pixel `p`: strictly inside,
/// or on the edge when the edge is top-left.
pub open spec fn spec_edge_accepts(ax: int, ay: int, bx: int, by: int, px: int, py: int) -> bool {
    let w = spec_edge(ax, ay, bx, by, px, py);
    w > 0 || (w == 0 && spec_is_top_left(ax, ay, bx, by))
}

/// Whether the counter-clockwise triangle `(a, b, c)` covers the pixel `p`
/// under the top-left edge rule.
pub open spec fn spec_covers(
    ax: int,
    ay: int,
    bx: int,
    by: int,
    cx: int,
    cy: int,
    px: int,
    py: int,
) -> bool {
    &&& spec_edge_accepts(bx, by, cx, cy, px, py)
    &&& spec_edge_accepts(cx, cy, ax, ay, px, py)
    &&& spec_edge_accepts(ax, ay, bx, by, px, py)
}

/// On a shared edge, the edge rule accepts a pixel for exactly one of the two
/// directions: the two triangles of a shared edge cannot both claim it, nor
/// both drop it on that edge's account.
pub proof fn lemma_edge_exclusivity(ax: int, ay: int, bx: int, by: int, px: int, py: int)
    requires
        !(ax == bx && ay == by),
        spec_edge(ax, ay, bx, by, px, py) == 0,
    ensures
        spec_edge_accepts(ax, ay, bx, by, px, py) <==> !spec_edge_accepts(bx, by, ax, ay, px, py),
{
    assert(spec_edge(bx, by, ax, ay, px, py) == 0) by (nonlinear_arith)
        requires
            spec_edge(ax, ay, bx, by, px, py) == 0,
    ;
}

/// Edge exclusivity for whole triangles: when `(a, b, c)` and `(b, a, d)`
/// share the edge between `a` and `b`, a pixel on that shared edge which
/// passes both triangles' other edges is covered by exactly one of the two.
pub proof fn lemma_shared_edge_pixel(
    ax: int,
    ay: int,
    bx: int,
    by: int,
    cx: int,
    cy: int,
    dx: int,
    dy: int,
    px: int,
    py: int,
)
    requires
        !(ax == bx && ay == by),
        spec_edge(ax, ay, bx, by, px, py) == 0,
        spec_edge_accepts(bx, by, cx, cy, px, py),
        spec_edge_accepts(cx, cy, ax, ay, px, py),
        spec_edge_accepts(ax, ay, dx, dy, px, py),
        spec_edge_accepts(dx, dy, bx, by, px, py),
    ensures
        spec_covers(ax, ay, bx, by, cx, cy, px, py) <==> !spec_covers(
            bx,
            by,
            ax,
            ay,
            dx,
            dy,
            px,
            py,
        ),
{
    lemma_edge_exclusivity(ax, ay, bx, by, px, py);
}

/// A screen-space triangle ready for scan conversion: integer pixel corners
/// in counter-clockwise order, with each corner's interpolation attributes
/// (fixed-point depth, model-space position, normal).
#[derive(Clone, Copy, PartialEq, Eq, Structural, Debug)]
pub struct RasterTri {
    pub ax: i64,
    pub ay: i64,
    pub za: i64,
    pub pa: Vec3,
    pub na: Vec3,
    pub bx: i64,
    pub by: i64,
    pub zb: i64,
    pub pb: Vec3,
    pub nb: Vec3,
    pub cx: i64,
    pub cy: i64,
    pub zc: i64,
    pub pc: Vec3,
    pub nc: Vec3,
}

pub open spec fn tri_wf(t: RasterTri) -> bool {
    &&& -RASTER_LIM <= t.ax <= RASTER_LIM
    &&& -RASTER_LIM <= t.ay <= RASTER_LIM
    &&& -RASTER_LIM <= t.bx <= RASTER_LIM
    &&& -RASTER_LIM <= t.by <= RASTER_LIM
    &&& -RASTER_LIM <= t.cx <= RASTER_LIM
    &&& -RASTER_LIM <= t.cy <= RASTER_LIM
    &&& -FP_SAT <= t.za <= FP_SAT
    &&& -FP_SAT <= t.zb <= FP_SAT
    &&& -FP_SAT <= t.zc <= FP_SAT
    &&& vec_in_sat(t.pa)
    &&& vec_in_sat(t.pb)
    &&& vec_in_sat(t.pc)
    &&& vec_in_sat(t.na)
    &&& vec_in_sat(t.nb)
    &&& vec_in_sat(t.nc)
}

/// Twice the signed area of the triangle.
pub open spec fn tri_area2(t: RasterTri) -> int {
    spec_edge(t.ax as int, t.ay as int, t.bx as int, t.by as int, t.cx as int, t.cy as int)
}

pub open spec fn covers_tri(t: RasterTri, px: int, py: int) -> bool {
    spec_covers(
        t.ax as int,
        t.ay as int,
        t.bx as int,
        t.by as int,
        t.cx as int,
        t.cy as int,
        px,
        py,
    )
}

/// The screen triangle of three transformed vertices: pixel corners from the
/// screen positions, with the second and third corner swapped when the
/// winding is clockwise, so that the area is non-negative.
pub open spec fn spec_raster_tri(v0: Vertex, v1: Vertex, v2: Vertex) -> RasterTri {
    let t = RasterTri {
        ax: spec_pixel(v0.transformed_position.x as int) as i64,
        ay: spec_pixel(v0.transformed_position.y as int) as i64,
        za: v0.transformed_position.z,
        pa: v0.position,
        na: v0.transformed_normal,
        bx: spec_pixel(v1.transformed_position.x as int) as i64,
        by: spec_pixel(v1.transformed_position.y as int) as i64,
        zb: v1.transformed_position.z,
        pb: v1.position,
        nb: v1.transformed_normal,
        cx: spec_pixel(v2.transformed_position.x as int) as i64,
        cy: spec_pixel(v2.transformed_position.y as int) as i64,
        zc: v2.transformed_position.z,
        pc: v2.position,
        nc: v2.transformed_normal,
    };
    if tri_area2(t) < 0 {
        RasterTri {
            bx: t.cx,
            by: t.cy,
            zb: t.zc,
            pb: t.pc,
            nb: t.nc,
            cx: t.bx,
            cy: t.by,
            zc: t.zb,
            pc: t.pb,
            nc: t.nb,
            ..t
        }
    } else {
        t
    }
}

fn make_raster_tri(v0: &Vertex, v1: &Vertex, v2: &Vertex) -> (t: RasterTri)
    requires
        vertex_in_sat(*v0),
        vertex_in_sat(*v1),
        vertex_in_sat(*v2),
    ensures
        t == spec_raster_tri(*v0, *v1, *v2),
        tri_wf(t),
        tri_area2(t) >= 0,
{
    let t = RasterTri {
        ax: pixel_coord(v0.transformed_position.x),
        ay: pixel_coord(v0.transformed_position.y),
        za: v0.transformed_position.z,
        pa: v0.position,
        na: v0.transformed_normal,
        bx: pixel_coord(v1.transformed_position.x),
        by: pixel_coord(v1.transformed_position.y),
        zb: v1.transformed_position.z,
        pb: v1.position,
        nb: v1.transformed_normal,
        cx: pixel_coord(v2.transformed_position.x),
        cy: pixel_coord(v2.transformed_position.y),
        zc: v2.transformed_position.z,
        pc: v2.position,
        nc: v2.transformed_normal,
    };
    let area2 = edge_fn(t.ax, t.ay, t.bx, t.by, t.cx, t.cy);
    proof {
        lemma_edge_swap(t.ax as int, t.ay as int, t.bx as int, t.by as int, t.cx as int, t.cy as int);
    }
    if area2 < 0 {
        RasterTri {
            bx: t.cx,
            by: t.cy,
            zb: t.zc,
            pb: t.pc,
            nb: t.nc,
            cx: t.bx,
            cy: t.by,
            zc: t.zb,
            pc: t.pb,
            nc: t.nb,
            ..t
        }
    } else {
        t
    }
}

/// Barycentric interpolation of one scalar attribute: the weighted sum of
/// the corner values over the total weight, saturated.
pub open spec fn spec_interp3(w0: int, w1: int, w2: int, area: int, q0: int, q1: int, q2: int) -> int
    recommends
        area > 0,
{
    fp_clamped(tdiv(w0 * q0 + w1 * q1 + w2 * q2, area), -FP_SAT as int, FP_SAT as int)
}

fn interp3(w0: i64, w1: i64, w2: i64, area: i64, q0: i64, q1: i64, q2: i64) -> (r: i64)
    requires
        0 < area <= 0x200_0000_0000_0000,
        0 <= w0 <= area,
        0 <= w1 <= area,
        0 <= w2 <= area,
        -FP_SAT <= q0 <= FP_SAT,
        -FP_SAT <= q1 <= FP_SAT,
        -FP_SAT <= q2 <= FP_SAT,
    ensures
        r == spec_interp3(w0 as int, w1 as int, w2 as int, area as int, q0 as int, q1 as int, q2 as int),
        -FP_SAT <= r <= FP_SAT,
{
    proof {
        assert(-0x200_0000_0000_0000 * FP_SAT <= (w0 as int) * (q0 as int) <= 0x200_0000_0000_0000
            * FP_SAT) by (nonlinear_arith)
            requires
                0 <= w0 <= 0x200_0000_0000_0000,
                -FP_SAT <= q0 <= FP_SAT,
        ;
        assert(-0x200_0000_0000_0000 * FP_SAT <= (w1 as int) * (q1 as int) <= 0x200_0000_0000_0000
            * FP_SAT) by (nonlinear_arith)
            requires
                0 <= w1 <= 0x200_0000_0000_0000,
                -FP_SAT <= q1 <= FP_SAT,
        ;
        assert(-0x200_0000_0000_0000 * FP_SAT <= (w2 as int) * (q2 as int) <= 0x200_0000_0000_0000
            * FP_SAT) by (nonlinear_arith)
            requires
                0 <= w2 <= 0x200_0000_0000_0000,
                -FP_SAT <= q2 <= FP_SAT,
        ;
    }
    let s: i128 = (w0 as i128) * (q0 as i128) + (w1 as i128) * (q1 as i128) + (w2 as i128) * (
    q2 as i128);
    let ss: i128 = if s < 0 {
        -s
    } else {
        s
    };
    let qq: i128 = ss / (area as i128);
    let q: i128 = if s < 0 {
        -qq
    } else {
        qq
    };
    proof {
        assert(q == tdiv(
            (w0 as int) * (q0 as int) + (w1 as int) * (q1 as int) + (w2 as int) * (q2 as int),
            area as int,
        ));
    }
    if q < -(FP_SAT as i128) {
        -FP_SAT
    } else if q > FP_SAT as i128 {
        FP_SAT
    } else {
        q as i64
    }
}

/// The flat lighting intensity of a triangle: the renormalized sum of the
/// corner normals dotted with the light direction, clamped at zero.
pub open spec fn spec_flat_intensity(t: RasterTri) -> int {
    let n = spec_vnormalized(spec_vadd(spec_vadd(t.na, t.nb), t.nc));
    fp_clamped(spec_vdot(n, Vec3 { x: 0, y: 0, z: FP_ONE }), 0, FP_ONE as int)
}

fn flat_intensity(t: &RasterTri) -> (r: i64)
    requires
        tri_wf(*t),
    ensures
        r == spec_flat_intensity(*t),
        0 <= r <= FP_ONE,
{
    let n = t.na.add(&t.nb).add(&t.nc).normalized();
    let light = Vec3 { x: 0, y: 0, z: FP_ONE };
    fp_clamp(n.dot(&light), 0, FP_ONE)
}

/// The fragment the rasterizer emits at a covered pixel: barycentric
/// interpolation of depth, model-space position and normal, with the
/// triangle's flat lighting intensity.
pub open spec fn spec_raster_fragment(t: RasterTri, px: int, py: int) -> Fragment {
    let w0 = spec_edge(t.bx as int, t.by as int, t.cx as int, t.cy as int, px, py);
    let w1 = spec_edge(t.cx as int, t.cy as int, t.ax as int, t.ay as int, px, py);
    let w2 = spec_edge(t.ax as int, t.ay as int, t.bx as int, t.by as int, px, py);
    let area = w0 + w1 + w2;
    Fragment {
        x: px as usize,
        y: py as usize,
        depth: spec_interp3(w0, w1, w2, area, t.za as int, t.zb as int, t.zc as int) as i64,
        vertex_position: Vec3 {
            x: spec_interp3(w0, w1, w2, area, t.pa.x as int, t.pb.x as int, t.pc.x as int) as i64,
            y: spec_interp3(w0, w1, w2, area, t.pa.y as int, t.pb.y as int, t.pc.y as int) as i64,
            z: spec_interp3(w0, w1, w2, area, t.pa.z as int, t.pb.z as int, t.pc.z as int) as i64,
        },
        normal: Vec3 {
            x: spec_interp3(w0, w1, w2, area, t.na.x as int, t.nb.x as int, t.nc.x as int) as i64,
            y: spec_interp3(w0, w1, w2, area, t.na.y as int, t.nb.y as int, t.nc.y as int) as i64,
            z: spec_interp3(w0, w1, w2, area, t.na.z as int, t.nb.z as int, t.nc.z as int) as i64,
        },
        intensity: spec_flat_intensity(t) as i64,
    }
}

/// Swapping the last two corners negates the edge function.
pub proof fn lemma_edge_swap(ax: int, ay: int, bx: int, by: int, cx: int, cy: int)
    ensures
        spec_edge(ax, ay, cx, cy, bx, by) == -spec_edge(ax, ay, bx, by, cx, cy),
{
    assert((cx - ax) * (by - ay) - (cy - ay) * (bx - ax) == -((bx - ax) * (cy - ay) - (by - ay) * (
    cx - ax))) by (nonlinear_arith);
}

/// The sum of the three edge weights of any point equals twice the triangle
/// area.
#[verifier::spinoff_prover]
#[verifier::rlimit(100)]
pub proof fn lemma_barycentric_sum(t: RasterTri, px: int, py: int)
    ensures
        spec_edge(t.bx as int, t.by as int, t.cx as int, t.cy as int, px, py) + spec_edge(
            t.cx as int,
            t.cy as int,
            t.ax as int,
            t.ay as int,
            px,
            py,
        ) + spec_edge(t.ax as int, t.ay as int, t.bx as int, t.by as int, px, py) == tri_area2(t),
{
    let ax = t.ax as int;
    let ay = t.ay as int;
    let bx = t.bx as int;
    let by = t.by as int;
    let cx = t.cx as int;
    let cy = t.cy as int;
    assert(((cx - bx) * (py - by) - (cy - by) * (px - bx)) + ((ax - cx) * (py - cy) - (ay - cy) * (
    px - cx)) + ((bx - ax) * (py - ay) - (by - ay) * (px - ax)) == (bx - ax) * (cy - ay) - (by - ay)
        * (cx - ax)) by (nonlinear_arith);
}

fn make_fragment(t: &RasterTri, px: i64, py: i64, w0: i64, w1: i64, w2: i64, inten: i64) -> (r:
    Fragment)
    requires
        tri_wf(*t),
        0 <= px <= RASTER_LIM,
        0 <= py <= RASTER_LIM,
        w0 == spec_edge(t.bx as int, t.by as int, t.cx as int, t.cy as int, px as int, py as int),
        w1 == spec_edge(t.cx as int, t.cy as int, t.ax as int, t.ay as int, px as int, py as int),
        w2 == spec_edge(t.ax as int, t.ay as int, t.bx as int, t.by as int, px as int, py as int),
        w0 >= 0,
        w1 >= 0,
        w2 >= 0,
        0 < w0 + w1 + w2 <= 0x200_0000_0000_0000,
        inten == spec_flat_intensity(*t),
        0 <= inten <= FP_ONE,
    ensures
        r == spec_raster_fragment(*t, px as int, py as int),
        frag_in_sat(r),
        r.x == px,
        r.y == py,
{
    let area = w0 + w1 + w2;
    Fragment {
        x: px as usize,
        y: py as usize,
        depth: interp3(w0, w1, w2, area, t.za, t.zb, t.zc),
        vertex_position: Vec3 {
            x: interp3(w0, w1, w2, area, t.pa.x, t.pb.x, t.pc.x),
            y: interp3(w0, w1, w2, area, t.pa.y, t.pb.y, t.pc.y),
            z: interp3(w0, w1, w2, area, t.pa.z, t.pb.z, t.pc.z),
        },
        normal: Vec3 {
            x: interp3(w0, w1, w2, area, t.na.x, t.nb.x, t.nc.x),
            y: interp3(w0, w1, w2, area, t.na.y, t.nb.y, t.nc.y),
            z: interp3(w0, w1, w2, area, t.na.z, t.nb.z, t.nc.z),
        },
        intensity: inten,
    }
}

pub open spec fn min3(a: int, b: int, c: int) -> int {
    if a <= b && a <= c {
        a
    } else if b <= c {
        b
    } else {
        c
    }
}

pub open spec fn max3(a: int, b: int, c: int) -> int {
    if a >= b && a >= c {
        a
    } else if b >= c {
        b
    } else {
        c
    }
}

/// First column of the scan window: the triangle's leftmost corner, no less
/// than zero.
pub open spec fn spec_win_x0(t: RasterTri) -> int {
    let m = min3(t.ax as int, t.bx as int, t.cx as int);
    if m < 0 {
        0
    } else {
        m
    }
}

/// One past the last column of the scan window: the rightmost corner, capped
/// by the framebuffer width.
pub open spec fn spec_win_x1(t: RasterTri, width: int) -> int {
    let m = max3(t.ax as int, t.bx as int, t.cx as int);
    (if m > width - 1 {
        width - 1
    } else {
        m
    }) + 1
}

pub open spec fn spec_win_y0(t: RasterTri) -> int {
    let m = min3(t.ay as int, t.by as int, t.cy as int);
    if m < 0 {
        0
    } else {
        m
    }
}

pub open spec fn spec_win_y1(t: RasterTri, height: int) -> int {
    let m = max3(t.ay as int, t.by as int, t.cy as int);
    (if m > height - 1 {
        height - 1
    } else {
        m
    }) + 1
}

/// The fragments one scan row emits for columns `[x0, x1)`: one fragment per
/// covered pixel, in order.
pub open spec fn spec_row_frags(t: RasterTri, y: int, x0: int, x1: int) -> Seq<Fragment>
    decreases x1 - x0,
{
    if x0 >= x1 {
        Seq::empty()
    } else {
        (if covers_tri(t, x0, y) {
            seq![spec_raster_fragment(t, x0, y)]
        } else {
            Seq::empty()
        }) + spec_row_frags(t, y, x0 + 1, x1)
    }
}

/// The fragments the scan window `[x0, x1) x [y0, y1)` emits, row-major.
pub open spec fn spec_window_frags(t: RasterTri, y0: int, y1: int, x0: int, x1: int) -> Seq<
    Fragment,
>
    decreases y1 - y0,
{
    if y0 >= y1 {
        Seq::empty()
    } else {
        spec_row_frags(t, y0, x0, x1) + spec_window_frags(t, y0 + 1, y1, x0, x1)
    }
}

proof fn lemma_row_snoc(t: RasterTri, y: int, x0: int, x1: int)
    requires
        x0 <= x1,
    ensures
        spec_row_frags(t, y, x0, x1 + 1) == spec_row_frags(t, y, x0, x1) + (if covers_tri(
            t,
            x1,
            y,
        ) {
            seq![spec_raster_fragment(t, x1, y)]
        } else {
            Seq::<Fragment>::empty()
        }),
    decreases x1 - x0,
{
    if x0 == x1 {
        assert(spec_row_frags(t, y, x0, x1) == Seq::<Fragment>::empty());
        assert(spec_row_frags(t, y, x1 + 1, x1 + 1) == Seq::<Fragment>::empty());
        assert(spec_row_frags(t, y, x0, x1 + 1) =~= spec_row_frags(t, y, x0, x1) + (if covers_tri(
            t,
            x1,
            y,
        ) {
            seq![spec_raster_fragment(t, x1, y)]
        } else {
            Seq::<Fragment>::empty()
        }));
    } else {
        lemma_row_snoc(t, y, x0 + 1, x1);
        assert(spec_row_frags(t, y, x0, x1 + 1) =~= spec_row_frags(t, y, x0, x1) + (if covers_tri(
            t,
            x1,
            y,
        ) {
            seq![spec_raster_fragment(t, x1, y)]
        } else {
            Seq::<Fragment>::empty()
        }));
    }
}

proof fn lemma_window_snoc(t: RasterTri, y0: int, y1: int, x0: int, x1: int)
    requires
        y0 <= y1,
    ensures
        spec_window_frags(t, y0, y1 + 1, x0, x1) == spec_window_frags(t, y0, y1, x0, x1)
            + spec_row_frags(t, y1, x0, x1),
    decreases y1 - y0,
{
    if y0 == y1 {
        assert(spec_window_frags(t, y0, y1, x0, x1) == Seq::<Fragment>::empty());
        assert(spec_window_frags(t, y1 + 1, y1 + 1, x0, x1) == Seq::<Fragment>::empty());
        assert(spec_window_frags(t, y0, y1 + 1, x0, x1) =~= spec_window_frags(t, y0, y1, x0, x1)
            + spec_row_frags(t, y1, x0, x1));
    } else {
        lemma_window_snoc(t, y0 + 1, y1, x0, x1);
        assert(spec_window_frags(t, y0, y1 + 1, x0, x1) =~= spec_window_frags(t, y0, y1, x0, x1)
            + spec_row_frags(t, y1, x0, x1));
    }
}

/// A scan row holds the fragment of a pixel exactly when the pixel lies in
/// the row's column range and the triangle covers it.
pub proof fn lemma_row_membership(t: RasterTri, y: int, x0: int, x1: int, px: int, py: int)
    requires
        0 <= x0,
        x1 <= RASTER_LIM + 1,
        0 <= px <= RASTER_LIM,
        0 <= py <= RASTER_LIM,
        0 <= y <= RASTER_LIM,
    ensures
        spec_row_frags(t, y, x0, x1).contains(spec_raster_fragment(t, px, py)) <==> (x0 <= px < x1
            && py == y && covers_tri(t, px, py)),
    decreases x1 - x0,
{
    let f = spec_raster_fragment(t, px, py);
    if x0 >= x1 {
        assert(spec_row_frags(t, y, x0, x1).len() == 0);
        assert(!spec_row_frags(t, y, x0, x1).contains(f));
    } else {
        lemma_row_membership(t, y, x0 + 1, x1, px, py);
        let head = if covers_tri(t, x0, y) {
            seq![spec_raster_fragment(t, x0, y)]
        } else {
            Seq::<Fragment>::empty()
        };
        let tail = spec_row_frags(t, y, x0 + 1, x1);
        assert(spec_row_frags(t, y, x0, x1) == head + tail);
        if (head + tail).contains(f) {
            let i = choose|i: int| 0 <= i < (head + tail).len() && (head + tail)[i] == f;
            if i < head.len() {
                assert(head[i] == f);
                assert(covers_tri(t, x0, y));
                assert(f.x == px as usize && f.y == py as usize);
                assert(spec_raster_fragment(t, x0, y).x == x0 as usize);
                assert(px == x0 && py == y);
            } else {
                assert(tail[i - head.len()] == f);
                assert(tail.contains(f));
            }
        }
        if x0 <= px < x1 && py == y && covers_tri(t, px, py) {
            if px == x0 {
                assert((head + tail)[0] == f);
                assert((head + tail).contains(f));
            } else {
                assert(tail.contains(f));
                let j = choose|j: int| 0 <= j < tail.len() && tail[j] == f;
                assert((head + tail)[head.len() + j] == f);
                assert((head + tail).contains(f));
            }
        }
    }
}

/// The scan window holds the fragment of a pixel exactly when the pixel lies
/// inside the window and the triangle covers it: every covered in-window
/// pixel is emitted, and nothing else is.
pub proof fn lemma_window_membership(
    t: RasterTri,
    y0: int,
    y1: int,
    x0: int,
    x1: int,
    px: int,
    py: int,
)
    requires
        0 <= x0,
        x1 <= RASTER_LIM + 1,
        0 <= y0,
        y1 <= RASTER_LIM + 1,
        0 <= px <= RASTER_LIM,
        0 <= py <= RASTER_LIM,
    ensures
        spec_window_frags(t, y0, y1, x0, x1).contains(spec_raster_fragment(t, px, py)) <==> (x0
            <= px < x1 && y0 <= py < y1 && covers_tri(t, px, py)),
    decreases y1 - y0,
{
    let f = spec_raster_fragment(t, px, py);
    if y0 >= y1 {
        assert(spec_window_frags(t, y0, y1, x0, x1).len() == 0);
        assert(!spec_window_frags(t, y0, y1, x0, x1).contains(f));
    } else {
        lemma_window_membership(t, y0 + 1, y1, x0, x1, px, py);
        lemma_row_membership(t, y0, x0, x1, px, py);
        let head = spec_row_frags(t, y0, x0, x1);
        let tail = spec_window_frags(t, y0 + 1, y1, x0, x1);
        assert(spec_window_frags(t, y0, y1, x0, x1) == head + tail);
        if (head + tail).contains(f) {
            let i = choose|i: int| 0 <= i < (head + tail).len() && (head + tail)[i] == f;
            if i < head.len() {
                assert(head[i] == f);
                assert(head.contains(f));
            } else {
                assert(tail[i - head.len()] == f);
                assert(tail.contains(f));
            }
        }
        if x0 <= px < x1 && y0 <= py < y1 && covers_tri(t, px, py) {
            if py == y0 {
                assert(head.contains(f));
                let j = choose|j: int| 0 <= j < head.len() && head[j] == f;
                assert((head + tail)[j] == f);
                assert((head + tail).contains(f));
            } else {
                assert(tail.contains(f));
                let j = choose|j: int| 0 <= j < tail.len() && tail[j] == f;
                assert((head + tail)[head.len() + j] == f);
                assert((head + tail).contains(f));
            }
        }
    }
}

fn max0(v: i64) -> (r: i64)
    ensures
        r == (if v < 0 {
            0int
        } else {
            v as int
        }),
{
    if v < 0 {
        0
    } else {
        v
    }
}

fn min3e(a: i64, b: i64, c: i64) -> (r: i64)
    ensures
        r == min3(a as int, b as int, c as int),
{
    if a <= b && a <= c {
        a
    } else if b <= c {
        b
    } else {
        c
    }
}

fn max3e(a: i64, b: i64, c: i64) -> (r: i64)
    ensures
        r == max3(a as int, b as int, c as int),
{
    if a >= b && a >= c {
        a
    } else if b >= c {
        b
    } else {
        c
    }
}

/// The fragments one triangle of transformed vertices contributes to a
/// `width x height` framebuffer: none for a degenerate (zero-area,
/// collinear) screen triangle, otherwise one per covered in-bounds pixel, in
/// row-major order.
pub open spec fn spec_triangle_frags(
    v0: Vertex,
    v1: Vertex,
    v2: Vertex,
    width: int,
    height: int,
) -> Seq<Fragment> {
    let t = spec_raster_tri(v0, v1, v2);
    if tri_area2(t) == 0 {
        Seq::empty()
    } else {
        spec_window_frags(
            t,
            spec_win_y0(t),
            spec_win_y1(t, height),
            spec_win_x0(t),
            spec_win_x1(t, width),
        )
    }
}

/// Rasterize one triangle of transformed vertices into the fragments of the
/// covered pixels inside a `width x height` framebuffer, row-major. A
/// degenerate (zero-area, collinear) triangle produces no fragments.
#[verifier::rlimit(100)]
pub fn triangle(v0: &Vertex, v1: &Vertex, v2: &Vertex, width: usize, height: usize) -> (r: Vec<
    Fragment,
>)
    requires
        vertex_in_sat(*v0),
        vertex_in_sat(*v1),
        vertex_in_sat(*v2),
        width <= 1048576,
        height <= 1048576,
    ensures
        r@ == spec_triangle_frags(*v0, *v1, *v2, width as int, height as int),
        tri_area2(spec_raster_tri(*v0, *v1, *v2)) == 0 ==> r@ == Seq::<Fragment>::empty(),
        forall|k: int|
            0 <= k < r@.len() ==> frag_in_sat(#[trigger] r@[k]) && r@[k].x < width && r@[k].y
                < height,
{
    let t = make_raster_tri(v0, v1, v2);
    let area2 = edge_fn(t.ax, t.ay, t.bx, t.by, t.cx, t.cy);
    let mut out: Vec<Fragment> = Vec::new();
    if area2 == 0 {
        proof {
            assert(out@ =~= Seq::<Fragment>::empty());
        }
        return out;
    }
    let inten = flat_intensity(&t);
    let xlo = max0(min3e(t.ax, t.bx, t.cx));
    let xhi = max3e(t.ax, t.bx, t.cx);
    let x1: i64 = (if xhi > width as i64 - 1 {
        width as i64 - 1
    } else {
        xhi
    }) + 1;
    let ylo = max0(min3e(t.ay, t.by, t.cy));
    let yhi = max3e(t.ay, t.by, t.cy);
    let y1: i64 = (if yhi > height as i64 - 1 {
        height as i64 - 1
    } else {
        yhi
    }) + 1;
    let mut y = ylo;
    while y < y1
        invariant
            tri_wf(t),
            area2 == tri_area2(t),
            area2 > 0,
            -0x200_0000_0000_0000 <= area2 <= 0x200_0000_0000_0000,
            inten == spec_flat_intensity(t),
            0 <= inten <= FP_ONE,
            width <= 1048576,
            height <= 1048576,
            xlo == spec_win_x0(t),
            x1 == spec_win_x1(t, width as int),
            ylo == spec_win_y0(t),
            y1 == spec_win_y1(t, height as int),
            0 <= xlo <= RASTER_LIM,
            x1 <= width,
            0 <= ylo <= RASTER_LIM,
            y1 <= height,
            ylo <= y && (y <= y1 || y == ylo),
            out@ == spec_window_frags(t, ylo as int, y as int, xlo as int, x1 as int),
            forall|k: int|
                0 <= k < out@.len() ==> frag_in_sat(#[trigger] out@[k]) && out@[k].x < width
                    && out@[k].y < height,
        decreases y1 - y,
    {
        let mut x = xlo;
        while x < x1
            invariant
                tri_wf(t),
                area2 == tri_area2(t),
                area2 > 0,
                -0x200_0000_0000_0000 <= area2 <= 0x200_0000_0000_0000,
                inten == spec_flat_intensity(t),
                0 <= inten <= FP_ONE,
                width <= 1048576,
                height <= 1048576,
                xlo == spec_win_x0(t),
                x1 == spec_win_x1(t, width as int),
                0 <= xlo <= RASTER_LIM,
                x1 <= width,
                0 <= ylo <= y,
                y < y1 <= height,
                y <= RASTER_LIM,
                xlo <= x && (x <= x1 || x == xlo),
                out@ == spec_window_frags(t, ylo as int, y as int, xlo as int, x1 as int)
                    + spec_row_frags(t, y as int, xlo as int, x as int),
                forall|k: int|
                    0 <= k < out@.len() ==> frag_in_sat(#[trigger] out@[k]) && out@[k].x < width
                        && out@[k].y < height,
            decreases x1 - x,
        {
            let w0 = edge_fn(t.bx, t.by, t.cx, t.cy, x, y);
            let w1 = edge_fn(t.cx, t.cy, t.ax, t.ay, x, y);
            let w2 = edge_fn(t.ax, t.ay, t.bx, t.by, x, y);
            let a0 = w0 > 0 || (w0 == 0 && is_top_left(t.bx, t.by, t.cx, t.cy));
            let a1 = w1 > 0 || (w1 == 0 && is_top_left(t.cx, t.cy, t.ax, t.ay));
            let a2 = w2 > 0 || (w2 == 0 && is_top_left(t.ax, t.ay, t.bx, t.by));
            proof {
                lemma_row_snoc(t, y as int, xlo as int, x as int);
            }
            if a0 && a1 && a2 {
                proof {
                    lemma_barycentric_sum(t, x as int, y as int);
                }
                let f = make_fragment(&t, x, y, w0, w1, w2, inten);
                out.push(f);
            }
            x = x + 1;
            proof {
                assert(out@ == spec_window_frags(t, ylo as int, y as int, xlo as int, x1 as int)
                    + spec_row_frags(t, y as int, xlo as int, x as int));
            }
        }
        proof {
            if xlo < x1 {
                assert(x == x1);
            } else {
                assert(spec_row_frags(t, y as int, xlo as int, x as int) =~= Seq::<
                    Fragment,
                >::empty());
                assert(spec_row_frags(t, y as int, xlo as int, x1 as int) =~= Seq::<
                    Fragment,
                >::empty());
            }
            lemma_window_snoc(t, ylo as int, y as int, xlo as int, x1 as int);
            assert(out@ =~= spec_window_frags(t, ylo as int, y as int, xlo as int, x1 as int)
                + spec_row_frags(t, y as int, xlo as int, x1 as int));
        }
        y = y + 1;
    }
    proof {
        if ylo < y1 {
            assert(y == y1);
        } else {
            assert(out@ =~= spec_window_frags(
                t,
                ylo as int,
                y1 as int,
                xlo as int,
                x1 as int,
            ));
        }
    }
    out
}

} // verus!
