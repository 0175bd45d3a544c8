use vstd::prelude::*;

use crate::fixed::{abs_i, fp_cos, fp_mulv, fp_mul, fp_sat, fp_sin, fp_clamped, spec_cos, spec_sin, tdiv, FP_ONE, FP_SAT};
use crate::transforms::ANGLE_LIM;
use crate::vec3::Vec3;

verus! {

/// Largest camera coordinate magnitude, fixed point (8192 world units).
pub const CAM_LIM: i64 = 0x2000_0000;

/// Smallest allowed squared eye-center distance: one world unit, so the eye
/// can never cross or coincide with the look-at target.
pub const MIN_DIST_SQ: i64 = 65536 * 65536;

/// An orbiting camera: eye position, look-at target and up direction. The
/// orbit radius is not stored; it is the eye-center distance, recomputed
/// from the vectors.
#[derive(Clone, Copy, PartialEq, Eq, Structural, Debug)]
pub struct Camera {
    pub eye: Vec3,
    pub center: Vec3,
    pub up: Vec3,
}

pub open spec fn in_cam_range(v: Vec3) -> bool {
    &&& -CAM_LIM <= v.x <= CAM_LIM
    &&& -CAM_LIM <= v.y <= CAM_LIM
    &&& -CAM_LIM <= v.z <= CAM_LIM
}

pub open spec fn sq(v: int) -> int {
    v * v
}

/// The squared eye-center distance, in squared fixed-point units.
pub open spec fn spec_dist_sq(eye: Vec3, center: Vec3) -> int {
    sq(eye.x - center.x) + sq(eye.y - center.y) + sq(eye.z - center.z)
}

/// Camera invariant: vectors in range, and the eye at least the minimum
/// distance from the center.
pub open spec fn cam_wf(c: Camera) -> bool {
    &&& in_cam_range(c.eye)
    &&& in_cam_range(c.center)
    &&& in_cam_range(c.up)
    &&& spec_dist_sq(c.eye, c.center) >= MIN_DIST_SQ
}

fn dist_sq(eye: &Vec3, center: &Vec3) -> (r: i64)
    requires
        in_cam_range(*eye),
        in_cam_range(*center),
    ensures
        r == spec_dist_sq(*eye, *center),
        r >= 0,
{
    let dx = eye.x - center.x;
    let dy = eye.y - center.y;
    let dz = eye.z - center.z;
    proof {
        assert(0 <= dx * dx <= 0x1000_0000_0000_0000 && 0 <= dy * dy <= 0x1000_0000_0000_0000 && 0
            <= dz * dz <= 0x1000_0000_0000_0000) by (nonlinear_arith)
            requires
                -0x4000_0000 <= dx <= 0x4000_0000,
                -0x4000_0000 <= dy <= 0x4000_0000,
                -0x4000_0000 <= dz <= 0x4000_0000,
        ;
    }
    dx * dx + dy * dy + dz * dz
}

/// The eye the camera would have after scaling its offset from the center by
/// `FP_ONE - delta`.
pub open spec fn spec_zoom_candidate(c: Camera, delta: int) -> Vec3 {
    let s = FP_ONE - delta;
    Vec3 {
        x: (c.center.x + fp_mulv(c.eye.x - c.center.x, s)) as i64,
        y: (c.center.y + fp_mulv(c.eye.y - c.center.y, s)) as i64,
        z: (c.center.z + fp_mulv(c.eye.z - c.center.z, s)) as i64,
    }
}

/// The camera after a zoom: the scaled eye when it stays in range and above
/// the minimum distance, the unchanged camera otherwise.
pub open spec fn spec_zoomed(c: Camera, delta: int) -> Camera {
    let ne = spec_zoom_candidate(c, delta);
    if in_cam_range(ne) && spec_dist_sq(ne, c.center) >= MIN_DIST_SQ {
        Camera { eye: ne, ..c }
    } else {
        c
    }
}

/// The eye offset rotated by a yaw about the world y axis and a pitch about
/// the world x axis, from the (sine, cosine) pairs of the two angles.
pub open spec fn spec_orbit_candidate(c: Camera, sy: int, cy: int, sp: int, cp: int) -> Vec3 {
    let ox = c.eye.x - c.center.x;
    let oy = c.eye.y - c.center.y;
    let oz = c.eye.z - c.center.z;
    let x1 = fp_clamped(fp_mulv(ox, cy) + fp_mulv(oz, sy), -FP_SAT as int, FP_SAT as int);
    let z1 = fp_clamped(fp_mulv(oz, cy) - fp_mulv(ox, sy), -FP_SAT as int, FP_SAT as int);
    let y2 = fp_clamped(fp_mulv(oy, cp) - fp_mulv(z1, sp), -FP_SAT as int, FP_SAT as int);
    let z2 = fp_clamped(fp_mulv(oy, sp) + fp_mulv(z1, cp), -FP_SAT as int, FP_SAT as int);
    Vec3 {
        x: (c.center.x + x1) as i64,
        y: (c.center.y + y2) as i64,
        z: (c.center.z + z2) as i64,
    }
}

/// A fixed-point product with a factor of at most one in magnitude cannot
/// grow the other factor.
proof fn lemma_mul_unit_bound(a: int, s: int)
    requires
        -FP_SAT <= a <= FP_SAT,
        -FP_ONE <= s <= FP_ONE,
    ensures
        abs_i(fp_mulv(a, s)) <= abs_i(a),
{
    let x = a * s;
    let aa = abs_i(a);
    assert(-(aa * FP_ONE) <= x <= aa * FP_ONE) by (nonlinear_arith)
        requires
            -aa <= a <= aa,
            -FP_ONE <= s <= FP_ONE,
            0 <= aa,
            x == a * s,
    ;
    let q = abs_i(x) / (FP_ONE as int);
    vstd::arithmetic::div_mod::lemma_div_pos_is_pos(abs_i(x), FP_ONE as int);
    vstd::arithmetic::div_mod::lemma_div_is_ordered(abs_i(x), aa * FP_ONE, FP_ONE as int);
    vstd::arithmetic::div_mod::lemma_div_multiples_vanish(aa, FP_ONE as int);
    assert(abs_i(tdiv(x, FP_ONE as int)) == q);
}

/// Rotating the eye offset with (sine, cosine) factors of at most one in
/// magnitude can grow the squared eye-center distance by at most a factor of
/// eight.
pub proof fn lemma_orbit_candidate_bound(c: Camera, sy: i64, cy: i64, sp: i64, cp: i64)
    requires
        in_cam_range(c.eye),
        in_cam_range(c.center),
        -FP_ONE <= sy <= FP_ONE,
        -FP_ONE <= cy <= FP_ONE,
        -FP_ONE <= sp <= FP_ONE,
        -FP_ONE <= cp <= FP_ONE,
    ensures
        spec_dist_sq(
            spec_orbit_candidate(c, sy as int, cy as int, sp as int, cp as int),
            c.center,
        ) <= 8 * spec_dist_sq(c.eye, c.center),
{
    let ox = c.eye.x - c.center.x;
    let oy = c.eye.y - c.center.y;
    let oz = c.eye.z - c.center.z;
    let ax = abs_i(ox);
    let ay = abs_i(oy);
    let az = abs_i(oz);
    lemma_mul_unit_bound(ox, cy as int);
    lemma_mul_unit_bound(oz, sy as int);
    lemma_mul_unit_bound(oz, cy as int);
    lemma_mul_unit_bound(ox, sy as int);
    let x1 = fp_clamped(
        fp_mulv(ox, cy as int) + fp_mulv(oz, sy as int),
        -FP_SAT as int,
        FP_SAT as int,
    );
    let z1 = fp_clamped(
        fp_mulv(oz, cy as int) - fp_mulv(ox, sy as int),
        -FP_SAT as int,
        FP_SAT as int,
    );
    assert(abs_i(x1) <= ax + az);
    assert(abs_i(z1) <= ax + az);
    lemma_mul_unit_bound(oy, cp as int);
    lemma_mul_unit_bound(z1, sp as int);
    lemma_mul_unit_bound(oy, sp as int);
    lemma_mul_unit_bound(z1, cp as int);
    let y2 = fp_clamped(
        fp_mulv(oy, cp as int) - fp_mulv(z1, sp as int),
        -FP_SAT as int,
        FP_SAT as int,
    );
    let z2 = fp_clamped(
        fp_mulv(oy, sp as int) + fp_mulv(z1, cp as int),
        -FP_SAT as int,
        FP_SAT as int,
    );
    assert(abs_i(y2) <= ay + ax + az);
    assert(abs_i(z2) <= ay + ax + az);
    let ne = spec_orbit_candidate(c, sy as int, cy as int, sp as int, cp as int);
    assert(ne.x - c.center.x == x1 && ne.y - c.center.y == y2 && ne.z - c.center.z == z2);
    assert(ax == ox || ax == -ox);
    assert(ay == oy || ay == -oy);
    assert(az == oz || az == -oz);
    assert(sq(ox) == ax * ax) by (nonlinear_arith)
        requires
            ax == ox || ax == -ox,
    ;
    assert(sq(oy) == ay * ay) by (nonlinear_arith)
        requires
            ay == oy || ay == -oy,
    ;
    assert(sq(oz) == az * az) by (nonlinear_arith)
        requires
            az == oz || az == -oz,
    ;
    assert(sq(x1) <= (ax + az) * (ax + az)) by (nonlinear_arith)
        requires
            -(ax + az) <= x1 <= ax + az,
    ;
    assert(sq(y2) <= (ay + ax + az) * (ay + ax + az)) by (nonlinear_arith)
        requires
            -(ay + ax + az) <= y2 <= ay + ax + az,
    ;
    assert(sq(z2) <= (ay + ax + az) * (ay + ax + az)) by (nonlinear_arith)
        requires
            -(ay + ax + az) <= z2 <= ay + ax + az,
    ;
    assert((ax + az) * (ax + az) + 2 * ((ay + ax + az) * (ay + ax + az)) <= 8 * (ax * ax + ay * ay
        + az * az)) by (nonlinear_arith)
        requires
            0 <= ax,
            0 <= ay,
            0 <= az,
    ;
}

/// The camera after an orbit: the rotated eye when it stays in range and
/// above the minimum distance, the unchanged camera otherwise.
pub open spec fn spec_orbited(c: Camera, dyaw: int, dpitch: int) -> Camera {
    let ne = spec_orbit_candidate(
        c,
        spec_sin(dyaw),
        spec_cos(dyaw),
        spec_sin(dpitch),
        spec_cos(dpitch),
    );
    if in_cam_range(ne) && spec_dist_sq(ne, c.center) >= MIN_DIST_SQ {
        Camera { eye: ne, ..c }
    } else {
        c
    }
}

/// The camera after a pan: eye and center translated together when both stay
/// in range, the unchanged camera otherwise.
pub open spec fn spec_moved(c: Camera, delta: Vec3) -> Camera {
    let ne = Vec3 {
        x: (c.eye.x + delta.x) as i64,
        y: (c.eye.y + delta.y) as i64,
        z: (c.eye.z + delta.z) as i64,
    };
    let nc = Vec3 {
        x: (c.center.x + delta.x) as i64,
        y: (c.center.y + delta.y) as i64,
        z: (c.center.z + delta.z) as i64,
    };
    if in_cam_range(ne) && in_cam_range(nc) {
        Camera { eye: ne, center: nc, ..c }
    } else {
        c
    }
}

impl Camera {
    pub fn new(eye: Vec3, center: Vec3, up: Vec3) -> (c: Camera)
        requires
            in_cam_range(eye),
            in_cam_range(center),
            in_cam_range(up),
            spec_dist_sq(eye, center) >= MIN_DIST_SQ,
        ensures
            c == (Camera { eye, center, up }),
            cam_wf(c),
    {
        Camera { eye, center, up }
    }

    /// Scale the eye-center distance by `FP_ONE - delta` along the view
    /// direction. The move is refused when it would bring the eye below the
    /// minimum distance (or out of range), so repeated zooming can never
    /// cross the floor.
    pub fn zoom(&mut self, delta: i64)
        requires
            cam_wf(*old(self)),
            -FP_ONE <= delta <= FP_ONE,
        ensures
            *final(self) == spec_zoomed(*old(self), delta as int),
            cam_wf(*final(self)),
            final(self).center == old(self).center,
            final(self).up == old(self).up,
    {
        let s = FP_ONE - delta;
        let ne = Vec3 {
            x: self.center.x + fp_mul(self.eye.x - self.center.x, s),
            y: self.center.y + fp_mul(self.eye.y - self.center.y, s),
            z: self.center.z + fp_mul(self.eye.z - self.center.z, s),
        };
        let in_range = -CAM_LIM <= ne.x && ne.x <= CAM_LIM && -CAM_LIM <= ne.y && ne.y <= CAM_LIM
            && -CAM_LIM <= ne.z && ne.z <= CAM_LIM;
        if in_range {
            if dist_sq(&ne, &self.center) >= MIN_DIST_SQ {
                self.eye = ne;
            }
        }
    }

    /// Rotate the eye about the center: a yaw about the world y axis, then a
    /// pitch about the world x axis (angles in fixed-point radians). The new
    /// eye is pinned exactly by `spec_orbited`; because the sine and cosine
    /// are fixed-point approximations, the eye-center distance is preserved
    /// only up to their rounding, so the contract states the exact outcome,
    /// a coarse growth bound on the squared distance, and the exact
    /// minimum-distance floor (a move that would cross it is refused).
    pub fn orbit(&mut self, dyaw: i64, dpitch: i64)
        requires
            cam_wf(*old(self)),
            -ANGLE_LIM <= dyaw <= ANGLE_LIM,
            -ANGLE_LIM <= dpitch <= ANGLE_LIM,
        ensures
            *final(self) == spec_orbited(*old(self), dyaw as int, dpitch as int),
            cam_wf(*final(self)),
            final(self).center == old(self).center,
            final(self).up == old(self).up,
            spec_dist_sq(final(self).eye, final(self).center) <= 8 * spec_dist_sq(
                old(self).eye,
                old(self).center,
            ),
    {
        let sy = fp_sin(dyaw);
        let cy = fp_cos(dyaw);
        let sp = fp_sin(dpitch);
        let cp = fp_cos(dpitch);
        proof {
            lemma_orbit_candidate_bound(*old(self), sy, cy, sp, cp);
        }
        let ox = self.eye.x - self.center.x;
        let oy = self.eye.y - self.center.y;
        let oz = self.eye.z - self.center.z;
        let x1 = fp_sat(fp_mul(ox, cy) + fp_mul(oz, sy));
        let z1 = fp_sat(fp_mul(oz, cy) - fp_mul(ox, sy));
        let y2 = fp_sat(fp_mul(oy, cp) - fp_mul(z1, sp));
        let z2 = fp_sat(fp_mul(oy, sp) + fp_mul(z1, cp));
        let ne = Vec3 { x: self.center.x + x1, y: self.center.y + y2, z: self.center.z + z2 };
        let in_range = -CAM_LIM <= ne.x && ne.x <= CAM_LIM && -CAM_LIM <= ne.y && ne.y <= CAM_LIM
            && -CAM_LIM <= ne.z && ne.z <= CAM_LIM;
        if in_range {
            if dist_sq(&ne, &self.center) >= MIN_DIST_SQ {
                self.eye = ne;
            }
        }
    }

    /// Translate the look-at target and the eye together, preserving their
    /// relative geometry; a move that would leave the camera range is
    /// refused.
    pub fn move_center(&mut self, delta: Vec3)
        requires
            cam_wf(*old(self)),
            -CAM_LIM <= delta.x <= CAM_LIM,
            -CAM_LIM <= delta.y <= CAM_LIM,
            -CAM_LIM <= delta.z <= CAM_LIM,
        ensures
            *final(self) == spec_moved(*old(self), delta),
            cam_wf(*final(self)),
            spec_dist_sq(final(self).eye, final(self).center) == spec_dist_sq(
                old(self).eye,
                old(self).center,
            ),
            final(self).up == old(self).up,
    {
        let ne = Vec3 { x: self.eye.x + delta.x, y: self.eye.y + delta.y, z: self.eye.z + delta.z };
        let nc = Vec3 {
            x: self.center.x + delta.x,
            y: self.center.y + delta.y,
            z: self.center.z + delta.z,
        };
        let in_range = -CAM_LIM <= ne.x && ne.x <= CAM_LIM && -CAM_LIM <= ne.y && ne.y <= CAM_LIM
            && -CAM_LIM <= ne.z && ne.z <= CAM_LIM && -CAM_LIM <= nc.x && nc.x <= CAM_LIM
            && -CAM_LIM <= nc.y && nc.y <= CAM_LIM && -CAM_LIM <= nc.z && nc.z <= CAM_LIM;
        if in_range {
            self.eye = ne;
            self.center = nc;
        }
    }
}

} // verus!
