use vstd::prelude::*;

use crate::fixed::{FP_ONE, FP_SAT};
use crate::vec3::{vec_in_sat, Vec3};

verus! {

/// A candidate pixel produced by rasterizing one triangle: integer screen
/// coordinates, interpolated fixed-point depth, interpolated model-space
/// position and normal, and a diffuse lighting intensity.
#[derive(Clone, Copy, PartialEq, Eq, Structural, Debug)]
pub struct Fragment {
    pub x: usize,
    pub y: usize,
    pub depth: i64,
    pub vertex_position: Vec3,
    pub normal: Vec3,
    pub intensity: i64,
}

pub open spec fn frag_in_sat(f: Fragment) -> bool {
    &&& -FP_SAT <= f.depth <= FP_SAT
    &&& vec_in_sat(f.vertex_position)
    &&& vec_in_sat(f.normal)
    &&& 0 <= f.intensity <= FP_ONE
}

impl Fragment {
    pub fn new(
        x: usize,
        y: usize,
        depth: i64,
        vertex_position: Vec3,
        normal: Vec3,
        intensity: i64,
    ) -> (r: Fragment)
        ensures
            r == (Fragment { x, y, depth, vertex_position, normal, intensity }),
    {
        Fragment { x, y, depth, vertex_position, normal, intensity }
    }
}

} // verus!
