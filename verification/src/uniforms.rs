use vstd::prelude::*;

use crate::fixed::FP_SAT;
use crate::mat::{mat_in_sat, Mat4};
use crate::noise::NoiseConfig;

verus! {

/// The read-only per-draw-call parameter bundle: the four pipeline matrices,
/// the animation time (fixed point), and the configurations of the noise
/// fields the body's shader reads, in the order that shader expects.
pub struct Uniforms {
    pub model_matrix: Mat4,
    pub view_matrix: Mat4,
    pub projection_matrix: Mat4,
    pub viewport_matrix: Mat4,
    pub time: i64,
    pub noises: Vec<NoiseConfig>,
}

pub open spec fn uniforms_wf(u: Uniforms) -> bool {
    &&& mat_in_sat(u.model_matrix)
    &&& mat_in_sat(u.view_matrix)
    &&& mat_in_sat(u.projection_matrix)
    &&& mat_in_sat(u.viewport_matrix)
    &&& -FP_SAT <= u.time <= FP_SAT
}

impl Uniforms {
    pub fn new(
        model_matrix: Mat4,
        view_matrix: Mat4,
        projection_matrix: Mat4,
        viewport_matrix: Mat4,
        time: i64,
        noises: Vec<NoiseConfig>,
    ) -> (r: Uniforms)
        ensures
            r.model_matrix == model_matrix,
            r.view_matrix == view_matrix,
            r.projection_matrix == projection_matrix,
            r.viewport_matrix == viewport_matrix,
            r.time == time,
            r.noises == noises,
    {
        Uniforms { model_matrix, view_matrix, projection_matrix, viewport_matrix, time, noises }
    }
}

} // verus!
