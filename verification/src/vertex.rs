use vstd::prelude::*;

use crate::color::{color_in_display, Color};
use crate::vec3::{vec_in_sat, Vec3};

verus! {

/// A mesh vertex: model-space position and normal, texture coordinates and a
/// base color, plus the per-frame screen-space position and world-space
/// normal the vertex stage derives.
#[derive(Clone, Copy, PartialEq, Eq, Structural, Debug)]
pub struct Vertex {
    pub position: Vec3,
    pub normal: Vec3,
    pub tex_u: i64,
    pub tex_v: i64,
    pub color: Color,
    pub transformed_position: Vec3,
    pub transformed_normal: Vec3,
}

pub open spec fn vertex_in_sat(v: Vertex) -> bool {
    &&& vec_in_sat(v.position)
    &&& vec_in_sat(v.normal)
    &&& vec_in_sat(v.transformed_position)
    &&& vec_in_sat(v.transformed_normal)
    &&& color_in_display(v.color)
}

impl Vertex {
    /// A fresh vertex; the transformed fields start out as copies of the
    /// model-space ones until the vertex stage overwrites them.
    pub fn new(position: Vec3, normal: Vec3, tex_u: i64, tex_v: i64, color: Color) -> (r: Vertex)
        ensures
            r == (Vertex {
                position,
                normal,
                tex_u,
                tex_v,
                color,
                transformed_position: position,
                transformed_normal: normal,
            }),
    {
        Vertex {
            position,
            normal,
            tex_u,
            tex_v,
            color,
            transformed_position: position,
            transformed_normal: normal,
        }
    }
}

} // verus!
