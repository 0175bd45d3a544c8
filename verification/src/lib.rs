//! A software 3D renderer for a small procedurally-textured solar-system
//! scene: vertex transformation, triangle rasterization, depth-tested
//! fragment shading, and noise-driven material shaders.
//!
//! All geometry, depth and color arithmetic is carried out in fixed-point
//! integers so that every stage of the pipeline has an exact contract.
use vstd::prelude::*;

pub mod camera;
pub mod color;
pub mod fixed;
pub mod framebuffer;
pub mod fragment;
pub mod mat;
pub mod noise;
pub mod pipeline;
pub mod planets;
pub mod rng;
pub mod shaders;
pub mod transforms;
pub mod triangle;
pub mod uniforms;
pub mod vertex;
pub mod vec3;

verus! {

} // verus!
