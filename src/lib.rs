//! Scene description and the exact, integer side of an offline path tracer.
//!
//! Every number a scene is made of is a [`fixed::Fixed`]: an exact fixed-point
//! value with nine decimal places, so that scene construction, box building,
//! permutation tables and camera setup are proved here without rounding.
use vstd::prelude::*;

pub mod fixed;
pub mod vec3;
pub mod camera;
pub mod scene;
pub mod scenes;
pub mod random;
pub mod perlin;
pub mod random_scene;
pub mod final_scene;
pub mod texture;
pub mod bvh;

verus! {

} // verus!
