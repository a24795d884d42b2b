//! A small real-time ray tracer over fixed-point arithmetic.
//!
//! The scene is a finite ground plane plus a collection of axis-aligned
//! cubes, lit by one point light, with a day/night skybox fallback. All
//! geometry and shading is computed over signed 16.16 fixed-point scalars,
//! so every stage of the pipeline — ray generation, slab intersection,
//! Phong-style shading, and the per-pixel render loop — carries an exact
//! contract.

pub mod camera;
pub mod color;
pub mod cube;
pub mod framebuffer;
pub mod fx;
pub mod plane;
pub mod skybox;
pub mod light;
pub mod material;
pub mod ray_intersect;
pub mod render;
pub mod trig;
pub mod vec3;
pub mod water;
