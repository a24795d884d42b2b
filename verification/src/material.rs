//! Surface materials.

use vstd::prelude::*;
use crate::color::Color;

verus! {

/// A surface material: diffuse color, specular exponent, and an albedo
/// 4-tuple weighting the diffuse, specular, reflective and refractive
/// contributions. Only the first two weights are consumed by the shader;
/// the last two and the refractive index are retained for interface
/// symmetry.
#[derive(Clone, Copy, Debug, PartialEq, Eq)]
pub struct Material {
    pub diffuse: Color,
    pub specular: u32,
    pub albedo: (i64, i64, i64, i64),
    pub refractive_index: i64,
}

impl Material {
    /// Build a material from its parts.
    pub fn new(diffuse: Color, specular: u32, albedo: (i64, i64, i64, i64), refractive_index: i64) -> (m: Material)
        ensures
            m == (Material { diffuse, specular, albedo, refractive_index }),
    {
        Material { diffuse, specular, albedo, refractive_index }
    }
}

/// The all-zero material carried by non-hit intersection records.
pub open spec fn zero_material() -> Material {
    Material {
        diffuse: Color { r: 0, g: 0, b: 0 },
        specular: 0,
        albedo: (0, 0, 0, 0),
        refractive_index: 0,
    }
}

} // verus!
