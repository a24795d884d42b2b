//! The point light source.

use vstd::prelude::*;
use crate::color::Color;
use crate::vec3::Vec3;

verus! {

/// A point light: position, color and a non-negative intensity scalar.
/// All fields may be rewritten at runtime by the day/night toggle.
#[derive(Clone, Copy, Debug, PartialEq, Eq, Structural)]
pub struct Light {
    pub position: Vec3,
    pub color: Color,
    pub intensity: i64,
}

impl Light {
    /// Build a light from its parts.
    pub fn new(position: Vec3, color: Color, intensity: i64) -> (l: Light)
        requires
            intensity >= 0,
        ensures
            l == (Light { position, color, intensity }),
    {
        Light { position, color, intensity }
    }
}

} // verus!
