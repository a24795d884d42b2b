//! The uniform skybox: two preset materials and a current selection.

use vstd::prelude::*;
use crate::color::{Color, c_from_bytes};
use crate::fx::FX_ONE;
use crate::material::Material;
use crate::vec3::Vec3;

verus! {

/// Two fixed ambient fallback materials (day and night) and a copy of the
/// one currently selected. Only the current material's diffuse color is
/// ever sampled; the sky is uniform in every direction.
#[derive(Clone, Copy, Debug, PartialEq, Eq)]
pub struct Skybox {
    pub day_material: Material,
    pub night_material: Material,
    pub current_material: Material,
}

/// The preset day sky material: a light sky-blue diffuse color.
pub open spec fn day_sky_material() -> Material {
    Material {
        diffuse: c_from_bytes(135, 206, 235),
        specular: 50,
        albedo: (FX_ONE, 0, 0, 0),
        refractive_index: FX_ONE,
    }
}

/// The preset night sky material: a dark blue diffuse color.
pub open spec fn night_sky_material() -> Material {
    Material {
        diffuse: c_from_bytes(10, 10, 30),
        specular: 50,
        albedo: (FX_ONE, 0, 0, 0),
        refractive_index: FX_ONE,
    }
}

/// The skybox holding the two presets, starting on day.
pub open spec fn default_skybox() -> Skybox {
    Skybox {
        day_material: day_sky_material(),
        night_material: night_sky_material(),
        current_material: day_sky_material(),
    }
}

impl Skybox {
    /// Build a skybox from its two presets; the day preset starts current.
    pub fn new(day_material: Material, night_material: Material) -> (s: Skybox)
        ensures
            s == (Skybox { day_material, night_material, current_material: day_material }),
    {
        Skybox { day_material, night_material, current_material: day_material }
    }

    /// The sky color for a ray direction: always the current material's
    /// diffuse color, whatever the direction.
    pub fn sample(&self, _direction: Vec3) -> (c: Color)
        ensures
            c == self.current_material.diffuse,
    {
        self.current_material.diffuse
    }

    /// Select the day preset.
    pub fn set_day(&mut self)
        ensures
            final(self).current_material == old(self).day_material,
            final(self).day_material == old(self).day_material,
            final(self).night_material == old(self).night_material,
    {
        self.current_material = self.day_material;
    }

    /// Select the night preset.
    pub fn set_night(&mut self)
        ensures
            final(self).current_material == old(self).night_material,
            final(self).day_material == old(self).day_material,
            final(self).night_material == old(self).night_material,
    {
        self.current_material = self.night_material;
    }
}

/// The skybox used by the default scene, with its day and night presets.
pub fn load_skybox() -> (s: Skybox)
    ensures
        s == default_skybox(),
{
    let day_material: Material = Material::new(
        Color::new(135, 206, 235),
        50,
        (FX_ONE, 0, 0, 0),
        FX_ONE,
    );
    let night_material: Material = Material::new(
        Color::new(10, 10, 30),
        50,
        (FX_ONE, 0, 0, 0),
        FX_ONE,
    );
    Skybox::new(day_material, night_material)
}

} // verus!
