//! The intersection record and the capability shared by all primitives.

use vstd::prelude::*;
use crate::material::{Material, zero_material};
use crate::vec3::Vec3;

verus! {

/// The result of a ray test. When `is_intersecting` is false every other
/// field is meaningless and must not be read; callers check the flag first.
#[derive(Clone, Copy, Debug, PartialEq, Eq)]
pub struct Intersect {
    pub is_intersecting: bool,
    pub point: Vec3,
    pub normal: Vec3,
    pub distance: i64,
    pub material: Material,
}

/// The non-hit record: hit flag down, every other field zeroed.
pub open spec fn empty_intersect() -> Intersect {
    Intersect {
        is_intersecting: false,
        point: Vec3 { x: 0, y: 0, z: 0 },
        normal: Vec3 { x: 0, y: 0, z: 0 },
        distance: 0,
        material: zero_material(),
    }
}

impl Intersect {
    /// A hit record.
    pub fn new(point: Vec3, normal: Vec3, distance: i64, material: Material) -> (r: Intersect)
        ensures
            r == (Intersect { is_intersecting: true, point, normal, distance, material }),
    {
        Intersect { is_intersecting: true, point, normal, distance, material }
    }

    /// The non-hit record.
    pub fn empty() -> (r: Intersect)
        ensures
            r == empty_intersect(),
    {
        Intersect {
            is_intersecting: false,
            point: Vec3 { x: 0, y: 0, z: 0 },
            normal: Vec3 { x: 0, y: 0, z: 0 },
            distance: 0,
            material: Material {
                diffuse: crate::color::Color { r: 0, g: 0, b: 0 },
                specular: 0,
                albedo: (0, 0, 0, 0),
                refractive_index: 0,
            },
        }
    }
}

/// The capability of being hit by a ray. The executable test is exact
/// against the implementing type's spec-level intersection.
pub trait RayIntersect: Sized {
    /// The intersection record this primitive yields for the given ray.
    spec fn spec_ray_intersect(&self, origin: Vec3, direction: Vec3) -> Intersect;

    /// Test the ray `origin + t * direction` against this primitive.
    fn ray_intersect(&self, ray_origin: &Vec3, ray_direction: &Vec3) -> (r: Intersect)
        ensures
            r == self.spec_ray_intersect(*ray_origin, *ray_direction),
    ;
}

} // verus!
