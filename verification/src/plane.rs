//! The finite ground plane: an infinite plane clipped to a square tile.

use vstd::prelude::*;
use crate::fx::{fx_div, fx_abs, div_fx, abs_fx, FX_ONE};
use crate::material::Material;
use crate::ray_intersect::{Intersect, RayIntersect, empty_intersect};
use crate::vec3::{Vec3, v3_sub, v3_add, v3_scale, v3_neg, v3_dot};

verus! {

/// A plane given by a point on it, a unit normal and a material. Hits are
/// accepted only where the hit point's x and z coordinates both lie within
/// `[-1, 1]`, so the plane acts as a finite 2-by-2 tile.
#[derive(Clone, Copy, Debug, PartialEq, Eq)]
pub struct Plane {
    pub point: Vec3,
    pub normal: Vec3,
    pub material: Material,
}

/// The alignment of the ray direction with the plane normal. A zero value
/// means the ray runs parallel (to fixed-point precision) and is treated
/// as a miss by policy.
pub open spec fn plane_denom(p: Plane, d: Vec3) -> i64 {
    v3_dot(p.normal, d)
}

/// The ray parameter of the hit with the infinite plane.
pub open spec fn plane_t(p: Plane, o: Vec3, d: Vec3) -> i64 {
    fx_div(v3_dot(v3_sub(p.point, o), p.normal), plane_denom(p, d))
}

/// The hit point with the infinite plane.
pub open spec fn plane_hit_point(p: Plane, o: Vec3, d: Vec3) -> Vec3 {
    v3_add(o, v3_scale(d, plane_t(p, o, d)))
}

/// Whether the hit point lies on the finite tile: both its x and z
/// coordinates within `[-1, 1]`.
pub open spec fn on_tile(hit: Vec3) -> bool {
    fx_abs(hit.x) <= FX_ONE && fx_abs(hit.z) <= FX_ONE
}

/// Whether the ray hits the tile: not parallel, the hit not behind the
/// origin, and the hit point within the tile bounds.
pub open spec fn plane_hits(p: Plane, o: Vec3, d: Vec3) -> bool {
    plane_denom(p, d) != 0 && plane_t(p, o, d) >= 0 && on_tile(plane_hit_point(p, o, d))
}

/// The normal reported for a hit, flipped so that it always opposes the
/// incoming ray.
pub open spec fn plane_facing_normal(p: Plane, d: Vec3) -> Vec3 {
    if plane_denom(p, d) < 0 {
        p.normal
    } else {
        v3_neg(p.normal)
    }
}

/// The full intersection record of a ray against the tile.
pub open spec fn plane_intersect(p: Plane, o: Vec3, d: Vec3) -> Intersect {
    if plane_hits(p, o, d) {
        Intersect {
            is_intersecting: true,
            point: plane_hit_point(p, o, d),
            normal: plane_facing_normal(p, d),
            distance: plane_t(p, o, d),
            material: p.material,
        }
    } else {
        empty_intersect()
    }
}

/// A ray whose infinite-plane hit lies off the tile is a miss, even when
/// its hit parameter is valid; and every reported hit lies on the tile.
pub proof fn lemma_plane_rejects_off_tile(p: Plane, o: Vec3, d: Vec3)
    ensures
        !on_tile(plane_hit_point(p, o, d)) ==> plane_intersect(p, o, d) == empty_intersect(),
        plane_intersect(p, o, d).is_intersecting ==> on_tile(plane_intersect(p, o, d).point),
{
}

impl RayIntersect for Plane {
    open spec fn spec_ray_intersect(&self, origin: Vec3, direction: Vec3) -> Intersect {
        plane_intersect(*self, origin, direction)
    }

    fn ray_intersect(&self, ray_origin: &Vec3, ray_direction: &Vec3) -> (r: Intersect) {
        let denom: i64 = self.normal.dot(*ray_direction);
        if denom != 0 {
            let p0l0: Vec3 = self.point.sub(*ray_origin);
            let t: i64 = div_fx(p0l0.dot(self.normal), denom);
            if t >= 0 {
                let point: Vec3 = ray_origin.add(ray_direction.scale(t));
                if abs_fx(point.x) <= FX_ONE && abs_fx(point.z) <= FX_ONE {
                    let normal: Vec3 = if denom < 0 {
                        self.normal
                    } else {
                        self.normal.neg()
                    };
                    return Intersect::new(point, normal, t, self.material);
                }
            }
        }
        Intersect::empty()
    }
}

} // verus!
