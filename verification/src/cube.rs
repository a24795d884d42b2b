//! Axis-aligned cubes and their slab-method ray test.

use vstd::prelude::*;
use crate::fx::{
    fx_sub, fx_add, fx_div, fx_divi, fx_min, fx_max, fx_abs, sub_fx, add_fx, div_fx, divi_fx,
    min_fx, max_fx, abs_fx, FX_ONE, FX_MINUS_ONE,
};
use crate::material::Material;
use crate::ray_intersect::{Intersect, RayIntersect, empty_intersect};
use crate::vec3::{Vec3, v3_sub, v3_add, v3_scale};

verus! {

/// Tolerance (about 0.001) within which a hit coordinate counts as lying
/// on a face plane when the face normal is chosen.
pub const NORMAL_BIAS: i64 = 66;

/// An axis-aligned cube: center, uniform edge length and material. Only
/// the center moves after construction (the water animation); size and
/// material are fixed.
#[derive(Clone, Copy, Debug, PartialEq, Eq)]
pub struct Cube {
    pub center: Vec3,
    pub size: i64,
    pub material: Material,
}

/// Half the edge length.
pub open spec fn cube_half(c: Cube) -> i64 {
    fx_divi(c.size, 2)
}

/// The least corner of the cube's bounding box.
pub open spec fn cube_min(c: Cube) -> Vec3 {
    v3_sub(c.center, Vec3 { x: cube_half(c), y: cube_half(c), z: cube_half(c) })
}

/// The greatest corner of the cube's bounding box.
pub open spec fn cube_max(c: Cube) -> Vec3 {
    v3_add(c.center, Vec3 { x: cube_half(c), y: cube_half(c), z: cube_half(c) })
}

/// Whether the slab `[lo, hi]` constrains the ray at all on one axis: a
/// ray running parallel to the slab planes meets the slab only if its
/// origin lies strictly inside.
pub open spec fn axis_feasible(o: i64, d: i64, lo: i64, hi: i64) -> bool {
    d != 0 || (lo < o && o < hi)
}

/// The entry parameter of the ray into the slab `[lo, hi]` on one axis; a
/// parallel ray inside the slab is unconstrained from below.
pub open spec fn axis_t1(o: i64, d: i64, lo: i64, hi: i64) -> i64 {
    if d == 0 {
        i64::MIN
    } else {
        fx_min(fx_div(fx_sub(lo, o), d), fx_div(fx_sub(hi, o), d))
    }
}

/// The exit parameter of the ray out of the slab `[lo, hi]` on one axis; a
/// parallel ray inside the slab is unconstrained from above.
pub open spec fn axis_t2(o: i64, d: i64, lo: i64, hi: i64) -> i64 {
    if d == 0 {
        i64::MAX
    } else {
        fx_max(fx_div(fx_sub(lo, o), d), fx_div(fx_sub(hi, o), d))
    }
}

/// Whether the ray meets every axis slab of the cube's bounding box.
pub open spec fn cube_feasible(c: Cube, o: Vec3, d: Vec3) -> bool {
    let lo = cube_min(c);
    let hi = cube_max(c);
    axis_feasible(o.x, d.x, lo.x, hi.x) && axis_feasible(o.y, d.y, lo.y, hi.y) && axis_feasible(
        o.z,
        d.z,
        lo.z,
        hi.z,
    )
}

/// The ray parameter at which the ray enters the cube's bounding box: the
/// latest per-axis entry.
pub open spec fn cube_tnear(c: Cube, o: Vec3, d: Vec3) -> i64 {
    let lo = cube_min(c);
    let hi = cube_max(c);
    fx_max(
        fx_max(axis_t1(o.x, d.x, lo.x, hi.x), axis_t1(o.y, d.y, lo.y, hi.y)),
        axis_t1(o.z, d.z, lo.z, hi.z),
    )
}

/// The ray parameter at which the ray leaves the cube's bounding box: the
/// earliest per-axis exit.
pub open spec fn cube_tfar(c: Cube, o: Vec3, d: Vec3) -> i64 {
    let lo = cube_min(c);
    let hi = cube_max(c);
    fx_min(
        fx_min(axis_t2(o.x, d.x, lo.x, hi.x), axis_t2(o.y, d.y, lo.y, hi.y)),
        axis_t2(o.z, d.z, lo.z, hi.z),
    )
}

/// Whether the ray hits the cube: every slab met, the entry no later than
/// the exit, and the box not entirely behind the origin.
pub open spec fn cube_hits(c: Cube, o: Vec3, d: Vec3) -> bool {
    cube_feasible(c, o, d) && cube_tnear(c, o, d) <= cube_tfar(c, o, d) && cube_tfar(c, o, d) >= 0
}

/// The face normal for a hit point: the first face, in the fixed priority
/// order +x, -x, +y, -y, +z, -z, whose plane lies within `NORMAL_BIAS` of
/// the hit point's center-relative coordinate; -z when none matches.
pub open spec fn cube_normal(c: Cube, point: Vec3) -> Vec3 {
    let local = v3_sub(point, c.center);
    let half = cube_half(c);
    if fx_abs(fx_sub(local.x, half)) < NORMAL_BIAS {
        Vec3 { x: FX_ONE, y: 0, z: 0 }
    } else if fx_abs(fx_add(local.x, half)) < NORMAL_BIAS {
        Vec3 { x: FX_MINUS_ONE, y: 0, z: 0 }
    } else if fx_abs(fx_sub(local.y, half)) < NORMAL_BIAS {
        Vec3 { x: 0, y: FX_ONE, z: 0 }
    } else if fx_abs(fx_add(local.y, half)) < NORMAL_BIAS {
        Vec3 { x: 0, y: FX_MINUS_ONE, z: 0 }
    } else if fx_abs(fx_sub(local.z, half)) < NORMAL_BIAS {
        Vec3 { x: 0, y: 0, z: FX_ONE }
    } else {
        Vec3 { x: 0, y: 0, z: FX_MINUS_ONE }
    }
}

/// The full intersection record of a ray against a cube: on a hit, the hit
/// point at the entry parameter, the prioritized face normal, the entry
/// parameter as the distance, and the cube's material; otherwise the
/// non-hit record.
pub open spec fn cube_intersect(c: Cube, o: Vec3, d: Vec3) -> Intersect {
    if cube_hits(c, o, d) {
        let t = cube_tnear(c, o, d);
        let point = v3_add(o, v3_scale(d, t));
        Intersect {
            is_intersecting: true,
            point,
            normal: cube_normal(c, point),
            distance: t,
            material: c.material,
        }
    } else {
        empty_intersect()
    }
}

/// A ray that misses the bounding slab volume, or meets it only behind the
/// origin, yields the non-hit record, whose flag is down.
pub proof fn lemma_slab_miss_is_non_hit(c: Cube, o: Vec3, d: Vec3)
    ensures
        cube_intersect(c, o, d).is_intersecting <==> cube_hits(c, o, d),
        !cube_hits(c, o, d) ==> cube_intersect(c, o, d) == empty_intersect(),
{
}

/// A ray parallel to an axis slab that does not start strictly inside it
/// misses the cube, whatever the other components do.
pub proof fn lemma_parallel_axis_outside_misses(c: Cube, o: Vec3, d: Vec3)
    requires
        (d.x == 0 && !(cube_min(c).x < o.x && o.x < cube_max(c).x)) || (d.y == 0 && !(cube_min(
            c,
        ).y < o.y && o.y < cube_max(c).y)) || (d.z == 0 && !(cube_min(c).z < o.z && o.z < cube_max(
            c,
        ).z)),
    ensures
        !cube_intersect(c, o, d).is_intersecting,
{
}

impl Cube {
    /// Build a cube from its parts.
    pub fn new(center: Vec3, size: i64, material: Material) -> (c: Cube)
        requires
            size > 0,
        ensures
            c == (Cube { center, size, material }),
    {
        Cube { center, size, material }
    }

    /// The face normal for a hit point on this cube's surface.
    pub fn compute_normal(&self, point: Vec3) -> (n: Vec3)
        ensures
            n == cube_normal(*self, point),
    {
        let local: Vec3 = point.sub(self.center);
        let half: i64 = divi_fx(self.size, 2);
        if abs_fx(sub_fx(local.x, half)) < NORMAL_BIAS {
            Vec3 { x: FX_ONE, y: 0, z: 0 }
        } else if abs_fx(add_fx(local.x, half)) < NORMAL_BIAS {
            Vec3 { x: FX_MINUS_ONE, y: 0, z: 0 }
        } else if abs_fx(sub_fx(local.y, half)) < NORMAL_BIAS {
            Vec3 { x: 0, y: FX_ONE, z: 0 }
        } else if abs_fx(add_fx(local.y, half)) < NORMAL_BIAS {
            Vec3 { x: 0, y: FX_MINUS_ONE, z: 0 }
        } else if abs_fx(sub_fx(local.z, half)) < NORMAL_BIAS {
            Vec3 { x: 0, y: 0, z: FX_ONE }
        } else {
            Vec3 { x: 0, y: 0, z: FX_MINUS_ONE }
        }
    }
}

/// One axis slab's entry and exit parameters, with the flag saying whether
/// the slab can be met at all.
fn axis_interval(o: i64, d: i64, lo: i64, hi: i64) -> (r: (bool, i64, i64))
    ensures
        r.0 == axis_feasible(o, d, lo, hi),
        r.1 == axis_t1(o, d, lo, hi),
        r.2 == axis_t2(o, d, lo, hi),
{
    if d == 0 {
        (lo < o && o < hi, i64::MIN, i64::MAX)
    } else {
        let ta: i64 = div_fx(sub_fx(lo, o), d);
        let tb: i64 = div_fx(sub_fx(hi, o), d);
        (true, min_fx(ta, tb), max_fx(ta, tb))
    }
}

impl RayIntersect for Cube {
    open spec fn spec_ray_intersect(&self, origin: Vec3, direction: Vec3) -> Intersect {
        cube_intersect(*self, origin, direction)
    }

    fn ray_intersect(&self, ray_origin: &Vec3, ray_direction: &Vec3) -> (r: Intersect) {
        let half: i64 = divi_fx(self.size, 2);
        let ext: Vec3 = Vec3 { x: half, y: half, z: half };
        let lo: Vec3 = self.center.sub(ext);
        let hi: Vec3 = self.center.add(ext);
        let ax: (bool, i64, i64) = axis_interval(ray_origin.x, ray_direction.x, lo.x, hi.x);
        let ay: (bool, i64, i64) = axis_interval(ray_origin.y, ray_direction.y, lo.y, hi.y);
        let az: (bool, i64, i64) = axis_interval(ray_origin.z, ray_direction.z, lo.z, hi.z);
        if !ax.0 || !ay.0 || !az.0 {
            return Intersect::empty();
        }
        let t_near: i64 = max_fx(max_fx(ax.1, ay.1), az.1);
        let t_far: i64 = min_fx(min_fx(ax.2, ay.2), az.2);
        if t_near > t_far || t_far < 0 {
            return Intersect::empty();
        }
        let point: Vec3 = ray_origin.add(ray_direction.scale(t_near));
        let normal: Vec3 = self.compute_normal(point);
        Intersect::new(point, normal, t_near, self.material)
    }
}

} // verus!
