//! The water animation: out-of-phase vertical bobbing of a cube cluster.

use vstd::prelude::*;
use crate::cube::Cube;
use crate::fx::{fx_add, fx_mul, fx_of_int, add_fx, mul_fx, fx_from_usize};
use crate::trig::{fx_sin, sin_fx};
use crate::vec3::Vec3;

verus! {

/// The bobbing amplitude, about 0.05 world units.
pub const WATER_AMPLITUDE: i64 = 3277;

/// The vertical offset of the water cube at `index` at the given time:
/// `sin(time + index) * amplitude`, so neighbouring cubes bob out of
/// phase.
pub open spec fn water_bob(time: i64, index: int) -> i64 {
    fx_mul(fx_sin(fx_add(time, fx_of_int(index))), WATER_AMPLITUDE)
}

/// A water cube at the given time: only the vertical center coordinate
/// moves, to the base height plus its bobbing offset.
pub open spec fn bobbed(c: Cube, time: i64, index: int, base_height: i64) -> Cube {
    Cube {
        center: Vec3 {
            x: c.center.x,
            y: fx_add(base_height, water_bob(time, index)),
            z: c.center.z,
        },
        size: c.size,
        material: c.material,
    }
}

/// The vertical offset of the water cube at `index` at the given time.
pub fn water_offset(time: i64, index: usize) -> (r: i64)
    ensures
        r == water_bob(time, index as int),
{
    mul_fx(sin_fx(add_fx(time, fx_from_usize(index))), WATER_AMPLITUDE)
}

/// Move every cube of the water cluster to its bobbed height for the given
/// time, leaving everything else about each cube unchanged.
#[verifier::loop_isolation(false)]
pub fn animate_water(cubes: &mut Vec<Cube>, time: i64, base_height: i64)
    ensures
        final(cubes)@.len() == old(cubes)@.len(),
        forall|i: int|
            0 <= i < old(cubes)@.len() ==> final(cubes)@[i] == bobbed(
                old(cubes)@[i],
                time,
                i,
                base_height,
            ),
{
    let n: usize = cubes.len();
    let mut i: usize = 0;
    while i < n
        invariant
            i <= n,
            cubes@.len() == n,
            forall|j: int| 0 <= j < i ==> cubes@[j] == bobbed(old(cubes)@[j], time, j, base_height),
            forall|j: int| i <= j < n ==> cubes@[j] == old(cubes)@[j],
        decreases n - i,
    {
        let c: Cube = cubes[i];
        let ny: i64 = add_fx(base_height, water_offset(time, i));
        let moved: Cube = Cube {
            center: Vec3 { x: c.center.x, y: ny, z: c.center.z },
            size: c.size,
            material: c.material,
        };
        cubes.set(i, moved);
        i = i + 1;
    }
}

} // verus!
