//! The orbitable camera and its view-basis transform.

use vstd::prelude::*;
use crate::fx::{fx_add, fx_sub, fx_mul, add_fx, sub_fx, mul_fx, FX_ONE};
use crate::trig::{fx_sin, fx_cos, sin_fx, cos_fx};
use crate::vec3::{
    Vec3, v3_add, v3_sub, v3_scale, v3_dot, v3_cross, v3_norm, v3_normalize, v3_with_len,
};

verus! {

/// Eye and target positions and the reference up vector. The orthonormal
/// basis is recomputed from these on every transform, never cached.
#[derive(Clone, Copy, Debug, PartialEq, Eq, Structural)]
pub struct Camera {
    pub eye: Vec3,
    pub target: Vec3,
    pub up: Vec3,
}

/// The camera's forward basis vector: from the eye toward the target.
pub open spec fn cam_forward(c: Camera) -> Vec3 {
    v3_normalize(v3_sub(c.target, c.eye))
}

/// The camera's right basis vector.
pub open spec fn cam_right(c: Camera) -> Vec3 {
    v3_normalize(v3_cross(cam_forward(c), c.up))
}

/// The camera's orthogonalized up basis vector.
pub open spec fn cam_up(c: Camera) -> Vec3 {
    v3_cross(cam_right(c), cam_forward(c))
}

/// A camera-space direction carried into world space by the camera basis.
/// Camera space looks down its negative z axis, so the world direction is
/// `right*x + up*y - forward*z`.
pub open spec fn cam_base_change(c: Camera, d: Vec3) -> Vec3 {
    v3_sub(
        v3_add(v3_scale(cam_right(c), d.x), v3_scale(cam_up(c), d.y)),
        v3_scale(cam_forward(c), d.z),
    )
}

/// A vector rotated in the horizontal plane (about the world y axis) by an
/// angle with sine `s` and cosine `c`.
pub open spec fn yaw_rotated(v: Vec3, s: i64, c: i64) -> Vec3 {
    Vec3 {
        x: fx_add(fx_mul(v.x, c), fx_mul(v.z, s)),
        y: v.y,
        z: fx_sub(fx_mul(v.z, c), fx_mul(v.x, s)),
    }
}

/// A vector rotated about an arbitrary unit axis `k` by an angle with sine
/// `s` and cosine `c` (the Rodrigues rotation formula).
pub open spec fn axis_rotated(v: Vec3, k: Vec3, s: i64, c: i64) -> Vec3 {
    v3_add(
        v3_add(v3_scale(v, c), v3_scale(v3_cross(k, v), s)),
        v3_scale(k, fx_mul(v3_dot(k, v), fx_sub(FX_ONE, c))),
    )
}

/// The eye after an orbit: the eye-to-target offset is yawed about the
/// vertical axis, pitched about the camera's right axis, and rescaled to
/// the original orbit radius, keeping the target fixed.
pub open spec fn orbited_eye(cam: Camera, delta_yaw: i64, delta_pitch: i64) -> Vec3 {
    let offset = v3_sub(cam.eye, cam.target);
    let radius = v3_norm(offset);
    let yawed = yaw_rotated(offset, fx_sin(delta_yaw), fx_cos(delta_yaw));
    let pitched = axis_rotated(yawed, cam_right(cam), fx_sin(delta_pitch), fx_cos(delta_pitch));
    v3_add(cam.target, v3_with_len(pitched, radius))
}

/// The eye after a zoom: moved along the forward direction by `delta`
/// (positive toward the target), with no floor or ceiling on the distance.
pub open spec fn zoomed_eye(cam: Camera, delta: i64) -> Vec3 {
    v3_add(cam.eye, v3_scale(cam_forward(cam), delta))
}

/// An orbit by zero yaw and zero pitch moves the eye nowhere: the zero
/// rotations are exact, and rescaling the offset to its own radius cancels
/// every rounding. Together with `orbit`'s contract that the target never
/// moves, this is the exactly provable core of radius preservation; for
/// non-zero angles the radius is preserved up to the rounding of the final
/// rescale. The eye-to-target offset must not saturate componentwise.
pub proof fn lemma_orbit_identity(cam: Camera)
    requires
        v3_norm(v3_sub(cam.eye, cam.target)) != 0,
        i64::MIN as int <= cam.eye.x as int - cam.target.x as int <= i64::MAX as int,
        i64::MIN as int <= cam.eye.y as int - cam.target.y as int <= i64::MAX as int,
        i64::MIN as int <= cam.eye.z as int - cam.target.z as int <= i64::MAX as int,
    ensures
        orbited_eye(cam, 0, 0) == cam.eye,
{
    let offset = v3_sub(cam.eye, cam.target);
    assert(crate::trig::angle_reduced(0) == 0);
    assert(crate::trig::taylor_sin(0) == 0);
    assert(fx_sin(0) == 0);
    assert(crate::trig::taylor_cos(0) == FX_ONE);
    assert(fx_cos(0) == FX_ONE);
    crate::fx::lemma_mul_one(offset.x);
    crate::fx::lemma_mul_one(offset.z);
    let yawed = yaw_rotated(offset, 0, FX_ONE);
    assert(yawed == offset);
    crate::fx::lemma_mul_one(yawed.x);
    crate::fx::lemma_mul_one(yawed.y);
    crate::fx::lemma_mul_one(yawed.z);
    let right = cam_right(cam);
    let zero = (Vec3 { x: 0, y: 0, z: 0 });
    assert(v3_scale(yawed, FX_ONE) == yawed);
    assert(v3_scale(v3_cross(right, yawed), 0) == zero);
    assert(fx_sub(FX_ONE, FX_ONE) == 0);
    assert(fx_mul(v3_dot(right, yawed), 0) == 0);
    assert(v3_scale(right, 0) == zero);
    assert(v3_add(yawed, zero) == yawed);
    assert(v3_add(v3_add(yawed, zero), zero) == yawed);
    let pitched = axis_rotated(yawed, right, 0, FX_ONE);
    assert(pitched == offset);
    crate::vec3::lemma_with_len_norm_identity(offset);
}

impl Camera {
    /// Build a camera from its parts.
    pub fn new(eye: Vec3, target: Vec3, up: Vec3) -> (c: Camera)
        ensures
            c == (Camera { eye, target, up }),
    {
        Camera { eye, target, up }
    }

    /// Carry a camera-space ray direction into world space through the
    /// orthonormal basis derived from the current eye, target and up.
    pub fn base_change(&self, dir: &Vec3) -> (r: Vec3)
        ensures
            r == cam_base_change(*self, *dir),
    {
        let forward: Vec3 = self.target.sub(self.eye).normalize();
        let right: Vec3 = forward.cross(self.up).normalize();
        let up: Vec3 = right.cross(forward);
        right.scale(dir.x).add(up.scale(dir.y)).sub(forward.scale(dir.z))
    }

    /// Rotate the eye around the target by the given yaw and pitch angles
    /// (radians), keeping the orbit radius, the target and the reference
    /// up vector.
    pub fn orbit(&mut self, delta_yaw: i64, delta_pitch: i64)
        ensures
            final(self).eye == orbited_eye(*old(self), delta_yaw, delta_pitch),
            final(self).target == old(self).target,
            final(self).up == old(self).up,
    {
        let offset: Vec3 = self.eye.sub(self.target);
        let radius: i64 = offset.norm();
        let ys: i64 = sin_fx(delta_yaw);
        let yc: i64 = cos_fx(delta_yaw);
        let yawed: Vec3 = Vec3 {
            x: add_fx(mul_fx(offset.x, yc), mul_fx(offset.z, ys)),
            y: offset.y,
            z: sub_fx(mul_fx(offset.z, yc), mul_fx(offset.x, ys)),
        };
        let forward: Vec3 = self.target.sub(self.eye).normalize();
        let right: Vec3 = forward.cross(self.up).normalize();
        let ps: i64 = sin_fx(delta_pitch);
        let pc: i64 = cos_fx(delta_pitch);
        let pitched: Vec3 = yawed.scale(pc).add(right.cross(yawed).scale(ps)).add(
            right.scale(mul_fx(right.dot(yawed), sub_fx(FX_ONE, pc))),
        );
        self.eye = self.target.add(pitched.with_len(radius));
    }

    /// Move the eye along the forward direction by `delta` (positive
    /// toward the target), keeping the target and up vector.
    pub fn zoom(&mut self, delta: i64)
        ensures
            final(self).eye == zoomed_eye(*old(self), delta),
            final(self).target == old(self).target,
            final(self).up == old(self).up,
    {
        let forward: Vec3 = self.target.sub(self.eye).normalize();
        self.eye = self.eye.add(forward.scale(delta));
    }
}

} // verus!
