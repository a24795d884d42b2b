//! Three-component vectors over fixed-point scalars.
//!
//! Each executable method is specified exactly by the spec function of the
//! same name with the `v3_` prefix; all component arithmetic saturates as
//! the scalar operations in [`crate::fx`] do.

use vstd::prelude::*;
use crate::fx::{
    fx_add, fx_sub, fx_neg, fx_mul, fx_sqrt, fx_muldiv, add_fx, sub_fx, neg_fx, mul_fx, sqrt_fx,
    muldiv_fx, FX_ONE,
};

verus! {

/// A vector of three fixed-point scalars.
#[derive(Clone, Copy, Debug, PartialEq, Eq, Structural)]
pub struct Vec3 {
    pub x: i64,
    pub y: i64,
    pub z: i64,
}

/// Component-wise vector sum.
pub open spec fn v3_add(a: Vec3, b: Vec3) -> Vec3 {
    Vec3 { x: fx_add(a.x, b.x), y: fx_add(a.y, b.y), z: fx_add(a.z, b.z) }
}

/// Component-wise vector difference.
pub open spec fn v3_sub(a: Vec3, b: Vec3) -> Vec3 {
    Vec3 { x: fx_sub(a.x, b.x), y: fx_sub(a.y, b.y), z: fx_sub(a.z, b.z) }
}

/// Component-wise negation.
pub open spec fn v3_neg(a: Vec3) -> Vec3 {
    Vec3 { x: fx_neg(a.x), y: fx_neg(a.y), z: fx_neg(a.z) }
}

/// The vector scaled by a fixed-point factor.
pub open spec fn v3_scale(a: Vec3, k: i64) -> Vec3 {
    Vec3 { x: fx_mul(a.x, k), y: fx_mul(a.y, k), z: fx_mul(a.z, k) }
}

/// The dot product of two vectors.
pub open spec fn v3_dot(a: Vec3, b: Vec3) -> i64 {
    fx_add(fx_add(fx_mul(a.x, b.x), fx_mul(a.y, b.y)), fx_mul(a.z, b.z))
}

/// The cross product of two vectors.
pub open spec fn v3_cross(a: Vec3, b: Vec3) -> Vec3 {
    Vec3 {
        x: fx_sub(fx_mul(a.y, b.z), fx_mul(a.z, b.y)),
        y: fx_sub(fx_mul(a.z, b.x), fx_mul(a.x, b.z)),
        z: fx_sub(fx_mul(a.x, b.y), fx_mul(a.y, b.x)),
    }
}

/// The Euclidean length of the vector.
pub open spec fn v3_norm(a: Vec3) -> i64 {
    fx_sqrt(v3_dot(a, a))
}

/// The vector rescaled to length `len`, with each component rounded once.
/// A vector of length zero stays the zero vector.
pub open spec fn v3_with_len(a: Vec3, len: i64) -> Vec3 {
    let n = v3_norm(a);
    if n == 0 {
        Vec3 { x: 0, y: 0, z: 0 }
    } else {
        Vec3 {
            x: fx_muldiv(a.x, len, n),
            y: fx_muldiv(a.y, len, n),
            z: fx_muldiv(a.z, len, n),
        }
    }
}

/// The vector rescaled to unit length.
pub open spec fn v3_normalize(a: Vec3) -> Vec3 {
    v3_with_len(a, FX_ONE)
}

/// A vector's length is never negative.
pub proof fn lemma_norm_nonneg(v: Vec3)
    ensures
        v3_norm(v) >= 0,
{
    crate::fx::lemma_sqrt_nonneg(v3_dot(v, v));
}

/// Rescaling a vector to its own length is exact: every rounding in the
/// component-wise scale-and-divide cancels.
pub proof fn lemma_with_len_norm_identity(v: Vec3)
    requires
        v3_norm(v) != 0,
    ensures
        v3_with_len(v, v3_norm(v)) == v,
{
    lemma_norm_nonneg(v);
    let n = v3_norm(v);
    crate::fx::lemma_muldiv_cancel(v.x, n);
    crate::fx::lemma_muldiv_cancel(v.y, n);
    crate::fx::lemma_muldiv_cancel(v.z, n);
}

/// Rescaling a vector is accurate to one truncation per component: each
/// component of `v3_with_len(v, len)`, multiplied back by the vector's
/// length, misses the exact product `component * len` by less than one
/// length. In particular an orbit, which rescales the rotated offset back
/// to the orbit radius, preserves the radius up to these roundings. The
/// products must stay below the saturation threshold.
pub proof fn lemma_with_len_component_error(v: Vec3, len: i64)
    requires
        v3_norm(v) > 0,
        crate::fx::abs_int(v.x as int * len as int) <= i64::MAX as int * v3_norm(v) as int,
        crate::fx::abs_int(v.y as int * len as int) <= i64::MAX as int * v3_norm(v) as int,
        crate::fx::abs_int(v.z as int * len as int) <= i64::MAX as int * v3_norm(v) as int,
    ensures
        crate::fx::abs_int(
            v3_with_len(v, len).x as int * v3_norm(v) as int - v.x as int * len as int,
        ) < v3_norm(v) as int,
        crate::fx::abs_int(
            v3_with_len(v, len).y as int * v3_norm(v) as int - v.y as int * len as int,
        ) < v3_norm(v) as int,
        crate::fx::abs_int(
            v3_with_len(v, len).z as int * v3_norm(v) as int - v.z as int * len as int,
        ) < v3_norm(v) as int,
{
    let n = v3_norm(v) as int;
    lemma_component_rescale(v.x, len, n);
    lemma_component_rescale(v.y, len, n);
    lemma_component_rescale(v.z, len, n);
}

/// One component of a rescale: the saturation never engages under the
/// product bound, so the truncated quotient carries the whole error.
proof fn lemma_component_rescale(x: i64, len: i64, n: int)
    requires
        n > 0,
        n <= i64::MAX as int,
        crate::fx::abs_int(x as int * len as int) <= i64::MAX as int * n,
    ensures
        crate::fx::abs_int(
            crate::fx::fx_muldiv(x, len, n as i64) as int * n - x as int * len as int,
        ) < n,
{
    let m = x as int * len as int;
    crate::fx::lemma_tdiv_close(m, n);
    let q = crate::fx::tdiv(m, n);
    assert(crate::fx::abs_int(q) <= i64::MAX as int) by (nonlinear_arith)
        requires
            crate::fx::abs_int(q) * n <= crate::fx::abs_int(m),
            crate::fx::abs_int(m) <= i64::MAX as int * n,
            n > 0,
            crate::fx::abs_int(q) >= 0;
}

impl Vec3 {
    /// Build a vector from its components.
    pub fn new(x: i64, y: i64, z: i64) -> (r: Vec3)
        ensures
            r == (Vec3 { x, y, z }),
    {
        Vec3 { x, y, z }
    }

    /// Component-wise vector sum.
    pub fn add(self, o: Vec3) -> (r: Vec3)
        ensures
            r == v3_add(self, o),
    {
        Vec3 { x: add_fx(self.x, o.x), y: add_fx(self.y, o.y), z: add_fx(self.z, o.z) }
    }

    /// Component-wise vector difference.
    pub fn sub(self, o: Vec3) -> (r: Vec3)
        ensures
            r == v3_sub(self, o),
    {
        Vec3 { x: sub_fx(self.x, o.x), y: sub_fx(self.y, o.y), z: sub_fx(self.z, o.z) }
    }

    /// Component-wise negation.
    pub fn neg(self) -> (r: Vec3)
        ensures
            r == v3_neg(self),
    {
        Vec3 { x: neg_fx(self.x), y: neg_fx(self.y), z: neg_fx(self.z) }
    }

    /// The vector scaled by a fixed-point factor.
    pub fn scale(self, k: i64) -> (r: Vec3)
        ensures
            r == v3_scale(self, k),
    {
        Vec3 { x: mul_fx(self.x, k), y: mul_fx(self.y, k), z: mul_fx(self.z, k) }
    }

    /// The dot product with another vector.
    pub fn dot(self, o: Vec3) -> (r: i64)
        ensures
            r == v3_dot(self, o),
    {
        add_fx(add_fx(mul_fx(self.x, o.x), mul_fx(self.y, o.y)), mul_fx(self.z, o.z))
    }

    /// The cross product with another vector.
    pub fn cross(self, o: Vec3) -> (r: Vec3)
        ensures
            r == v3_cross(self, o),
    {
        Vec3 {
            x: sub_fx(mul_fx(self.y, o.z), mul_fx(self.z, o.y)),
            y: sub_fx(mul_fx(self.z, o.x), mul_fx(self.x, o.z)),
            z: sub_fx(mul_fx(self.x, o.y), mul_fx(self.y, o.x)),
        }
    }

    /// The Euclidean length of the vector.
    pub fn norm(self) -> (r: i64)
        ensures
            r == v3_norm(self),
    {
        sqrt_fx(self.dot(self))
    }

    /// The vector rescaled to length `len`.
    pub fn with_len(self, len: i64) -> (r: Vec3)
        ensures
            r == v3_with_len(self, len),
    {
        let n: i64 = self.norm();
        if n == 0 {
            Vec3 { x: 0, y: 0, z: 0 }
        } else {
            Vec3 {
                x: muldiv_fx(self.x, len, n),
                y: muldiv_fx(self.y, len, n),
                z: muldiv_fx(self.z, len, n),
            }
        }
    }

    /// The vector rescaled to unit length.
    pub fn normalize(self) -> (r: Vec3)
        ensures
            r == v3_normalize(self),
    {
        self.with_len(FX_ONE)
    }
}

} // verus!
