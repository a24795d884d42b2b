//! Fixed-point sine and cosine.
//!
//! Angles are in radians, as 16.16 fixed-point values. An angle is first
//! reduced into `[-pi, pi]` and the result is then a truncated Taylor
//! polynomial, clamped into `[-1, 1]`. Each executable function is
//! specified exactly by the spec function of the same name with the `fx_`
//! prefix.

use vstd::prelude::*;
use crate::fx::{
    tdiv, fx_mul, fx_divi, fx_sub, fx_add, fx_clamp, abs_u128, mul_fx, divi_fx, sub_fx, add_fx,
    clamp_fx, FX_ONE, FX_MINUS_ONE, FX_PI, FX_TWO_PI,
};

verus! {

/// The fixed-point representation of -pi.
pub const FX_MINUS_PI: i64 = -205887;

/// The angle translated by a whole number of turns into `[-pi, pi]`.
pub open spec fn angle_reduced(a: i64) -> i64 {
    let r0 = a as int - tdiv(a as int, FX_TWO_PI as int) * (FX_TWO_PI as int);
    if r0 > FX_PI as int {
        (r0 - FX_TWO_PI as int) as i64
    } else if r0 < FX_MINUS_PI as int {
        (r0 + FX_TWO_PI as int) as i64
    } else {
        r0 as i64
    }
}

/// The truncated Taylor polynomial for the sine of a reduced angle.
pub open spec fn taylor_sin(x: i64) -> i64 {
    let x2 = fx_mul(x, x);
    let p3 = fx_mul(x2, x);
    let p5 = fx_mul(p3, x2);
    let p7 = fx_mul(p5, x2);
    let p9 = fx_mul(p7, x2);
    let p11 = fx_mul(p9, x2);
    let s = fx_sub(x, fx_divi(p3, 6));
    let s = fx_add(s, fx_divi(p5, 120));
    let s = fx_sub(s, fx_divi(p7, 5040));
    let s = fx_add(s, fx_divi(p9, 362880));
    let s = fx_sub(s, fx_divi(p11, 39916800));
    fx_clamp(s, FX_MINUS_ONE, FX_ONE)
}

/// The truncated Taylor polynomial for the cosine of a reduced angle.
pub open spec fn taylor_cos(x: i64) -> i64 {
    let x2 = fx_mul(x, x);
    let p4 = fx_mul(x2, x2);
    let p6 = fx_mul(p4, x2);
    let p8 = fx_mul(p6, x2);
    let p10 = fx_mul(p8, x2);
    let c = fx_sub(FX_ONE, fx_divi(x2, 2));
    let c = fx_add(c, fx_divi(p4, 24));
    let c = fx_sub(c, fx_divi(p6, 720));
    let c = fx_add(c, fx_divi(p8, 40320));
    let c = fx_sub(c, fx_divi(p10, 3628800));
    fx_clamp(c, FX_MINUS_ONE, FX_ONE)
}

/// Fixed-point sine of an angle in radians.
pub open spec fn fx_sin(a: i64) -> i64 {
    taylor_sin(angle_reduced(a))
}

/// Fixed-point cosine of an angle in radians.
pub open spec fn fx_cos(a: i64) -> i64 {
    taylor_cos(angle_reduced(a))
}

/// Reduce an angle by whole turns into `[-pi, pi]`.
pub fn reduce_angle(a: i64) -> (r: i64)
    ensures
        r == angle_reduced(a),
        FX_MINUS_PI <= r <= FX_PI,
{
    let ua: u128 = abs_u128(a);
    let rem: u128 = ua % (FX_TWO_PI as u128);
    let r0: i64 = if a < 0 {
        -(rem as i64)
    } else {
        rem as i64
    };
    proof {
        let ai = a as int;
        let d = FX_TWO_PI as int;
        if ai >= 0 {
            assert(rem as int == ai - (ai / d) * d);
        } else {
            assert(rem as int == (-ai) - ((-ai) / d) * d);
        }
    }
    if r0 > FX_PI {
        r0 - FX_TWO_PI
    } else if r0 < FX_MINUS_PI {
        r0 + FX_TWO_PI
    } else {
        r0
    }
}

/// Fixed-point sine of an angle in radians.
pub fn sin_fx(a: i64) -> (r: i64)
    ensures
        r == fx_sin(a),
        FX_MINUS_ONE <= r <= FX_ONE,
{
    let x: i64 = reduce_angle(a);
    let x2: i64 = mul_fx(x, x);
    let p3: i64 = mul_fx(x2, x);
    let p5: i64 = mul_fx(p3, x2);
    let p7: i64 = mul_fx(p5, x2);
    let p9: i64 = mul_fx(p7, x2);
    let p11: i64 = mul_fx(p9, x2);
    let mut s: i64 = sub_fx(x, divi_fx(p3, 6));
    s = add_fx(s, divi_fx(p5, 120));
    s = sub_fx(s, divi_fx(p7, 5040));
    s = add_fx(s, divi_fx(p9, 362880));
    s = sub_fx(s, divi_fx(p11, 39916800));
    clamp_fx(s, FX_MINUS_ONE, FX_ONE)
}

/// Fixed-point cosine of an angle in radians.
pub fn cos_fx(a: i64) -> (r: i64)
    ensures
        r == fx_cos(a),
        FX_MINUS_ONE <= r <= FX_ONE,
{
    let x: i64 = reduce_angle(a);
    let x2: i64 = mul_fx(x, x);
    let p4: i64 = mul_fx(x2, x2);
    let p6: i64 = mul_fx(p4, x2);
    let p8: i64 = mul_fx(p6, x2);
    let p10: i64 = mul_fx(p8, x2);
    let mut c: i64 = sub_fx(FX_ONE, divi_fx(x2, 2));
    c = add_fx(c, divi_fx(p4, 24));
    c = sub_fx(c, divi_fx(p6, 720));
    c = add_fx(c, divi_fx(p8, 40320));
    c = sub_fx(c, divi_fx(p10, 3628800));
    clamp_fx(c, FX_MINUS_ONE, FX_ONE)
}

} // verus!
