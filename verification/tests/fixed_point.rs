use refractor::fx::{
    add_fx, sub_fx, neg_fx, abs_fx, mul_fx, div_fx, divi_fx, muldiv_fx, min_fx, max_fx, clamp_fx,
    fx_from_usize, pow_fx, sqrt_fx, FX_ONE, FX_MINUS_ONE, FX_PI, FX_TWO_PI,
};
use refractor::trig::{sin_fx, cos_fx, reduce_angle};

fn fx(v: f64) -> i64 {
    (v * 65536.0).round() as i64
}

#[test]
fn add_and_sub_are_exact_in_range() {
    assert_eq!(add_fx(fx(1.5), fx(2.25)), fx(3.75));
    assert_eq!(sub_fx(fx(1.5), fx(2.25)), fx(-0.75));
    assert_eq!(neg_fx(fx(4.0)), fx(-4.0));
    assert_eq!(abs_fx(fx(-4.0)), fx(4.0));
}

#[test]
fn add_saturates_at_the_i64_range() {
    assert_eq!(add_fx(i64::MAX, 1), i64::MAX);
    assert_eq!(add_fx(i64::MIN, -1), i64::MIN);
    assert_eq!(sub_fx(i64::MIN, 1), i64::MIN);
    assert_eq!(neg_fx(i64::MIN), i64::MAX);
}

#[test]
fn mul_matches_exact_products() {
    assert_eq!(mul_fx(fx(3.0), fx(2.0)), fx(6.0));
    assert_eq!(mul_fx(fx(-1.0), fx(0.5)), fx(-0.5));
    assert_eq!(mul_fx(FX_ONE, FX_ONE), FX_ONE);
    assert_eq!(mul_fx(0, i64::MAX), 0);
}

#[test]
fn mul_truncates_toward_zero() {
    // -3/65536 of a unit times one unit: magnitude below one unit, so zero.
    assert_eq!(mul_fx(-3, 1), 0);
    assert_eq!(mul_fx(3, 1), 0);
}

#[test]
fn mul_saturates_at_the_i64_range() {
    assert_eq!(mul_fx(i64::MAX, fx(2.0)), i64::MAX);
    assert_eq!(mul_fx(i64::MAX, fx(-2.0)), i64::MIN);
}

#[test]
fn div_matches_exact_quotients() {
    assert_eq!(div_fx(fx(7.0), fx(2.0)), fx(3.5));
    assert_eq!(div_fx(fx(-7.0), fx(2.0)), fx(-3.5));
    assert_eq!(div_fx(fx(7.0), fx(-2.0)), fx(-3.5));
    assert_eq!(div_fx(fx(-7.0), fx(-2.0)), fx(3.5));
}

#[test]
fn div_by_zero_saturates_by_sign() {
    assert_eq!(div_fx(FX_ONE, 0), i64::MAX);
    assert_eq!(div_fx(FX_MINUS_ONE, 0), i64::MIN);
    assert_eq!(div_fx(0, 0), 0);
}

#[test]
fn divi_divides_by_a_plain_integer() {
    assert_eq!(divi_fx(fx(3.0), 2), fx(1.5));
    assert_eq!(divi_fx(fx(-3.0), 2), fx(-1.5));
    assert_eq!(divi_fx(7, 2), 3);
    assert_eq!(divi_fx(-7, 2), -3);
}

#[test]
fn muldiv_rounds_once() {
    assert_eq!(muldiv_fx(fx(3.0), fx(5.0), fx(5.0)), fx(3.0));
    assert_eq!(muldiv_fx(fx(-3.0), fx(5.0), fx(5.0)), fx(-3.0));
    assert_eq!(muldiv_fx(fx(1.0), fx(1.0), 0), 0);
}

#[test]
fn min_max_clamp() {
    assert_eq!(min_fx(3, -4), -4);
    assert_eq!(max_fx(3, -4), 3);
    assert_eq!(clamp_fx(10, 0, 5), 5);
    assert_eq!(clamp_fx(-10, 0, 5), 0);
    assert_eq!(clamp_fx(3, 0, 5), 3);
}

#[test]
fn from_usize_scales() {
    assert_eq!(fx_from_usize(400), 400 * 65536);
    assert_eq!(fx_from_usize(0), 0);
}

#[test]
fn pow_repeats_multiplication() {
    assert_eq!(pow_fx(fx(0.5), 0), FX_ONE);
    assert_eq!(pow_fx(fx(0.5), 1), fx(0.5));
    assert_eq!(pow_fx(fx(0.5), 2), fx(0.25));
    assert_eq!(pow_fx(FX_ONE, 50), FX_ONE);
}

#[test]
fn sqrt_is_the_floor_square_root() {
    assert_eq!(sqrt_fx(fx(4.0)), fx(2.0));
    assert_eq!(sqrt_fx(fx(25.0)), fx(5.0));
    assert_eq!(sqrt_fx(0), 0);
    assert_eq!(sqrt_fx(fx(-1.0)), 0);
    let s = sqrt_fx(fx(2.0));
    let expected = (2.0f64.sqrt() * 65536.0).floor() as i64;
    assert!((s - expected).abs() <= 1, "sqrt(2) = {s}, expected {expected}");
}

#[test]
fn angle_reduction_lands_in_minus_pi_pi() {
    for turns in -3i64..=3 {
        let a = fx(1.0) + turns * FX_TWO_PI;
        let r = reduce_angle(a);
        assert!(-FX_PI <= r && r <= FX_PI);
        assert!((r - fx(1.0)).abs() <= 3, "reduced {a} to {r}");
    }
    assert_eq!(reduce_angle(0), 0);
}

#[test]
fn sine_and_cosine_match_the_reference_values() {
    assert_eq!(sin_fx(0), 0);
    assert_eq!(cos_fx(0), FX_ONE);
    for &angle in &[-6.0f64, -3.0, -1.0, -0.5, 0.3, 1.0, 1.5707963, 3.0, 6.28] {
        let s = sin_fx(fx(angle));
        let c = cos_fx(fx(angle));
        let es = fx(angle.sin());
        let ec = fx(angle.cos());
        assert!((s - es).abs() <= 150, "sin({angle}) = {s}, expected {es}");
        assert!((c - ec).abs() <= 150, "cos({angle}) = {c}, expected {ec}");
    }
}

#[test]
fn sine_and_cosine_stay_near_the_unit_circle() {
    for &angle in &[-2.0f64, -0.7, 0.0, 0.4, 1.0, 2.5] {
        let s = sin_fx(fx(angle));
        let c = cos_fx(fx(angle));
        let unit = mul_fx(s, s) + mul_fx(c, c);
        assert!((unit - FX_ONE).abs() <= 120, "at {angle}: {unit}");
    }
}
