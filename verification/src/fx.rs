//! Signed 16.16 fixed-point scalars.
//!
//! A scalar is an `i64` holding `value * 65536`. Every operation saturates
//! at the `i64` range instead of wrapping, and division by zero yields the
//! saturated value of the matching sign, so all operations are total. Each
//! executable operation is specified exactly by the spec function of the
//! same name with the `fx_` prefix.

use vstd::prelude::*;

verus! {

/// The fixed-point representation of 1.
pub const FX_ONE: i64 = 65536;

/// The fixed-point representation of -1.
pub const FX_MINUS_ONE: i64 = -65536;

/// The fixed-point representation of pi, rounded to the nearest unit.
pub const FX_PI: i64 = 205887;

/// The fixed-point representation of 2*pi, rounded to the nearest unit.
pub const FX_TWO_PI: i64 = 411775;

/// Saturate an unbounded integer into the `i64` range.
pub open spec fn sat_to_i64(x: int) -> i64 {
    if x > i64::MAX as int {
        i64::MAX
    } else if x < i64::MIN as int {
        i64::MIN
    } else {
        x as i64
    }
}

/// Absolute value of an unbounded integer.
pub open spec fn abs_int(x: int) -> int {
    if x < 0 {
        -x
    } else {
        x
    }
}

/// Division truncating toward zero, for positive divisors.
pub open spec fn tdiv(n: int, d: int) -> int {
    if n >= 0 {
        n / d
    } else {
        -((-n) / d)
    }
}

/// Saturating fixed-point addition.
pub open spec fn fx_add(a: i64, b: i64) -> i64 {
    sat_to_i64(a as int + b as int)
}

/// Saturating fixed-point subtraction.
pub open spec fn fx_sub(a: i64, b: i64) -> i64 {
    sat_to_i64(a as int - b as int)
}

/// Saturating fixed-point negation.
pub open spec fn fx_neg(a: i64) -> i64 {
    sat_to_i64(-(a as int))
}

/// Saturating fixed-point absolute value.
pub open spec fn fx_abs(a: i64) -> i64 {
    sat_to_i64(abs_int(a as int))
}

/// Saturating fixed-point multiplication, truncating toward zero.
pub open spec fn fx_mul(a: i64, b: i64) -> i64 {
    sat_to_i64(tdiv(a as int * b as int, FX_ONE as int))
}

/// Saturating fixed-point division, truncating toward zero. A zero divisor
/// yields the saturated value of the dividend's sign.
pub open spec fn fx_div(a: i64, b: i64) -> i64 {
    if b == 0 {
        if a > 0 {
            i64::MAX
        } else if a < 0 {
            i64::MIN
        } else {
            0
        }
    } else if b > 0 {
        sat_to_i64(tdiv(a as int * FX_ONE as int, b as int))
    } else {
        sat_to_i64(tdiv(-(a as int) * FX_ONE as int, -(b as int)))
    }
}

/// Fixed-point value divided by a positive plain integer, truncating toward
/// zero. The result never leaves the `i64` range.
pub open spec fn fx_divi(a: i64, d: i64) -> i64 {
    tdiv(a as int, d as int) as i64
}

/// The smaller of two fixed-point values.
pub open spec fn fx_min(a: i64, b: i64) -> i64 {
    if a < b {
        a
    } else {
        b
    }
}

/// The larger of two fixed-point values.
pub open spec fn fx_max(a: i64, b: i64) -> i64 {
    if a > b {
        a
    } else {
        b
    }
}

/// Clamp a fixed-point value into `[lo, hi]`.
pub open spec fn fx_clamp(a: i64, lo: i64, hi: i64) -> i64 {
    if a < lo {
        lo
    } else if a > hi {
        hi
    } else {
        a
    }
}

/// A plain integer converted to fixed point, saturating.
pub open spec fn fx_of_int(n: int) -> i64 {
    sat_to_i64(n * FX_ONE as int)
}

/// The `e`-th fixed-point power of `b`, with `fx_pow(b, 0) == FX_ONE`.
pub open spec fn fx_pow(b: i64, e: nat) -> i64
    decreases e,
{
    if e == 0 {
        FX_ONE
    } else {
        fx_mul(b, fx_pow(b, (e - 1) as nat))
    }
}

/// The floor of the square root of a non-negative integer.
pub open spec fn sqrt_floor(n: int) -> int
    decreases n,
{
    if n <= 0 {
        0
    } else {
        let r = sqrt_floor(n - 1);
        if (r + 1) * (r + 1) <= n {
            r + 1
        } else {
            r
        }
    }
}

/// Fixed-point square root: the floor of the square root, with
/// non-positive inputs mapped to zero.
pub open spec fn fx_sqrt(x: i64) -> i64 {
    if x <= 0 {
        0
    } else {
        sqrt_floor(x as int * FX_ONE as int) as i64
    }
}

/// `sqrt_floor` is the floor of the square root.
pub proof fn lemma_sqrt_floor(n: int)
    requires
        n >= 0,
    ensures
        sqrt_floor(n) >= 0,
        sqrt_floor(n) * sqrt_floor(n) <= n,
        n < (sqrt_floor(n) + 1) * (sqrt_floor(n) + 1),
    decreases n,
{
    if n == 0 {
    } else {
        lemma_sqrt_floor(n - 1);
        let r = sqrt_floor(n - 1);
        if (r + 1) * (r + 1) <= n {
            assert((r + 2) * (r + 2) > n) by (nonlinear_arith)
                requires
                    r >= 0,
                    n - 1 < (r + 1) * (r + 1),
                    (r + 1) * (r + 1) <= n;
        }
    }
}

/// Any integer whose square brackets `n` is the floor square root of `n`.
pub proof fn lemma_sqrt_floor_unique(n: int, r: int)
    requires
        n >= 0,
        r >= 0,
        r * r <= n,
        n < (r + 1) * (r + 1),
    ensures
        r == sqrt_floor(n),
{
    lemma_sqrt_floor(n);
    let s = sqrt_floor(n);
    if r < s {
        assert((r + 1) * (r + 1) <= s * s) by (nonlinear_arith)
            requires
                0 <= r,
                r < s;
    }
    if s < r {
        assert((s + 1) * (s + 1) <= r * r) by (nonlinear_arith)
            requires
                0 <= s,
                s < r;
    }
}

/// Product of two fixed-point values divided by a positive one, with a
/// single truncation toward zero. A non-positive divisor yields zero.
pub open spec fn fx_muldiv(a: i64, b: i64, d: i64) -> i64 {
    if d <= 0 {
        0
    } else {
        sat_to_i64(tdiv(a as int * b as int, d as int))
    }
}

/// Multiplying by the fixed-point one is exact.
pub proof fn lemma_mul_one(a: i64)
    ensures
        fx_mul(a, FX_ONE) == a,
{
    if a >= 0 {
        vstd::arithmetic::div_mod::lemma_div_multiples_vanish(a as int, 65536);
        assert(a as int * 65536 == 65536 * (a as int));
    } else {
        vstd::arithmetic::div_mod::lemma_div_multiples_vanish(-(a as int), 65536);
        assert(-(a as int * 65536) == 65536 * (-(a as int)));
    }
}

/// Scaling by a factor and dividing by the same factor in one step is
/// exact.
pub proof fn lemma_muldiv_cancel(a: i64, n: i64)
    requires
        n > 0,
    ensures
        fx_muldiv(a, n, n) == a,
{
    if a >= 0 {
        vstd::arithmetic::div_mod::lemma_div_multiples_vanish(a as int, n as int);
        assert(a as int * n as int == n as int * (a as int)) by (nonlinear_arith);
    } else {
        vstd::arithmetic::div_mod::lemma_div_multiples_vanish(-(a as int), n as int);
        assert(-(a as int * n as int) == n as int * (-(a as int))) by (nonlinear_arith);
    }
}

/// Truncated division lands within one divisor of the dividend: the
/// quotient times the divisor misses the dividend by less than the
/// divisor, and never overshoots it in magnitude.
pub proof fn lemma_tdiv_close(m: int, d: int)
    requires
        d > 0,
    ensures
        abs_int(tdiv(m, d) * d - m) < d,
        abs_int(tdiv(m, d)) * d <= abs_int(m),
{
    if m >= 0 {
        vstd::arithmetic::div_mod::lemma_fundamental_div_mod(m, d);
        vstd::arithmetic::div_mod::lemma_div_pos_is_pos(m, d);
        assert(0 <= m % d < d);
        let q = m / d;
        assert(q * d == d * q) by (nonlinear_arith);
    } else {
        vstd::arithmetic::div_mod::lemma_fundamental_div_mod(-m, d);
        vstd::arithmetic::div_mod::lemma_div_pos_is_pos(-m, d);
        assert(0 <= (-m) % d < d);
        let q = (-m) / d;
        assert((-q) * d == -(q * d)) by (nonlinear_arith);
        assert(q * d == d * q) by (nonlinear_arith);
    }
}

/// The fixed-point square root is never negative.
pub proof fn lemma_sqrt_nonneg(x: i64)
    ensures
        fx_sqrt(x) >= 0,
{
    if x > 0 {
        let n = x as int * FX_ONE as int;
        lemma_sqrt_floor(n);
        let s = sqrt_floor(n);
        assert(s < 0x1_0000_0000_0000) by (nonlinear_arith)
            requires
                s >= 0,
                s * s <= n,
                n < 0x1_0000_0000_0000_0000_0000_0000;
    }
}

/// Absolute value of an `i64`, widened so that `i64::MIN` is representable.
pub(crate) fn abs_u128(a: i64) -> (r: u128)
    ensures
        r as int == abs_int(a as int),
{
    if a < 0 {
        (-(a as i128)) as u128
    } else {
        a as u128
    }
}

/// Saturate a 128-bit intermediate into the `i64` range.
fn sat_from_i128(x: i128) -> (r: i64)
    ensures
        r == sat_to_i64(x as int),
{
    if x > i64::MAX as i128 {
        i64::MAX
    } else if x < i64::MIN as i128 {
        i64::MIN
    } else {
        x as i64
    }
}

/// Rebuild a signed saturated `i64` from a non-negative magnitude and a sign.
fn sat_signed(q: u128, neg: bool) -> (r: i64)
    ensures
        r == sat_to_i64(if neg { -(q as int) } else { q as int }),
{
    if neg {
        if q > 0x8000_0000_0000_0000u128 {
            i64::MIN
        } else {
            (-(q as i128)) as i64
        }
    } else {
        if q > i64::MAX as u128 {
            i64::MAX
        } else {
            q as i64
        }
    }
}

/// Saturating fixed-point addition.
pub fn add_fx(a: i64, b: i64) -> (r: i64)
    ensures
        r == fx_add(a, b),
{
    sat_from_i128(a as i128 + b as i128)
}

/// Saturating fixed-point subtraction.
pub fn sub_fx(a: i64, b: i64) -> (r: i64)
    ensures
        r == fx_sub(a, b),
{
    sat_from_i128(a as i128 - b as i128)
}

/// Saturating fixed-point negation.
pub fn neg_fx(a: i64) -> (r: i64)
    ensures
        r == fx_neg(a),
{
    sat_from_i128(-(a as i128))
}

/// Saturating fixed-point absolute value.
pub fn abs_fx(a: i64) -> (r: i64)
    ensures
        r == fx_abs(a),
{
    if a < 0 {
        sat_from_i128(-(a as i128))
    } else {
        a
    }
}

/// Saturating fixed-point multiplication.
pub fn mul_fx(a: i64, b: i64) -> (r: i64)
    ensures
        r == fx_mul(a, b),
{
    let pa: u128 = abs_u128(a);
    let pb: u128 = abs_u128(b);
    let neg: bool = (a < 0) != (b < 0);
    assert(pa as int * pb as int <= 0x4000_0000_0000_0000_0000_0000_0000_0000)
        by (nonlinear_arith)
        requires
            pa <= 0x8000_0000_0000_0000u128,
            pb <= 0x8000_0000_0000_0000u128;
    let p: u128 = pa * pb;
    proof {
        let ai = a as int;
        let bi = b as int;
        if a >= 0 && b >= 0 {
            assert(ai * bi == pa as int * pb as int) by (nonlinear_arith)
                requires
                    pa as int == ai,
                    pb as int == bi;
        } else if a < 0 && b >= 0 {
            assert(ai * bi == -(pa as int * pb as int)) by (nonlinear_arith)
                requires
                    pa as int == -ai,
                    pb as int == bi;
        } else if a >= 0 && b < 0 {
            assert(ai * bi == -(pa as int * pb as int)) by (nonlinear_arith)
                requires
                    pa as int == ai,
                    pb as int == -bi;
        } else {
            assert(ai * bi == pa as int * pb as int) by (nonlinear_arith)
                requires
                    pa as int == -ai,
                    pb as int == -bi;
        }
    }
    let q: u128 = p / 65536;
    sat_signed(q, neg)
}

/// Saturating fixed-point division. A zero divisor yields the saturated
/// value of the dividend's sign.
pub fn div_fx(a: i64, b: i64) -> (r: i64)
    ensures
        r == fx_div(a, b),
{
    if b == 0 {
        if a > 0 {
            i64::MAX
        } else if a < 0 {
            i64::MIN
        } else {
            0
        }
    } else {
        let pa: u128 = abs_u128(a);
        let pb: u128 = abs_u128(b);
        let neg: bool = (a < 0) != (b < 0);
        let n: u128 = pa * 65536;
        let q: u128 = n / pb;
        sat_signed(q, neg)
    }
}

/// Product of two fixed-point values divided by a positive one, with a
/// single truncation toward zero.
pub fn muldiv_fx(a: i64, b: i64, d: i64) -> (r: i64)
    ensures
        r == fx_muldiv(a, b, d),
{
    if d <= 0 {
        0
    } else {
        let pa: u128 = abs_u128(a);
        let pb: u128 = abs_u128(b);
        let neg: bool = (a < 0) != (b < 0);
        assert(pa as int * pb as int <= 0x4000_0000_0000_0000_0000_0000_0000_0000)
            by (nonlinear_arith)
            requires
                pa <= 0x8000_0000_0000_0000u128,
                pb <= 0x8000_0000_0000_0000u128;
        let p: u128 = pa * pb;
        proof {
            let ai = a as int;
            let bi = b as int;
            if a >= 0 && b >= 0 {
                assert(ai * bi == pa as int * pb as int) by (nonlinear_arith)
                    requires
                        pa as int == ai,
                        pb as int == bi;
            } else if a < 0 && b >= 0 {
                assert(ai * bi == -(pa as int * pb as int)) by (nonlinear_arith)
                    requires
                        pa as int == -ai,
                        pb as int == bi;
            } else if a >= 0 && b < 0 {
                assert(ai * bi == -(pa as int * pb as int)) by (nonlinear_arith)
                    requires
                        pa as int == ai,
                        pb as int == -bi;
            } else {
                assert(ai * bi == pa as int * pb as int) by (nonlinear_arith)
                    requires
                        pa as int == -ai,
                        pb as int == -bi;
            }
        }
        let q: u128 = p / (d as u128);
        sat_signed(q, neg)
    }
}

/// Fixed-point value divided by a positive plain integer.
pub fn divi_fx(a: i64, d: i64) -> (r: i64)
    requires
        d > 0,
    ensures
        r == fx_divi(a, d),
{
    let pa: u128 = abs_u128(a);
    let q: u128 = pa / (d as u128);
    assert(q <= pa) by (nonlinear_arith)
        requires
            d as u128 >= 1,
            q == pa / (d as u128);
    if a < 0 {
        (-(q as i128)) as i64
    } else {
        q as i64
    }
}

/// The smaller of two fixed-point values.
pub fn min_fx(a: i64, b: i64) -> (r: i64)
    ensures
        r == fx_min(a, b),
{
    if a < b {
        a
    } else {
        b
    }
}

/// The larger of two fixed-point values.
pub fn max_fx(a: i64, b: i64) -> (r: i64)
    ensures
        r == fx_max(a, b),
{
    if a > b {
        a
    } else {
        b
    }
}

/// Clamp a fixed-point value into `[lo, hi]`.
pub fn clamp_fx(a: i64, lo: i64, hi: i64) -> (r: i64)
    ensures
        r == fx_clamp(a, lo, hi),
{
    if a < lo {
        lo
    } else if a > hi {
        hi
    } else {
        a
    }
}

/// A `usize` pixel coordinate or extent converted to fixed point.
pub fn fx_from_usize(n: usize) -> (r: i64)
    ensures
        r == fx_of_int(n as int),
{
    let w: u128 = (n as u128) * 65536;
    if w > i64::MAX as u128 {
        i64::MAX
    } else {
        w as i64
    }
}

/// The `e`-th fixed-point power of `b`.
pub fn pow_fx(b: i64, e: u32) -> (r: i64)
    ensures
        r == fx_pow(b, e as nat),
{
    let mut acc: i64 = FX_ONE;
    let mut i: u32 = 0;
    while i < e
        invariant
            i <= e,
            acc == fx_pow(b, i as nat),
        decreases e - i,
    {
        acc = mul_fx(b, acc);
        i = i + 1;
    }
    acc
}

/// Floor of the square root of a 128-bit integer.
fn isqrt_u128(n: u128) -> (r: u128)
    ensures
        r as int * (r as int) <= n as int,
        (n as int) < (r as int + 1) * (r as int + 1),
{
    let mut lo: u128 = 0;
    let mut hi: u128 = 0xFFFF_FFFF_FFFF_FFFFu128;
    assert((n as int) < (hi as int + 1) * (hi as int + 1)) by (nonlinear_arith)
        requires
            n <= u128::MAX,
            hi == 0xFFFF_FFFF_FFFF_FFFFu128;
    while lo < hi
        invariant
            lo <= hi,
            hi <= 0xFFFF_FFFF_FFFF_FFFFu128,
            lo as int * (lo as int) <= n as int,
            (n as int) < (hi as int + 1) * (hi as int + 1),
        decreases hi - lo,
    {
        let mid: u128 = lo + (hi - lo + 1) / 2;
        assert(lo < mid && mid <= hi);
        assert(mid as int * (mid as int) < 0x1_0000_0000_0000_0000_0000_0000_0000_0000)
            by (nonlinear_arith)
            requires
                mid <= 0xFFFF_FFFF_FFFF_FFFFu128;
        if mid * mid <= n {
            lo = mid;
        } else {
            hi = mid - 1;
        }
    }
    lo
}

/// Fixed-point square root.
pub fn sqrt_fx(x: i64) -> (r: i64)
    ensures
        r == fx_sqrt(x),
{
    if x <= 0 {
        0
    } else {
        let n: u128 = (x as u128) * 65536;
        let s: u128 = isqrt_u128(n);
        proof {
            assert(s < 0x1_0000_0000_0000u128) by (nonlinear_arith)
                requires
                    s as int * (s as int) <= n as int,
                    (n as int) < (0x1_0000_0000_0000_0000_0000_0000u128 as int);
            lemma_sqrt_floor_unique(n as int, s as int);
        }
        s as i64
    }
}

} // verus!
