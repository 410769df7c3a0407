//! The fixed-point scalar operations on concrete values.

use raytracer::fixed::{
    fx_add, fx_div, fx_mul, fx_neg, fx_pow, fx_sqrt, fx_sub, EPS, INF, NEG_INF, SCALE,
};
use raytracer::math::clamp01;

#[test]
fn mul_exact_and_truncating() {
    assert_eq!(fx_mul(1_500_000, 2_000_000), 3_000_000);
    assert_eq!(fx_mul(SCALE, SCALE), SCALE);
    assert_eq!(fx_mul(1, 1), 0);
    assert_eq!(fx_mul(-1_500_000, 1_000_000), -1_500_000);
    assert_eq!(fx_mul(-1, 999_999), 0);
    assert_eq!(fx_mul(0, INF), 0);
}

#[test]
fn div_exact_and_truncating() {
    assert_eq!(fx_div(1_000_000, 2_000_000), 500_000);
    assert_eq!(fx_div(-3_000_000, 2_000_000), -1_500_000);
    assert_eq!(fx_div(1_000_000, 3_000_000), 333_333);
    assert_eq!(fx_div(-1_000_000, 3_000_000), -333_333);
}

#[test]
fn div_by_zero_saturates_with_sign() {
    assert_eq!(fx_div(5, 0), INF);
    assert_eq!(fx_div(-5, 0), NEG_INF);
    assert_eq!(fx_div(0, 0), 0);
}

#[test]
fn add_sub_neg_saturate() {
    assert_eq!(fx_add(2_000_000, 3_000_000), 5_000_000);
    assert_eq!(fx_sub(2_000_000, 3_000_000), -1_000_000);
    assert_eq!(fx_add(INF, INF), INF);
    assert_eq!(fx_sub(NEG_INF, INF), NEG_INF);
    assert_eq!(fx_neg(INF), NEG_INF);
    assert_eq!(fx_neg(-2_500_000), 2_500_000);
}

#[test]
fn sqrt_values() {
    assert_eq!(fx_sqrt(0), 0);
    assert_eq!(fx_sqrt(-5), 0);
    assert_eq!(fx_sqrt(SCALE), SCALE);
    assert_eq!(fx_sqrt(4_000_000), 2_000_000);
    assert_eq!(fx_sqrt(25_000_000), 5_000_000);
    // floor(sqrt(2) * 10^6)
    assert_eq!(fx_sqrt(2_000_000), 1_414_213);
}

#[test]
fn pow_values() {
    assert_eq!(fx_pow(123_456, 0), SCALE);
    assert_eq!(fx_pow(500_000, 2), 250_000);
    assert_eq!(fx_pow(2_000_000, 3), 8_000_000);
    assert_eq!(fx_pow(SCALE, 64), SCALE);
}

#[test]
fn clamp01_values() {
    assert_eq!(clamp01(-5), 0);
    assert_eq!(clamp01(2_000_000), SCALE);
    assert_eq!(clamp01(123), 123);
    assert_eq!(clamp01(SCALE), SCALE);
}

#[test]
fn eps_is_small_but_positive() {
    assert!(0 < EPS && EPS < SCALE);
}
