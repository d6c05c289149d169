use starsim::fx::{
    fx_add, fx_clamp, fx_cos, fx_div, fx_from_int, fx_mul, fx_sin, fx_sqrt, fx_sub, isqrt_u128,
    sdiv, FX_HALF_PI, FX_ONE, FX_PI,
};

#[test]
fn mul_rescales_by_one_unit() {
    // 2.0 * 3.5 == 7.0
    assert_eq!(fx_mul(2_000_000_000, 3_500_000_000), 7_000_000_000);
    // signs follow the factors, truncation is toward zero
    assert_eq!(fx_mul(-2_000_000_000, 3_500_000_000), -7_000_000_000);
    assert_eq!(fx_mul(1, 1), 0);
    assert_eq!(fx_mul(-1, 1), 0);
}

#[test]
fn mul_saturates_at_the_i64_range() {
    assert_eq!(fx_mul(i64::MAX, i64::MAX), i64::MAX);
    assert_eq!(fx_mul(i64::MAX, i64::MIN), i64::MIN);
}

#[test]
fn div_is_exact_on_divisible_values() {
    // 7.0 / 2.0 == 3.5
    assert_eq!(fx_div(7_000_000_000, 2_000_000_000), 3_500_000_000);
    assert_eq!(fx_div(-7_000_000_000, 2_000_000_000), -3_500_000_000);
    // a zero divisor yields zero rather than a fault
    assert_eq!(fx_div(7_000_000_000, 0), 0);
}

#[test]
fn add_and_sub_saturate() {
    assert_eq!(fx_add(i64::MAX, 1), i64::MAX);
    assert_eq!(fx_sub(i64::MIN, 1), i64::MIN);
    assert_eq!(fx_add(2_000_000_000, -500_000_000), 1_500_000_000);
}

#[test]
fn sdiv_truncates_toward_zero() {
    assert_eq!(sdiv(7, 2), 3);
    assert_eq!(sdiv(-7, 2), -3);
    assert_eq!(sdiv(7, -2), -3);
    assert_eq!(sdiv(-7, -2), 3);
    assert_eq!(sdiv(5, 0), 0);
}

#[test]
fn isqrt_brackets_the_root() {
    assert_eq!(isqrt_u128(0), 0);
    assert_eq!(isqrt_u128(1), 1);
    assert_eq!(isqrt_u128(3), 1);
    assert_eq!(isqrt_u128(4), 2);
    assert_eq!(isqrt_u128(u128::from(u64::MAX) * u128::from(u64::MAX)), u64::MAX);
}

#[test]
fn sqrt_of_four_is_two() {
    assert_eq!(fx_sqrt(4_000_000_000), 2_000_000_000);
    assert_eq!(fx_sqrt(0), 0);
    assert_eq!(fx_sqrt(-9), 0);
    // sqrt(2) to nine places, floored
    let r = fx_sqrt(2_000_000_000);
    assert!(r * r <= 2_000_000_000 * FX_ONE as i64);
    assert!((r + 1) * (r + 1) > 2_000_000_000 * FX_ONE as i64);
}

#[test]
fn sine_hits_the_axes() {
    assert_eq!(fx_sin(0), 0);
    // the degree-seven polynomial is a few ten-thousandths shy at the poles
    assert!((fx_sin(FX_HALF_PI) - FX_ONE).abs() < 200_000);
    assert!((fx_cos(0) - FX_ONE).abs() < 200_000);
    // sin(pi) is within the polynomial's error of zero
    assert!(fx_sin(FX_PI).abs() < 1_000);
    // a full-turn offset lands on the same reduced angle
    let a = 700_000_000;
    let turn = 6_283_185_307;
    assert_eq!(fx_sin(a), fx_sin(a + turn));
}

#[test]
fn sine_is_odd_and_bounded() {
    for k in -20..20i64 {
        let a = k * 311_000_000;
        let s = fx_sin(a);
        assert!(-FX_ONE <= s && s <= FX_ONE);
        // the reduction is symmetric away from the wrap seam
        assert!((fx_sin(-a) + s).abs() <= 2);
    }
}

#[test]
fn from_int_and_clamp() {
    assert_eq!(fx_from_int(3), 3_000_000_000);
    assert_eq!(fx_from_int(-2), -2_000_000_000);
    assert_eq!(fx_from_int(i64::MAX), i64::MAX);
    assert_eq!(fx_clamp(5, 0, 10), 5);
    assert_eq!(fx_clamp(-5, 0, 10), 0);
    assert_eq!(fx_clamp(50, 0, 10), 10);
}
