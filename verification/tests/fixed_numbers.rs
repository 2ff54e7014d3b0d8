use solar_renderer::fixed::Fixed;
use solar_renderer::fixed::RAW_MAX;
use solar_renderer::fixed::RAW_MIN;
use solar_renderer::fixed::SCALE;

#[test]
fn whole_numbers_are_scaled_by_two_to_the_sixteenth() {
    assert_eq!(SCALE, 65536);
    assert_eq!(Fixed::from_int(3).raw, 196608);
    assert_eq!(Fixed::from_int(-3).raw, -196608);
    assert_eq!(Fixed::from_int(0), Fixed::zero());
    assert_eq!(Fixed::from_int(1), Fixed::one());
    assert_eq!(Fixed::from_raw(42).raw, 42);
}

#[test]
fn whole_numbers_out_of_range_are_clamped() {
    assert_eq!(Fixed::from_int(32767).raw, 32767 * 65536);
    assert_eq!(Fixed::from_int(32768).raw, RAW_MAX);
    assert_eq!(Fixed::from_int(40000).raw, RAW_MAX);
    assert_eq!(Fixed::from_int(-32768).raw, RAW_MIN);
    assert_eq!(Fixed::from_int(-40000).raw, RAW_MIN);
}

#[test]
fn infinity_is_the_largest_number() {
    assert_eq!(Fixed::infinity().raw, RAW_MAX);
    assert_eq!(Fixed::infinity().raw, i32::MAX);
    assert_eq!(Fixed::infinity().plus(Fixed::one()), Fixed::infinity());
}

#[test]
fn sums_and_differences_are_exact_inside_the_range() {
    let a = Fixed::from_raw(98304);
    let b = Fixed::from_raw(-32768);
    assert_eq!(a.plus(b).raw, 65536);
    assert_eq!(a.minus(b).raw, 131072);
    assert_eq!(b.minus(a).raw, -131072);
}

#[test]
fn sums_and_differences_saturate() {
    let big = Fixed::from_int(32767);
    assert_eq!(big.plus(big).raw, RAW_MAX);
    assert_eq!(big.neg().minus(big).minus(big).raw, RAW_MIN);
    assert_eq!(Fixed::from_raw(RAW_MIN).minus(Fixed::one()).raw, RAW_MIN);
    assert_eq!(Fixed::from_raw(RAW_MAX).plus(Fixed::from_raw(1)).raw, RAW_MAX);
}

#[test]
fn products_round_toward_negative_infinity() {
    let one_and_half = Fixed::from_raw(98304);
    let two_and_half = Fixed::from_raw(163840);
    assert_eq!(one_and_half.times(two_and_half).raw, 245760);
    assert_eq!(one_and_half.times(two_and_half.neg()).raw, -245760);
    assert_eq!(Fixed::from_raw(1).times(Fixed::from_raw(1)).raw, 0);
    assert_eq!(Fixed::from_raw(-1).times(Fixed::from_raw(1)).raw, -1);
    assert_eq!(Fixed::from_raw(3).times(Fixed::from_raw(32768)).raw, 1);
    assert_eq!(Fixed::from_raw(-3).times(Fixed::from_raw(32768)).raw, -2);
}

#[test]
fn products_saturate() {
    let big = Fixed::from_int(30000);
    assert_eq!(big.times(big).raw, RAW_MAX);
    assert_eq!(big.times(big.neg()).raw, RAW_MIN);
    assert_eq!(Fixed::from_raw(RAW_MIN).times(Fixed::from_raw(RAW_MIN)).raw, RAW_MAX);
}

#[test]
fn quotients_round_toward_negative_infinity() {
    let one = Fixed::one();
    let three = Fixed::from_int(3);
    assert_eq!(one.over(three).raw, 21845);
    assert_eq!(one.neg().over(three).raw, -21846);
    assert_eq!(one.over(three.neg()).raw, -21846);
    assert_eq!(one.neg().over(three.neg()).raw, 21845);
    assert_eq!(Fixed::from_int(6).over(three).raw, 131072);
    assert_eq!(Fixed::from_int(7).over(Fixed::one()), Fixed::from_int(7));
}

#[test]
fn quotients_saturate() {
    let tiny = Fixed::from_raw(1);
    assert_eq!(Fixed::from_int(100).over(tiny).raw, RAW_MAX);
    assert_eq!(Fixed::from_int(-100).over(tiny).raw, RAW_MIN);
    assert_eq!(Fixed::from_int(100).over(tiny.neg()).raw, RAW_MIN);
}

#[test]
fn division_by_zero_gives_the_extreme_of_the_dividends_sign() {
    let zero = Fixed::zero();
    assert_eq!(Fixed::from_int(2).over(zero).raw, RAW_MAX);
    assert_eq!(Fixed::from_raw(1).over(zero).raw, RAW_MAX);
    assert_eq!(Fixed::from_int(-2).over(zero).raw, RAW_MIN);
    assert_eq!(zero.over(zero).raw, 0);
}

#[test]
fn ratios_of_whole_numbers() {
    assert_eq!(Fixed::from_ratio(1, 2).raw, 32768);
    assert_eq!(Fixed::from_ratio(1, 10).raw, 6553);
    assert_eq!(Fixed::from_ratio(-1, 10).raw, -6554);
    assert_eq!(Fixed::from_ratio(3, 10).raw, 19660);
    assert_eq!(Fixed::from_ratio(4, 10).raw, 26214);
    assert_eq!(Fixed::from_ratio(10, 5), Fixed::from_int(2));
    assert_eq!(Fixed::from_ratio(5, 0).raw, RAW_MAX);
    assert_eq!(Fixed::from_ratio(-5, 0).raw, RAW_MIN);
    assert_eq!(Fixed::from_ratio(0, 0).raw, 0);
}

#[test]
fn negation_and_absolute_value_saturate_at_the_smallest_number() {
    assert_eq!(Fixed::from_int(5).neg(), Fixed::from_int(-5));
    assert_eq!(Fixed::from_int(-5).abs(), Fixed::from_int(5));
    assert_eq!(Fixed::from_int(5).abs(), Fixed::from_int(5));
    assert_eq!(Fixed::zero().neg(), Fixed::zero());
    assert_eq!(Fixed::from_raw(RAW_MIN).neg().raw, RAW_MAX);
    assert_eq!(Fixed::from_raw(RAW_MIN).abs().raw, RAW_MAX);
}

#[test]
fn smaller_larger_and_clamped() {
    let a = Fixed::from_int(2);
    let b = Fixed::from_int(-7);
    assert_eq!(a.min(b), b);
    assert_eq!(b.min(a), b);
    assert_eq!(a.max(b), a);
    assert_eq!(b.max(a), a);
    assert_eq!(a.min(a), a);
    assert_eq!(Fixed::from_int(5).clamp(Fixed::zero(), Fixed::one()), Fixed::one());
    assert_eq!(Fixed::from_int(-5).clamp(Fixed::zero(), Fixed::one()), Fixed::zero());
    assert_eq!(
        Fixed::from_ratio(1, 2).clamp(Fixed::zero(), Fixed::one()),
        Fixed::from_ratio(1, 2)
    );
}

#[test]
fn floor_and_ceiling() {
    assert_eq!(Fixed::from_raw(98304).floor(), 1);
    assert_eq!(Fixed::from_raw(98304).ceil(), 2);
    assert_eq!(Fixed::from_raw(-98304).floor(), -2);
    assert_eq!(Fixed::from_raw(-98304).ceil(), -1);
    assert_eq!(Fixed::from_int(4).floor(), 4);
    assert_eq!(Fixed::from_int(4).ceil(), 4);
    assert_eq!(Fixed::from_int(-4).floor(), -4);
    assert_eq!(Fixed::from_int(-4).ceil(), -4);
    assert_eq!(Fixed::from_raw(1).floor(), 0);
    assert_eq!(Fixed::from_raw(1).ceil(), 1);
    assert_eq!(Fixed::from_raw(-1).floor(), -1);
    assert_eq!(Fixed::from_raw(-1).ceil(), 0);
    assert_eq!(Fixed::from_raw(RAW_MAX).floor(), 32767);
    assert_eq!(Fixed::from_raw(RAW_MAX).ceil(), 32768);
    assert_eq!(Fixed::from_raw(RAW_MIN).floor(), -32768);
    assert_eq!(Fixed::from_raw(RAW_MIN).ceil(), -32768);
}
