use muilib::scalar::{HALF_RAW, INFINITY_RAW, LOWEST_RAW, ONE_RAW};
use muilib::Scalar;

fn s(value: i32) -> Scalar {
    Scalar::from_int(value)
}

#[test]
fn from_int_scales_by_one() {
    assert_eq!(Scalar::from_int(3).raw(), 3 * 65536);
    assert_eq!(Scalar::from_int(-2).raw(), -2 * 65536);
    assert_eq!(Scalar::from_int(0), Scalar::zero());
    assert_eq!(Scalar::from_int(1), Scalar::one());
}

#[test]
fn named_values_have_their_raw_values() {
    assert_eq!(Scalar::zero().raw(), 0);
    assert_eq!(Scalar::half().raw(), HALF_RAW);
    assert_eq!(Scalar::one().raw(), ONE_RAW);
    assert_eq!(Scalar::infinity().raw(), INFINITY_RAW);
    assert_eq!(Scalar::from_raw(17).raw(), 17);
    assert_eq!(INFINITY_RAW, i64::MAX);
    assert_eq!(LOWEST_RAW, i64::MIN);
}

#[test]
fn sums_and_differences_are_exact() {
    assert_eq!(s(3).add(s(4)), s(7));
    assert_eq!(s(3).sub(s(4)), s(-1));
    assert_eq!(Scalar::from_raw(5).add(Scalar::from_raw(-7)), Scalar::from_raw(-2));
}

#[test]
fn sums_saturate() {
    let big = Scalar::from_raw(i64::MAX - 1);
    assert_eq!(big.add(s(1)), Scalar::infinity());
    let low = Scalar::from_raw(i64::MIN + 1);
    assert_eq!(low.sub(s(1)).raw(), LOWEST_RAW);
    assert_eq!(low.add(s(-1)).raw(), LOWEST_RAW);
}

#[test]
fn infinity_absorbs_in_sums() {
    assert_eq!(Scalar::infinity().add(s(-5)), Scalar::infinity());
    assert_eq!(s(-5).add(Scalar::infinity()), Scalar::infinity());
    assert_eq!(Scalar::infinity().sub(s(5)), Scalar::infinity());
    assert_eq!(Scalar::infinity().sub(Scalar::infinity()), Scalar::infinity());
    assert_eq!(s(5).sub(Scalar::infinity()).raw(), 5 * 65536 - i64::MAX);
}

#[test]
fn half_of_ten_is_five() {
    assert_eq!(s(10).mul(Scalar::half()), s(5));
    assert_eq!(Scalar::half().mul(s(10)), s(5));
}

#[test]
fn products_round_down() {
    // 3/65536 times one half is 1.5/65536, which rounds down to 1/65536.
    assert_eq!(Scalar::from_raw(3).mul(Scalar::half()), Scalar::from_raw(1));
    // -3/65536 times one half is -1.5/65536, which rounds down to -2/65536.
    assert_eq!(Scalar::from_raw(-3).mul(Scalar::half()), Scalar::from_raw(-2));
    assert_eq!(s(-3).mul(s(4)), s(-12));
    assert_eq!(s(-3).mul(s(-4)), s(12));
}

#[test]
fn products_with_infinity() {
    assert_eq!(Scalar::infinity().mul(s(2)), Scalar::infinity());
    assert_eq!(Scalar::infinity().mul(Scalar::zero()), Scalar::infinity());
    assert_eq!(Scalar::zero().mul(Scalar::infinity()), Scalar::infinity());
    assert_eq!(Scalar::infinity().mul(s(-1)).raw(), LOWEST_RAW);
    assert_eq!(s(-1).mul(Scalar::infinity()).raw(), LOWEST_RAW);
}

#[test]
fn products_saturate() {
    let big = Scalar::from_raw(1 << 62);
    assert_eq!(big.mul(big), Scalar::infinity());
    assert_eq!(big.mul(Scalar::from_raw(-(1 << 62))).raw(), LOWEST_RAW);
}

#[test]
fn quotients_are_exact_where_they_can_be() {
    assert_eq!(s(10).div(s(4)).raw(), 5 * 65536 / 2);
    assert_eq!(s(10).div(s(2)), s(5));
    assert_eq!(s(1).div(s(2)), Scalar::half());
    assert_eq!(s(-10).div(s(2)), s(-5));
    assert_eq!(s(10).div(s(-2)), s(-5));
    assert_eq!(s(-10).div(s(-2)), s(5));
}

#[test]
fn quotients_round_down() {
    // 1/3 is 21845.33.../65536.
    assert_eq!(s(1).div(s(3)).raw(), 21845);
    // -1/3 rounds down to -21846/65536.
    assert_eq!(s(-1).div(s(3)).raw(), -21846);
    assert_eq!(s(1).div(s(-3)).raw(), -21846);
}

#[test]
fn quotients_with_zero_and_infinity() {
    assert_eq!(s(1).div(Scalar::zero()), Scalar::infinity());
    assert_eq!(Scalar::zero().div(Scalar::zero()), Scalar::infinity());
    assert_eq!(s(-1).div(Scalar::zero()).raw(), LOWEST_RAW);
    assert_eq!(s(7).div(Scalar::infinity()), Scalar::zero());
    assert_eq!(Scalar::infinity().div(s(7)), Scalar::infinity());
    assert_eq!(Scalar::infinity().div(s(-7)).raw(), LOWEST_RAW);
    assert_eq!(Scalar::infinity().div(Scalar::infinity()), Scalar::infinity());
}

#[test]
fn quotients_saturate() {
    let big = Scalar::from_raw(1 << 62);
    assert_eq!(big.div(Scalar::from_raw(1)), Scalar::infinity());
}

#[test]
fn min_and_max_follow_the_order() {
    assert_eq!(s(3).min(s(4)), s(3));
    assert_eq!(s(3).max(s(4)), s(4));
    assert_eq!(s(3).min(Scalar::infinity()), s(3));
    assert_eq!(s(3).max(Scalar::infinity()), Scalar::infinity());
    assert!(s(3).lt(s(4)));
    assert!(!s(4).lt(s(4)));
    assert!(s(4).le(s(4)));
    assert!(!s(5).le(s(4)));
}

#[test]
fn times_adds_up_copies() {
    assert_eq!(s(3).times(4), s(12));
    assert_eq!(s(3).times(0), Scalar::zero());
    assert_eq!(Scalar::infinity().times(0), Scalar::zero());
    assert_eq!(Scalar::infinity().times(2), Scalar::infinity());
    assert_eq!(Scalar::from_raw(1 << 62).times(2), Scalar::infinity());
    assert_eq!(Scalar::from_raw(-1).times(usize::MAX).raw(), LOWEST_RAW);
}

#[test]
fn split_divides_into_equal_parts() {
    assert_eq!(s(12).split(4), s(3));
    assert_eq!(Scalar::from_raw(7).split(2), Scalar::from_raw(3));
    assert_eq!(Scalar::from_raw(-7).split(2), Scalar::from_raw(-4));
    assert_eq!(s(12).split(0), Scalar::zero());
    assert_eq!(Scalar::infinity().split(3), Scalar::infinity());
}

#[test]
fn signs_and_infinity_are_told() {
    assert!(Scalar::infinity().is_infinite());
    assert!(!s(1).is_infinite());
    assert!(s(-1).is_negative());
    assert!(!Scalar::zero().is_negative());
}
