use cmaes::extremes::{extremes, leading_extremes};
use cmaes::Scalar;
use std::collections::VecDeque;

fn scalar(x: f64) -> Scalar {
    Scalar::from_bits(x.to_bits())
}

fn samples() -> Vec<f64> {
    let mut values = vec![
        0.0,
        -0.0,
        1.0,
        -1.0,
        0.5,
        1e-12,
        1e8,
        1e14,
        -1e300,
        1.0 + 1e-13,
        f64::MIN_POSITIVE,
        -f64::MIN_POSITIVE,
        f64::MIN_POSITIVE / 2.0,
        f64::from_bits(1),
        -f64::from_bits(1),
        f64::MAX,
        f64::MIN,
        f64::INFINITY,
        f64::NEG_INFINITY,
        f64::NAN,
        -f64::NAN,
        f64::from_bits(0x7ff0_0000_0000_0001),
        f64::from_bits(0xffff_ffff_ffff_ffff),
        f64::EPSILON,
        2.5,
        -2.5,
    ];
    // A spread of patterns that no one chose by hand.
    let mut bits: u64 = 0x9e37_79b9_7f4a_7c15;
    for _ in 0..200 {
        bits = bits.wrapping_mul(6364136223846793005).wrapping_add(1442695040888963407);
        values.push(f64::from_bits(bits));
    }
    values
}

#[test]
fn comparisons_agree_with_hardware() {
    let values = samples();
    for &a in &values {
        for &b in &values {
            assert_eq!(scalar(a).lt(scalar(b)), a < b, "{a:?} < {b:?}");
            assert_eq!(scalar(a).le(scalar(b)), a <= b, "{a:?} <= {b:?}");
            assert_eq!(scalar(a).gt(scalar(b)), a > b, "{a:?} > {b:?}");
            assert_eq!(scalar(a).ge(scalar(b)), a >= b, "{a:?} >= {b:?}");
            assert_eq!(scalar(a).eq(scalar(b)), a == b, "{a:?} == {b:?}");
        }
    }
}

#[test]
fn classification_agrees_with_hardware() {
    for &a in &samples() {
        assert_eq!(scalar(a).is_nan(), a.is_nan(), "{a:?}");
        assert_eq!(scalar(a).is_finite(), a.is_finite(), "{a:?}");
        assert_eq!(scalar(a).is_infinite(), a.is_infinite(), "{a:?}");
        assert_eq!(scalar(a).is_normal(), a.is_normal(), "{a:?}");
        assert_eq!(scalar(a).is_sign_negative(), a.is_sign_negative(), "{a:?}");
        assert_eq!(scalar(a).abs().to_bits(), a.abs().to_bits(), "{a:?}");
    }
}

#[test]
fn bits_round_trip() {
    assert_eq!(Scalar::from_bits(0x3ff0_0000_0000_0000).to_bits(), 1.0f64.to_bits());
    assert_eq!(Scalar::zero().to_bits(), 0);
    assert_eq!(f64::from_bits(Scalar::zero().to_bits()), 0.0);
}

#[test]
fn nan_compares_with_nothing() {
    let nan = scalar(f64::NAN);
    let one = scalar(1.0);
    assert!(!nan.lt(one) && !nan.gt(one) && !nan.le(one) && !nan.ge(one) && !nan.eq(one));
    assert!(!nan.eq(nan));
    assert!(!nan.le(nan));
}

#[test]
fn zeros_are_equal() {
    assert!(scalar(0.0).eq(scalar(-0.0)));
    assert!(!scalar(-0.0).lt(scalar(0.0)));
    assert!(scalar(-0.0).le(scalar(0.0)));
    assert!(scalar(-0.0).is_sign_negative());
}

#[test]
fn extremes_of_values() {
    let values: Vec<Scalar> = [3.0, -1.5, 7.25, 0.0, -1.5, 7.25].iter().map(|x| scalar(*x)).collect();
    let (low, high) = extremes(&values);
    assert_eq!(f64::from_bits(low.to_bits()), -1.5);
    assert_eq!(f64::from_bits(high.to_bits()), 7.25);
    assert_eq!(f64::from_bits(high.to_bits()) - f64::from_bits(low.to_bits()), 8.75);
}

#[test]
fn extremes_of_one_value() {
    let values = vec![scalar(4.0)];
    let (low, high) = extremes(&values);
    assert_eq!(low.to_bits(), 4.0f64.to_bits());
    assert_eq!(high.to_bits(), 4.0f64.to_bits());
}

#[test]
fn extremes_keep_the_first_of_equal_numbers() {
    let values = vec![scalar(0.0), scalar(-0.0)];
    let (low, high) = extremes(&values);
    assert_eq!(low.to_bits(), 0.0f64.to_bits());
    assert_eq!(high.to_bits(), 0.0f64.to_bits());
}

#[test]
fn extremes_pass_over_a_nan_that_is_not_first() {
    let values = vec![scalar(2.0), scalar(f64::NAN), scalar(1.0)];
    let (low, high) = extremes(&values);
    assert_eq!(f64::from_bits(low.to_bits()), 1.0);
    assert_eq!(f64::from_bits(high.to_bits()), 2.0);
}

#[test]
fn leading_extremes_look_at_the_front_only() {
    let values: VecDeque<Scalar> =
        [1.0, 1.01, 0.99, -50.0, 50.0].iter().map(|x| scalar(*x)).collect();
    let (low, high) = leading_extremes(&values, 3);
    assert_eq!(f64::from_bits(low.to_bits()), 0.99);
    assert_eq!(f64::from_bits(high.to_bits()), 1.01);
    let (low, high) = leading_extremes(&values, 5);
    assert_eq!(f64::from_bits(low.to_bits()), -50.0);
    assert_eq!(f64::from_bits(high.to_bits()), 50.0);
}
