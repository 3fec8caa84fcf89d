use orengine::scalar::{
    Scalar, EPSILON_BITS, INFINITY_BITS, NEG_EPSILON_BITS, NEG_INFINITY_BITS, ONE_BITS, ZERO_BITS,
};

fn s(x: f32) -> Scalar {
    Scalar::from_bits(x.to_bits())
}

fn f(x: Scalar) -> f32 {
    f32::from_bits(x.to_bits())
}

fn samples() -> Vec<f32> {
    vec![
        0.0,
        -0.0,
        1.0,
        -1.0,
        0.5,
        -0.5,
        1.54,
        -1.54,
        5.0,
        5.000001,
        4.999999,
        f32::EPSILON,
        -f32::EPSILON,
        f32::MIN_POSITIVE,
        -f32::MIN_POSITIVE,
        1.0e-45,
        -1.0e-45,
        f32::MAX,
        f32::MIN,
        f32::INFINITY,
        f32::NEG_INFINITY,
        f32::NAN,
        -f32::NAN,
        f32::from_bits(0x7fc0_0001),
        f32::from_bits(0xff80_0001),
        123456.78,
        -123456.78,
        3.0e38,
        -3.0e38,
    ]
}

#[test]
fn constants_have_the_encodings_of_the_numbers() {
    assert_eq!(ZERO_BITS, 0.0f32.to_bits());
    assert_eq!(ONE_BITS, 1.0f32.to_bits());
    assert_eq!(INFINITY_BITS, f32::INFINITY.to_bits());
    assert_eq!(NEG_INFINITY_BITS, f32::NEG_INFINITY.to_bits());
    assert_eq!(EPSILON_BITS, f32::EPSILON.to_bits());
    assert_eq!(NEG_EPSILON_BITS, (-f32::EPSILON).to_bits());
    assert_eq!(Scalar::zero().to_bits(), 0.0f32.to_bits());
    assert_eq!(Scalar::one().to_bits(), 1.0f32.to_bits());
    assert_eq!(Scalar::infinity().to_bits(), f32::INFINITY.to_bits());
    assert_eq!(Scalar::neg_infinity().to_bits(), f32::NEG_INFINITY.to_bits());
    assert_eq!(Scalar::epsilon().to_bits(), f32::EPSILON.to_bits());
    assert_eq!(Scalar::neg_epsilon().to_bits(), (-f32::EPSILON).to_bits());
}

#[test]
fn from_bits_and_to_bits_round_trip() {
    for x in samples() {
        assert_eq!(s(x).to_bits(), x.to_bits());
        assert_eq!(Scalar::from_bits(x.to_bits()).bits, x.to_bits());
    }
}

#[test]
fn is_nan_agrees_with_the_machine() {
    for x in samples() {
        assert_eq!(s(x).is_nan(), x.is_nan(), "{x}");
    }
}

#[test]
fn comparisons_agree_with_the_machine() {
    for a in samples() {
        for b in samples() {
            assert_eq!(s(a).lt(s(b)), a < b, "{a} < {b}");
            assert_eq!(s(a).le(s(b)), a <= b, "{a} <= {b}");
            assert_eq!(s(a).gt(s(b)), a > b, "{a} > {b}");
            assert_eq!(s(a).ge(s(b)), a >= b, "{a} >= {b}");
        }
    }
}

#[test]
fn the_two_zeros_compare_equal() {
    assert!(!s(0.0).lt(s(-0.0)));
    assert!(!s(-0.0).lt(s(0.0)));
    assert!(s(0.0).le(s(-0.0)));
    assert!(s(-0.0).le(s(0.0)));
}

#[test]
fn nan_compares_false_with_everything() {
    for x in samples() {
        assert!(!s(f32::NAN).lt(s(x)));
        assert!(!s(f32::NAN).le(s(x)));
        assert!(!s(x).lt(s(f32::NAN)));
        assert!(!s(x).ge(s(f32::NAN)));
    }
}

#[test]
fn min_and_max_agree_with_the_machine() {
    for a in samples() {
        for b in samples() {
            let lo = f(s(a).min(s(b)));
            let hi = f(s(a).max(s(b)));
            let want_lo = a.min(b);
            let want_hi = a.max(b);
            if want_lo.is_nan() {
                assert!(lo.is_nan(), "min({a}, {b})");
            } else {
                assert_eq!(lo, want_lo, "min({a}, {b})");
            }
            if want_hi.is_nan() {
                assert!(hi.is_nan(), "max({a}, {b})");
            } else {
                assert_eq!(hi, want_hi, "max({a}, {b})");
            }
        }
    }
}

#[test]
fn min_ignores_a_single_nan() {
    assert_eq!(f(s(f32::NAN).min(s(3.0))), 3.0);
    assert_eq!(f(s(3.0).min(s(f32::NAN))), 3.0);
    assert_eq!(f(s(f32::NAN).max(s(3.0))), 3.0);
    assert_eq!(f(s(3.0).max(s(f32::NAN))), 3.0);
}

#[test]
fn clamp_agrees_with_the_machine() {
    let lo = -1.54f32;
    let hi = 1.54f32;
    for x in samples() {
        let got = f(s(x).clamp(s(lo), s(hi)));
        let want = x.clamp(lo, hi);
        if want.is_nan() {
            assert!(got.is_nan(), "clamp({x})");
        } else {
            assert_eq!(got, want, "clamp({x})");
        }
    }
}

#[test]
fn clamp_exact_values() {
    assert_eq!(s(2.0).clamp(s(-1.0), s(1.0)).to_bits(), 1.0f32.to_bits());
    assert_eq!(s(-2.0).clamp(s(-1.0), s(1.0)).to_bits(), (-1.0f32).to_bits());
    assert_eq!(s(0.25).clamp(s(-1.0), s(1.0)).to_bits(), 0.25f32.to_bits());
    assert_eq!(s(1.0).clamp(s(1.0), s(1.0)).to_bits(), 1.0f32.to_bits());
}
