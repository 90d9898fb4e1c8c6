//! The bit-pattern classification predicates against the primitives' own,
//! and the additive-identity facet.

use fast_floats::bits::Bits32;
use fast_floats::bits::Bits64;

fn samples64() -> Vec<f64> {
    vec![
        0.0,
        -0.0,
        1.5,
        -1.5,
        2.0,
        f64::NAN,
        -f64::NAN,
        f64::INFINITY,
        f64::NEG_INFINITY,
        f64::MIN_POSITIVE,
        f64::MAX,
        f64::MIN,
        5e-324,
        -5e-324,
        f64::from_bits(0x7ff8_0000_0000_0123),
    ]
}

fn samples32() -> Vec<f32> {
    vec![
        0.0,
        -0.0,
        1.5,
        -1.5,
        2.0,
        f32::NAN,
        -f32::NAN,
        f32::INFINITY,
        f32::NEG_INFINITY,
        f32::MIN_POSITIVE,
        f32::MAX,
        f32::MIN,
        1e-45,
        -1e-45,
        f32::from_bits(0x7fc0_0123),
    ]
}

#[test]
fn classification_agrees_with_the_primitive_64() {
    for x in samples64() {
        let b = Bits64(x.to_bits());
        assert_eq!(b.is_nan(), x.is_nan(), "is_nan of {x}");
        assert_eq!(b.is_infinite(), x.is_infinite(), "is_infinite of {x}");
        assert_eq!(b.is_finite(), x.is_finite(), "is_finite of {x}");
        assert_eq!(b.is_normal(), x.is_normal(), "is_normal of {x}");
        assert_eq!(b.is_subnormal(), x.is_subnormal(), "is_subnormal of {x}");
        assert_eq!(b.is_sign_negative(), x.is_sign_negative(), "is_sign_negative of {x}");
        assert_eq!(b.is_sign_positive(), x.is_sign_positive(), "is_sign_positive of {x}");
        assert_eq!(b.is_zero(), x == 0.0, "is_zero of {x}");
    }
}

#[test]
fn classification_agrees_with_the_primitive_32() {
    for x in samples32() {
        let b = Bits32(x.to_bits());
        assert_eq!(b.is_nan(), x.is_nan(), "is_nan of {x}");
        assert_eq!(b.is_infinite(), x.is_infinite(), "is_infinite of {x}");
        assert_eq!(b.is_finite(), x.is_finite(), "is_finite of {x}");
        assert_eq!(b.is_normal(), x.is_normal(), "is_normal of {x}");
        assert_eq!(b.is_subnormal(), x.is_subnormal(), "is_subnormal of {x}");
        assert_eq!(b.is_sign_negative(), x.is_sign_negative(), "is_sign_negative of {x}");
        assert_eq!(b.is_sign_positive(), x.is_sign_positive(), "is_sign_positive of {x}");
        assert_eq!(b.is_zero(), x == 0.0, "is_zero of {x}");
    }
}

#[test]
fn sqrt_of_negative_is_nan() {
    let r = (-4.0f64).sqrt();
    assert!(r.is_nan());
    assert!(Bits64(r.to_bits()).is_nan());
    let r = (-4.0f32).sqrt();
    assert!(r.is_nan());
    assert!(Bits32(r.to_bits()).is_nan());
}

#[test]
fn zero_test_holds_exactly_of_the_two_zeros_64() {
    assert!(Bits64((0.0f64).to_bits()).is_zero());
    assert!(Bits64((-0.0f64).to_bits()).is_zero());
    for x in samples64() {
        if x != 0.0 {
            assert!(!Bits64(x.to_bits()).is_zero(), "is_zero of {x}");
        }
    }
    assert!(!Bits64(f64::NAN.to_bits()).is_zero());
    assert!(!Bits64(f64::INFINITY.to_bits()).is_zero());
}

#[test]
fn zero_test_holds_exactly_of_the_two_zeros_32() {
    assert!(Bits32((0.0f32).to_bits()).is_zero());
    assert!(Bits32((-0.0f32).to_bits()).is_zero());
    for x in samples32() {
        if x != 0.0 {
            assert!(!Bits32(x.to_bits()).is_zero(), "is_zero of {x}");
        }
    }
}

#[test]
fn zero_value_is_the_additive_identity() {
    let z64: f64 = num_traits::Zero::zero();
    assert_eq!(Bits64::zero().0, z64.to_bits());
    let z32: f32 = num_traits::Zero::zero();
    assert_eq!(Bits32::zero().0, z32.to_bits());
    assert_eq!(
        Bits64((-0.0f64).to_bits()).is_zero(),
        num_traits::Zero::is_zero(&-0.0f64)
    );
    assert_eq!(
        Bits32((1.5f32).to_bits()).is_zero(),
        num_traits::Zero::is_zero(&1.5f32)
    );
}
