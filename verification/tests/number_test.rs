use duktape_rs::Number;
use duktape_rs::number::{i64_to_decimal, u64_to_decimal};

#[test]
fn classify_integral_positive() {
    assert_eq!(Number::from_bits((10.0f64).to_bits()), Number::Int(10));
    assert_eq!(Number::from_bits((15.0f64).to_bits()), Number::Int(15));
    assert_eq!(Number::from_bits((0.0f64).to_bits()), Number::Int(0));
    assert_eq!(Number::from_bits((1.0f64).to_bits()), Number::Int(1));
    assert_eq!(Number::from_bits((9007199254740992.0f64).to_bits()), Number::Int(9007199254740992));
}

#[test]
fn classify_integral_negative() {
    assert_eq!(Number::from_bits((-0.0f64).to_bits()), Number::Int(0));
    assert_eq!(Number::from_bits((-1.0f64).to_bits()), Number::Int(-1));
    assert_eq!(Number::from_bits((-42.0f64).to_bits()), Number::Int(-42));
}

#[test]
fn classify_integral_saturates() {
    // 1e300 is integral (no fractional bits at that magnitude) but far
    // outside the signed 64-bit range, so it saturates like an `as` cast.
    assert_eq!(Number::from_bits((1.0e300f64).to_bits()), Number::Int(i64::MAX));
    assert_eq!(Number::from_bits((-1.0e300f64).to_bits()), Number::Int(i64::MIN));
    assert_eq!(Number::from_bits((1.0e300f64).to_bits()), Number::Int(1.0e300f64 as i64));
    assert_eq!(Number::from_bits((-1.0e300f64).to_bits()), Number::Int(-1.0e300f64 as i64));
    // Exactly -2^63 is representable.
    assert_eq!(
        Number::from_bits((-9223372036854775808.0f64).to_bits()),
        Number::Int(i64::MIN)
    );
}

#[test]
fn classify_fractional() {
    assert_eq!(Number::from_bits((2.01f64).to_bits()), Number::Float((2.01f64).to_bits()));
    assert_eq!(Number::from_bits((-3.5f64).to_bits()), Number::Float((-3.5f64).to_bits()));
    assert_eq!(Number::from_bits((0.5f64).to_bits()), Number::Float((0.5f64).to_bits()));
    // The smallest subnormal double is tiny and certainly fractional.
    assert_eq!(Number::from_bits(1u64), Number::Float(1u64));
}

#[test]
fn classify_non_finite() {
    assert_eq!(Number::from_bits(f64::NAN.to_bits()), Number::NaN);
    assert_eq!(Number::from_bits(f64::INFINITY.to_bits()), Number::Infinity);
    assert_eq!(Number::from_bits(f64::NEG_INFINITY.to_bits()), Number::Infinity);
}

#[test]
fn classification_matches_host_cast() {
    // The reclassification policy agrees with the host's own fract/finite
    // tests and saturating casts across a spread of doubles.
    let samples: [f64; 12] = [
        0.0, -0.0, 1.0, -1.0, 10.0, 1048576.0, 2.01, -2.01, 1.0e18, -1.0e18, 123456789.5,
        4503599627370496.5,
    ];
    for d in samples {
        let n = Number::from_bits(d.to_bits());
        if d.fract() == 0.0 {
            assert_eq!(n, Number::Int(d as i64));
        } else {
            assert_eq!(n, Number::Float(d.to_bits()));
        }
    }
}

#[test]
fn to_i64_follows_host_cast() {
    assert_eq!(Number::NaN.to_i64(), 0);
    assert_eq!(Number::Infinity.to_i64(), i64::MAX);
    assert_eq!(Number::Int(-7).to_i64(), -7);
    assert_eq!(Number::Float((2.9f64).to_bits()).to_i64(), 2);
    assert_eq!(Number::Float((-2.9f64).to_bits()).to_i64(), -2);
    assert_eq!(Number::Float(f64::NAN.to_bits()).to_i64(), 0);
    assert_eq!(Number::Float(f64::NEG_INFINITY.to_bits()).to_i64(), i64::MIN);
    assert_eq!(Number::Float((1.0e300f64).to_bits()).to_i64(), 1.0e300f64 as i64);
}

#[test]
fn decimal_rendering() {
    assert_eq!(u64_to_decimal(0).as_str(), "0");
    assert_eq!(u64_to_decimal(7).as_str(), "7");
    assert_eq!(u64_to_decimal(10).as_str(), "10");
    assert_eq!(u64_to_decimal(1234567890).as_str(), "1234567890");
    assert_eq!(u64_to_decimal(u64::MAX).as_str(), "18446744073709551615");
    assert_eq!(i64_to_decimal(-42).as_str(), "-42");
    assert_eq!(i64_to_decimal(i64::MIN).as_str(), "-9223372036854775808");
    assert_eq!(i64_to_decimal(i64::MAX).as_str(), "9223372036854775807");
}

#[test]
fn classification_agrees_with_host_semantics_sweep() {
    // Every raw exponent, with a spread of fraction fields and both signs:
    // the bit-level classification must agree with the host's own
    // fract/finite tests and its saturating cast, pattern for pattern.
    let fractions: [u64; 6] =
        [0, 1, 0x789, 0x8_0000_0000_0000, 0xF_FFFF_FFFF_FFFE, 0xF_FFFF_FFFF_FFFF];
    for raw_exp in 0..=2047u64 {
        for frac in fractions {
            for sign in 0..=1u64 {
                let bits = (sign << 63) | (raw_exp << 52) | frac;
                let d = f64::from_bits(bits);
                let n = Number::from_bits(bits);
                if d.is_nan() {
                    assert_eq!(n, Number::NaN);
                } else if d.is_infinite() {
                    assert_eq!(n, Number::Infinity);
                } else if d.fract() == 0.0 {
                    assert_eq!(n, Number::Int(d as i64));
                } else {
                    assert_eq!(n, Number::Float(bits));
                }
                assert_eq!(Number::Float(bits).to_i64(), d as i64);
            }
        }
    }
}

#[test]
fn decimal_rendering_agrees_with_host_formatting() {
    let samples: [u64; 9] =
        [0, 1, 9, 10, 99, 12345, 4294967295, 9007199254740993, u64::MAX];
    for n in samples {
        assert_eq!(u64_to_decimal(n), format!("{}", n));
    }
    let signed: [i64; 7] = [0, 1, -1, 4200, -4200, i64::MIN, i64::MAX];
    for v in signed {
        assert_eq!(i64_to_decimal(v), format!("{}", v));
    }
}

#[test]
fn number_text_rendering() {
    assert_eq!(Number::NaN.to_text().unwrap().as_str(), "NaN");
    assert_eq!(Number::Infinity.to_text().unwrap().as_str(), "Infinity");
    assert_eq!(Number::Int(10).to_text().unwrap().as_str(), "10");
    assert_eq!(Number::Int(-5).to_text().unwrap().as_str(), "-5");
    assert!(Number::Float((2.5f64).to_bits()).to_text().is_none());
}
