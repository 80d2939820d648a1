use rust_nn::scalar::{gt_zero_bits, le_zero_bits, ONE_BITS, ZERO_BITS};

#[test]
fn test_scalar_constants_are_the_real_patterns() {
    assert_eq!(ZERO_BITS, (0.0f64).to_bits());
    assert_eq!(ONE_BITS, (1.0f64).to_bits());
}

#[test]
fn test_gt_zero_bits_matches_real_comparison() {
    let samples: [f64; 12] = [
        0.0,
        -0.0,
        1.0,
        -1.0,
        1e-300,
        -1e-300,
        f64::MIN_POSITIVE,
        f64::MIN_POSITIVE / 4.0,
        f64::MAX,
        f64::INFINITY,
        f64::NEG_INFINITY,
        f64::NAN,
    ];
    for &x in samples.iter() {
        assert_eq!(gt_zero_bits(x.to_bits()), x > 0.0, "mismatch at {x}");
    }
    // A NaN with the sign bit set is still neither side of zero.
    let negative_nan = -f64::NAN;
    assert_eq!(gt_zero_bits(negative_nan.to_bits()), negative_nan > 0.0);
}

#[test]
fn test_le_zero_bits_matches_real_comparison() {
    let samples: [f64; 12] = [
        0.0,
        -0.0,
        1.0,
        -1.0,
        1e-300,
        -1e-300,
        f64::MIN_POSITIVE,
        f64::MIN_POSITIVE / 4.0,
        f64::MAX,
        f64::INFINITY,
        f64::NEG_INFINITY,
        f64::NAN,
    ];
    for &x in samples.iter() {
        assert_eq!(le_zero_bits(x.to_bits()), x <= 0.0, "mismatch at {x}");
    }
    let negative_nan = -f64::NAN;
    assert_eq!(le_zero_bits(negative_nan.to_bits()), negative_nan <= 0.0);
}
