//! Positivity on binary64 bit patterns: strictly greater than zero, with
//! zero not positive and NaN never positive.

use metrics_etl::value_bits::is_positive_bits;

#[test]
fn zero_is_not_positive() {
    assert!(!is_positive_bits(0.0f64.to_bits()));
}

#[test]
fn negative_zero_is_not_positive() {
    assert!(!is_positive_bits((-0.0f64).to_bits()));
}

#[test]
fn small_negative_is_not_positive() {
    assert!(!is_positive_bits((-0.1f64).to_bits()));
}

#[test]
fn small_positive_is_positive() {
    assert!(is_positive_bits(0.1f64.to_bits()));
}

#[test]
fn ten_and_a_half_is_positive() {
    assert!(is_positive_bits(10.5f64.to_bits()));
}

#[test]
fn nan_is_not_positive() {
    assert!(!is_positive_bits(f64::NAN.to_bits()));
}

#[test]
fn negative_nan_is_not_positive() {
    assert!(!is_positive_bits((-f64::NAN).to_bits()));
}

#[test]
fn positive_infinity_is_positive() {
    assert!(is_positive_bits(f64::INFINITY.to_bits()));
}

#[test]
fn negative_infinity_is_not_positive() {
    assert!(!is_positive_bits(f64::NEG_INFINITY.to_bits()));
}

#[test]
fn smallest_subnormal_is_positive() {
    assert!(is_positive_bits(5e-324f64.to_bits()));
}

#[test]
fn positivity_agrees_with_float_comparison_on_samples() {
    let samples: Vec<f64> = vec![
        0.0, -0.0, 0.1, -0.1, 1.0, -1.0, 10.5, -3.2, 500.0, -50.0, f64::NAN, f64::INFINITY,
        f64::NEG_INFINITY, 5e-324, -5e-324, f64::MAX, f64::MIN,
    ];
    for v in samples {
        assert_eq!(is_positive_bits(v.to_bits()), v > 0.0, "value {v}");
    }
}
