use drizzle::binary64::Binary64;
use drizzle::weather_api::uv_index::{
    UV_EXTREME_FROM_BITS, UV_HIGH_FROM_BITS, UV_MODERATE_FROM_BITS, UV_VERY_HIGH_FROM_BITS,
};
use drizzle::weather_rec::{
    FREEZING_TEMP_BITS, HIGH_WINDS_THRESHOLD_METRIC_BITS, JUMPER_TEMP_THRESHOLD_METRIC_BITS,
    SHORTS_TEMP_THRESHOLD_METRIC_BITS, WINDS_UMBRELLA_THRESHOLD_METRIC_BITS,
};

fn samples() -> Vec<f64> {
    vec![
        0.0,
        -0.0,
        1.0,
        -1.0,
        0.5,
        -0.5,
        2.99,
        3.0,
        3.01,
        15.0,
        14.999,
        20.0,
        20.0001,
        39.0,
        50.0,
        -273.15,
        1.0e300,
        -1.0e300,
        f64::MIN_POSITIVE,
        -f64::MIN_POSITIVE,
        5.0e-324,
        -5.0e-324,
        f64::MAX,
        f64::MIN,
        f64::INFINITY,
        f64::NEG_INFINITY,
        f64::NAN,
        -f64::NAN,
    ]
}

fn b(x: f64) -> Binary64 {
    Binary64::from_bits(x.to_bits())
}

#[test]
fn comparisons_match_f64() {
    for &x in samples().iter() {
        for &y in samples().iter() {
            assert_eq!(b(x).less_than(&b(y)), x < y, "{} < {}", x, y);
            assert_eq!(b(x).at_most(&b(y)), x <= y, "{} <= {}", x, y);
            assert_eq!(b(x).greater_than(&b(y)), x > y, "{} > {}", x, y);
            assert_eq!(b(x).ieee_eq(&b(y)), x == y, "{} == {}", x, y);
        }
        assert_eq!(b(x).nan(), x.is_nan());
    }
}

#[test]
fn zeros_are_equal_and_nan_is_unordered() {
    assert!(b(0.0).ieee_eq(&b(-0.0)));
    assert!(!b(f64::NAN).ieee_eq(&b(f64::NAN)));
    assert!(!b(f64::NAN).less_than(&b(1.0)));
    assert!(!b(1.0).less_than(&b(f64::NAN)));
    assert!(b(-0.0).at_most(&b(0.0)));
}

#[test]
fn threshold_constants_are_the_documented_numbers() {
    assert_eq!(UV_MODERATE_FROM_BITS, 3.0f64.to_bits());
    assert_eq!(UV_HIGH_FROM_BITS, 6.0f64.to_bits());
    assert_eq!(UV_VERY_HIGH_FROM_BITS, 8.0f64.to_bits());
    assert_eq!(UV_EXTREME_FROM_BITS, 11.0f64.to_bits());
    assert_eq!(WINDS_UMBRELLA_THRESHOLD_METRIC_BITS, 39.0f64.to_bits());
    assert_eq!(HIGH_WINDS_THRESHOLD_METRIC_BITS, 50.0f64.to_bits());
    assert_eq!(SHORTS_TEMP_THRESHOLD_METRIC_BITS, 20.0f64.to_bits());
    assert_eq!(JUMPER_TEMP_THRESHOLD_METRIC_BITS, 15.0f64.to_bits());
    assert_eq!(FREEZING_TEMP_BITS, 0.0f64.to_bits());
}
