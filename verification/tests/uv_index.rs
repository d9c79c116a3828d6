use drizzle::binary64::Binary64;
use drizzle::weather_api::uv_index::UvIndex;

fn band(x: f64) -> UvIndex {
    UvIndex::from(Binary64::from_bits(x.to_bits()))
}

#[test]
fn bands_at_their_bounds() {
    assert_eq!(band(0.0), UvIndex::Low);
    assert_eq!(band(-1.0), UvIndex::Low);
    assert_eq!(band(2.99), UvIndex::Low);
    assert_eq!(band(3.0), UvIndex::Moderate);
    assert_eq!(band(5.99), UvIndex::Moderate);
    assert_eq!(band(6.0), UvIndex::High);
    assert_eq!(band(7.95), UvIndex::High);
    assert_eq!(band(8.0), UvIndex::VeryHigh);
    assert_eq!(band(10.99), UvIndex::VeryHigh);
    assert_eq!(band(11.0), UvIndex::Extreme);
    assert_eq!(band(15.2), UvIndex::Extreme);
    assert_eq!(band(f64::NAN), UvIndex::Extreme);
}

#[test]
fn bands_never_fall_as_the_index_rises() {
    let mut previous = 0;
    let mut x = -2.0;
    while x < 14.0 {
        let level = band(x) as i32;
        assert!(level >= previous);
        previous = level;
        x += 0.05;
    }
}

#[test]
fn band_texts() {
    assert_eq!(UvIndex::Low.to_string(), "Low");
    assert_eq!(UvIndex::Moderate.to_string(), "Moderate");
    assert_eq!(UvIndex::High.to_string(), "High");
    assert_eq!(UvIndex::VeryHigh.to_string(), "Very High");
    assert_eq!(UvIndex::Extreme.to_string(), "Extreme");
}
