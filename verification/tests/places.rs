use drizzle::binary64::Binary64;
use drizzle::weather_api::find_city::{city_search_url, GeoResponse};

fn place(name: &str, lat: f64, lon: f64) -> GeoResponse {
    GeoResponse {
        name: name.to_string(),
        country: "United Kingdom".to_string(),
        admin1: "England".to_string(),
        latitude: Binary64::from_bits(lat.to_bits()),
        longitude: Binary64::from_bits(lon.to_bits()),
    }
}

#[test]
fn search_url_puts_the_name_in_as_it_is() {
    assert_eq!(
        city_search_url("London"),
        "https://geocoding-api.open-meteo.com/v1/search?name=London&count=5"
    );
    assert_eq!(
        city_search_url("New York"),
        "https://geocoding-api.open-meteo.com/v1/search?name=New York&count=5"
    );
}

#[test]
fn places_compare_like_their_fields() {
    let a = place("London", 51.5, -0.12);
    assert!(a == a.clone());
    assert!(a != place("Londres", 51.5, -0.12));
    assert!(a != place("London", 51.5, 0.12));
    let mut other_country = a.clone();
    other_country.country = "Canada".to_string();
    assert!(a != other_country);
    assert!(place("Null Island", 0.0, 0.0) == place("Null Island", -0.0, 0.0));
    let lost = place("Nowhere", f64::NAN, 0.0);
    assert!(lost != lost.clone());
}
