use drizzle::app::{remember_city, App, AppCommand, AppMsg, AppPage};
use drizzle::binary64::Binary64;
use drizzle::model::hourly_entry::HourlyEntry;
use drizzle::model::weather_code::WeatherCode;
use drizzle::weather_api::find_city::GeoResponse;
use drizzle::weather_api::uv_index::UvIndex;
use drizzle::weather_api::weather::CurrentWeather;
use drizzle::weather_rec::WeatherRecommendation;

fn b(x: f64) -> Binary64 {
    Binary64::from_bits(x.to_bits())
}

fn place(name: &str) -> GeoResponse {
    GeoResponse {
        name: name.to_string(),
        country: "Country".to_string(),
        admin1: "Region".to_string(),
        latitude: b(10.0),
        longitude: b(20.0),
    }
}

fn names(list: &[GeoResponse]) -> Vec<String> {
    list.iter().map(|c| c.name.clone()).collect()
}

fn current() -> CurrentWeather {
    CurrentWeather {
        temperature_2m: b(21.0),
        apparent_temperature: b(22.0),
        is_day: true,
        is_metric: true,
        weathercode: WeatherCode::ClearSky,
    }
}

fn rainy_hours(n: usize) -> Vec<HourlyEntry> {
    (0..n)
        .map(|i| HourlyEntry {
            time: 3600 * i as i64,
            temperature_2m: b(17.0),
            apparent_temperature: b(17.0),
            weathercode: WeatherCode::LightRain,
            precipitation: b(1.0),
            precipitation_probability: b(90.0),
            windspeed_10m: b(10.0),
            uv_index: UvIndex::Low,
            is_day: true,
            is_metric: true,
        })
        .collect()
}

#[test]
fn a_chosen_city_goes_first_and_only_once() {
    let mut recent = vec![place("A"), place("B"), place("C")];
    remember_city(&mut recent, place("B"));
    assert_eq!(names(&recent), vec!["B", "A", "C"]);
    remember_city(&mut recent, place("D"));
    assert_eq!(names(&recent), vec!["D", "B", "A", "C"]);
}

#[test]
fn at_most_five_cities_are_remembered() {
    let mut recent = vec![place("A"), place("B"), place("C"), place("D"), place("E")];
    remember_city(&mut recent, place("F"));
    assert_eq!(names(&recent), vec!["F", "A", "B", "C", "D"]);
    remember_city(&mut recent, place("C"));
    assert_eq!(names(&recent), vec!["C", "F", "A", "B", "D"]);
    let mut long = vec![place("A"), place("B"), place("C"), place("D"), place("E"), place("G")];
    remember_city(&mut long, place("H"));
    assert_eq!(names(&long), vec!["H", "A", "B", "C", "D", "E"]);
}

#[test]
fn a_city_with_a_nan_coordinate_is_never_found_again() {
    let mut lost = place("Lost");
    lost.latitude = b(f64::NAN);
    let mut recent = vec![lost.clone()];
    remember_city(&mut recent, lost.clone());
    assert_eq!(names(&recent), vec!["Lost", "Lost"]);
}

#[test]
fn refreshing_without_a_city_does_nothing() {
    let mut app = App::new();
    assert_eq!(app.page(), AppPage::NoCity);
    let command = app.update(AppMsg::RefreshWeatherData, "FourHour");
    assert!(matches!(command, AppCommand::Nothing));
    assert!(!app.is_loading);
    assert_eq!(app.page(), AppPage::NoCity);
}

#[test]
fn loading_the_weather_of_a_city() {
    let mut app = App::new();
    app.load_recent_cities(vec![place("Oslo"), place("Bergen")]);
    assert_eq!(app.current_city.as_ref().map(|c| c.name.clone()), Some("Oslo".to_string()));
    assert_eq!(app.page(), AppPage::Weather);
    match app.update(AppMsg::RefreshWeatherData, "FourHour") {
        AppCommand::FetchWeather(city) => assert_eq!(city.name, "Oslo"),
        _ => panic!("expected a fetch"),
    }
    assert!(app.is_loading);
    assert_eq!(app.page(), AppPage::Loading);
    let command = app.update(AppMsg::SetWeatherData(rainy_hours(6), vec![], current()), "FourHour");
    assert!(matches!(command, AppCommand::ShowEntriesAndRefreshRecommendations));
    assert_eq!(app.page(), AppPage::Weather);
    assert_eq!(app.hourly_entries.len(), 6);
    assert!(app.current_weather.is_some());
    assert!(app.can_take(&AppMsg::RefreshWeatherRecommendations, "EightHour"));
    let command = app.update(AppMsg::RefreshWeatherRecommendations, "EightHour");
    assert!(matches!(command, AppCommand::ShowRecommendations));
    assert_eq!(app.weather_recommendations.len(), 0);
    let command = app.update(AppMsg::RefreshWeatherRecommendations, "FourHour");
    assert!(matches!(command, AppCommand::ShowRecommendations));
    assert_eq!(app.weather_recommendations.len(), 1);
    assert_eq!(
        app.weather_recommendations[0].recommendation,
        WeatherRecommendation::ExpectRainLightWinds
    );
    assert_eq!(app.weather_recommendations[0].end_time, 4 * 3600);
}

#[test]
fn errors_show_the_error_page() {
    let mut app = App::new();
    app.load_recent_cities(vec![place("Oslo")]);
    app.update(AppMsg::RefreshWeatherData, "FourHour");
    let command = app.update(AppMsg::ShowErrorPage, "FourHour");
    assert!(matches!(command, AppCommand::Nothing));
    assert_eq!(app.page(), AppPage::Error);
    app.update(AppMsg::RefreshWeatherData, "FourHour");
    assert!(!app.show_no_wifi_error_message);
}

#[test]
fn choosing_a_city() {
    let mut app = App::new();
    app.load_recent_cities(vec![place("Oslo"), place("Bergen")]);
    match app.update(AppMsg::ShowCityPicker, "FourHour") {
        AppCommand::PresentCityPicker(cities) => assert_eq!(names(&cities), vec!["Oslo", "Bergen"]),
        _ => panic!("expected the city picker"),
    }
    let command = app.update(AppMsg::SelectCity(place("Bergen")), "FourHour");
    assert!(matches!(command, AppCommand::ResetScrollAndRefresh));
    assert_eq!(app.current_city.as_ref().map(|c| c.name.clone()), Some("Bergen".to_string()));
    assert_eq!(names(&app.recent_cities), vec!["Bergen", "Oslo"]);
    assert!(matches!(app.update(AppMsg::Quit, "FourHour"), AppCommand::Quit));
}

#[test]
fn hours_too_late_to_end_are_refused() {
    let mut app = App::new();
    let mut hours = rainy_hours(4);
    hours[2].time = i64::MAX;
    app.update(AppMsg::SetWeatherData(hours, vec![], current()), "FourHour");
    assert!(!app.can_take(&AppMsg::RefreshWeatherRecommendations, "FourHour"));
    assert!(app.can_take(&AppMsg::RefreshWeatherRecommendations, "EightHour"));
    assert!(app.can_take(&AppMsg::Quit, "FourHour"));
}
