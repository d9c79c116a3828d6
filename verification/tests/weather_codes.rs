use drizzle::model::weather_code::WeatherCode;
use drizzle::weather_api::weather_code::WeatherCode as ReportedCode;

const TABLE: [(i64, WeatherCode); 28] = [
    (0, WeatherCode::ClearSky),
    (1, WeatherCode::MainlyClear),
    (2, WeatherCode::PartlyCloudy),
    (3, WeatherCode::Overcast),
    (45, WeatherCode::Fog),
    (48, WeatherCode::DepositingRimeFog),
    (51, WeatherCode::LightDrizzle),
    (53, WeatherCode::ModerateDrizzle),
    (55, WeatherCode::DenseDrizzle),
    (56, WeatherCode::LightFreezingDrizzle),
    (57, WeatherCode::DenseFreezingDrizzle),
    (61, WeatherCode::LightRain),
    (63, WeatherCode::ModerateRain),
    (65, WeatherCode::HeavyRain),
    (66, WeatherCode::LightFreezingRain),
    (67, WeatherCode::HeavyFreezingRain),
    (71, WeatherCode::LightSnowFall),
    (73, WeatherCode::ModerateSnowFall),
    (75, WeatherCode::HeavySnowFall),
    (77, WeatherCode::SnowGrains),
    (80, WeatherCode::LightRainShowers),
    (81, WeatherCode::ModerateRainShowers),
    (82, WeatherCode::ViolentRainShowers),
    (85, WeatherCode::LightSnowShowers),
    (86, WeatherCode::HeavySnowShowers),
    (95, WeatherCode::Thunderstorm),
    (96, WeatherCode::ThunderstormLightHail),
    (99, WeatherCode::ThunderstormHeavyHail),
];

#[test]
fn wmo_numbers_are_read() {
    for (n, code) in TABLE.iter() {
        assert_eq!(WeatherCode::from(*n), *code);
    }
    for n in [-1i64, 4, 44, 46, 50, 52, 60, 100, i64::MAX, i64::MIN] {
        assert_eq!(WeatherCode::from(n), WeatherCode::NoMatch);
    }
}

#[test]
fn icon_names() {
    assert_eq!(WeatherCode::ClearSky.get_icon_name(true), "clear-day");
    assert_eq!(WeatherCode::MainlyClear.get_icon_name(false), "clear-night");
    assert_eq!(WeatherCode::PartlyCloudy.get_icon_name(true), "partly-cloudy-day");
    assert_eq!(WeatherCode::PartlyCloudy.get_icon_name(false), "partly-cloudy-night");
    assert_eq!(WeatherCode::Overcast.get_icon_name(false), "cloudy");
    assert_eq!(WeatherCode::DepositingRimeFog.get_icon_name(true), "foggy");
    assert_eq!(WeatherCode::DenseFreezingDrizzle.get_icon_name(true), "rainy");
    assert_eq!(WeatherCode::ViolentRainShowers.get_icon_name(false), "rainy");
    assert_eq!(WeatherCode::SnowGrains.get_icon_name(true), "snowing");
    assert_eq!(WeatherCode::ThunderstormHeavyHail.get_icon_name(true), "thunderstorm");
    assert_eq!(WeatherCode::NoMatch.get_icon_name(true), "");
}

#[test]
fn status_images() {
    let base = "/com/github/leo030303/drizzle/weather_status_icons/";
    assert_eq!(
        WeatherCode::ClearSky.get_status_image_resource(true),
        format!("{base}drizzle-clear.svg")
    );
    assert_eq!(
        WeatherCode::ClearSky.get_status_image_resource(false),
        format!("{base}drizzle-clear-night.svg")
    );
    assert_eq!(
        WeatherCode::PartlyCloudy.get_status_image_resource(false),
        format!("{base}drizzle-few-clouds-night.svg")
    );
    assert_eq!(
        WeatherCode::Overcast.get_status_image_resource(true),
        format!("{base}drizzle-overcast.svg")
    );
    assert_eq!(WeatherCode::Fog.get_status_image_resource(false), format!("{base}drizzle-fog.svg"));
    assert_eq!(
        WeatherCode::LightFreezingRain.get_status_image_resource(true),
        format!("{base}drizzle-showers.svg")
    );
    assert_eq!(
        WeatherCode::DenseDrizzle.get_status_image_resource(true),
        format!("{base}drizzle-showers-scattered.svg")
    );
    assert_eq!(
        WeatherCode::HeavySnowShowers.get_status_image_resource(true),
        format!("{base}drizzle-snow.svg")
    );
    assert_eq!(
        WeatherCode::Thunderstorm.get_status_image_resource(false),
        format!("{base}drizzle-storm.svg")
    );
    assert_eq!(WeatherCode::NoMatch.get_status_image_resource(true), "");
}

#[test]
fn background_classes() {
    assert_eq!(WeatherCode::MainlyClear.get_background_css_class(true), "bg-weather-clear-sky");
    assert_eq!(WeatherCode::Overcast.get_background_css_class(false), "bg-weather-overcast-night");
    assert_eq!(
        WeatherCode::ModerateDrizzle.get_background_css_class(true),
        "bg-weather-showers-scattered"
    );
    assert_eq!(
        WeatherCode::HeavyRain.get_background_css_class(false),
        "bg-weather-showers-large-night"
    );
    assert_eq!(WeatherCode::NoMatch.get_background_css_class(false), "");
    for (_, code) in TABLE.iter() {
        let day = code.get_background_css_class(true);
        let night = code.get_background_css_class(false);
        assert_eq!(night, format!("{day}-night"));
    }
}

#[test]
fn weather_kinds() {
    assert!(WeatherCode::LightDrizzle.is_rain());
    assert!(WeatherCode::Thunderstorm.is_rain());
    assert!(!WeatherCode::ThunderstormLightHail.is_rain());
    assert!(!WeatherCode::SnowGrains.is_rain());
    assert!(WeatherCode::SnowGrains.is_snow());
    assert!(!WeatherCode::LightRain.is_snow());
    assert!(WeatherCode::Fog.is_fog());
    assert!(WeatherCode::DepositingRimeFog.is_fog());
    assert!(!WeatherCode::Overcast.is_fog());
    assert!(WeatherCode::ThunderstormHeavyHail.is_storm());
    assert!(!WeatherCode::HeavyRain.is_storm());
    let rain_count = TABLE.iter().filter(|(_, c)| c.is_rain()).count();
    assert_eq!(rain_count, 14);
    assert!(!WeatherCode::NoMatch.is_rain() && !WeatherCode::NoMatch.is_snow());
}

#[test]
fn reported_codes_agree_with_model() {
    for (n, code) in TABLE.iter() {
        let reported = ReportedCode::from(*n);
        assert_eq!(reported.get_icon_name(true), code.get_icon_name(true));
        assert_eq!(reported.get_icon_name(false), code.get_icon_name(false));
        assert_eq!(reported.get_background_css_class(), code.get_background_css_class(true));
    }
    assert_eq!(ReportedCode::from(1000).get_background_css_class(), "");
    assert_eq!(ReportedCode::PartlyCloudy.get_background_css_class(), "bg-weather-few-clouds");
    assert_eq!(ReportedCode::HeavySnowFall.get_icon_name(false), "snowing");
}
