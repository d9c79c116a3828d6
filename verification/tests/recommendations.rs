use drizzle::binary64::Binary64;
use drizzle::model::hourly_entry::HourlyEntry;
use drizzle::model::weather_code::WeatherCode;
use drizzle::weather_api::uv_index::UvIndex;
use drizzle::weather_rec::{
    considered_hours_end_in_range, get_recommendations, recommendations_for_hour,
    RecommendationTimespan, TimedRecommendation, WeatherRecommendation,
};

fn b(x: f64) -> Binary64 {
    Binary64::from_bits(x.to_bits())
}

fn hour(time: i64) -> HourlyEntry {
    HourlyEntry {
        time,
        temperature_2m: b(17.0),
        apparent_temperature: b(17.0),
        weathercode: WeatherCode::Overcast,
        precipitation: b(0.0),
        precipitation_probability: b(0.0),
        windspeed_10m: b(10.0),
        uv_index: UvIndex::Low,
        is_day: true,
        is_metric: true,
    }
}

fn calm_hours(n: usize) -> Vec<HourlyEntry> {
    (0..n).map(|i| hour(1_700_000_000 + 3600 * i as i64)).collect()
}

fn spans(list: &[TimedRecommendation]) -> Vec<(WeatherRecommendation, i64, i64)> {
    list.iter().map(|t| (t.recommendation.clone(), t.start_time, t.end_time)).collect()
}

#[test]
fn short_forecasts_get_no_advice() {
    let mut hours = calm_hours(3);
    for h in hours.iter_mut() {
        h.weathercode = WeatherCode::HeavyRain;
    }
    assert!(get_recommendations(&hours, &RecommendationTimespan::FourHour).is_empty());
    let hours = calm_hours(23);
    assert!(get_recommendations(&hours, &RecommendationTimespan::TwentyFourHour).is_empty());
}

#[test]
fn calm_mild_hours_get_no_advice() {
    let hours = calm_hours(30);
    assert!(get_recommendations(&hours, &RecommendationTimespan::TwentyFourHour).is_empty());
}

#[test]
fn advice_for_one_hour_in_order() {
    let mut h = hour(0);
    h.uv_index = UvIndex::VeryHigh;
    h.windspeed_10m = b(55.0);
    h.weathercode = WeatherCode::Thunderstorm;
    h.apparent_temperature = b(-3.0);
    h.temperature_2m = b(0.0);
    assert_eq!(
        recommendations_for_hour(&h),
        vec![
            WeatherRecommendation::HighUvRisk,
            WeatherRecommendation::StrongWinds,
            WeatherRecommendation::ExpectRainStrongWinds,
            WeatherRecommendation::ExpectStorm,
            WeatherRecommendation::WearJumper,
            WeatherRecommendation::Freezing,
        ]
    );
    let mut h = hour(0);
    h.uv_index = UvIndex::High;
    h.windspeed_10m = b(39.0);
    h.weathercode = WeatherCode::LightDrizzle;
    h.apparent_temperature = b(20.5);
    assert_eq!(
        recommendations_for_hour(&h),
        vec![
            WeatherRecommendation::LowUvRisk,
            WeatherRecommendation::ExpectRainLightWinds,
            WeatherRecommendation::WearShorts,
        ]
    );
    let mut h = hour(0);
    h.weathercode = WeatherCode::HeavySnowShowers;
    h.apparent_temperature = b(15.0);
    h.temperature_2m = b(-0.0);
    assert_eq!(
        recommendations_for_hour(&h),
        vec![WeatherRecommendation::ExpectSnow, WeatherRecommendation::Freezing]
    );
    let mut h = hour(0);
    h.weathercode = WeatherCode::DepositingRimeFog;
    h.apparent_temperature = b(f64::NAN);
    h.temperature_2m = b(f64::NAN);
    h.windspeed_10m = b(f64::NAN);
    assert_eq!(recommendations_for_hour(&h), vec![WeatherRecommendation::ExpectFog]);
}

#[test]
fn consecutive_hours_are_grouped() {
    let mut hours = calm_hours(6);
    let t0 = hours[0].time;
    for h in hours.iter_mut() {
        h.uv_index = UvIndex::Moderate;
        h.apparent_temperature = b(22.0);
    }
    hours[1].weathercode = WeatherCode::ModerateRain;
    hours[2].weathercode = WeatherCode::ModerateRain;
    hours[2].windspeed_10m = b(45.0);
    let out = get_recommendations(&hours, &RecommendationTimespan::FourHour);
    assert_eq!(
        spans(&out),
        vec![
            (WeatherRecommendation::LowUvRisk, t0, t0 + 4 * 3600),
            (WeatherRecommendation::WearShorts, t0, t0 + 4 * 3600),
            (WeatherRecommendation::ExpectRainLightWinds, t0 + 3600, t0 + 2 * 3600),
            (WeatherRecommendation::ExpectRainStrongWinds, t0 + 2 * 3600, t0 + 3 * 3600),
        ]
    );
}

#[test]
fn separated_hours_make_separate_spans() {
    let mut hours = calm_hours(8);
    let t0 = hours[0].time;
    hours[0].weathercode = WeatherCode::Fog;
    hours[1].weathercode = WeatherCode::Fog;
    hours[4].weathercode = WeatherCode::Fog;
    let out = get_recommendations(&hours, &RecommendationTimespan::EightHour);
    assert_eq!(
        spans(&out),
        vec![
            (WeatherRecommendation::ExpectFog, t0, t0 + 2 * 3600),
            (WeatherRecommendation::ExpectFog, t0 + 4 * 3600, t0 + 5 * 3600),
        ]
    );
    let out = get_recommendations(&hours, &RecommendationTimespan::FourHour);
    assert_eq!(spans(&out), vec![(WeatherRecommendation::ExpectFog, t0, t0 + 2 * 3600)]);
}

#[test]
fn an_hour_joins_the_first_span_that_ends_where_it_starts() {
    let mut hours = vec![hour(0), hour(7200), hour(3600), hour(20000)];
    for h in hours.iter_mut() {
        h.weathercode = WeatherCode::LightSnowFall;
    }
    let out = get_recommendations(&hours, &RecommendationTimespan::FourHour);
    assert_eq!(
        spans(&out),
        vec![
            (WeatherRecommendation::ExpectSnow, 0, 7200),
            (WeatherRecommendation::ExpectSnow, 7200, 10800),
            (WeatherRecommendation::ExpectSnow, 20000, 23600),
        ]
    );
}

#[test]
fn twelve_and_twenty_four_hours() {
    let mut hours = calm_hours(24);
    let t0 = hours[0].time;
    for h in hours.iter_mut() {
        h.temperature_2m = b(-2.0);
        h.apparent_temperature = b(-6.0);
    }
    let out = get_recommendations(&hours, &RecommendationTimespan::TwelveHour);
    assert_eq!(
        spans(&out),
        vec![
            (WeatherRecommendation::WearJumper, t0, t0 + 12 * 3600),
            (WeatherRecommendation::Freezing, t0, t0 + 12 * 3600),
        ]
    );
    let out = get_recommendations(&hours, &RecommendationTimespan::TwentyFourHour);
    assert_eq!(out.len(), 2);
    assert_eq!(out[1].end_time, t0 + 24 * 3600);
}

#[test]
fn hours_that_end_past_the_last_time_are_detected() {
    let mut hours = calm_hours(4);
    assert!(considered_hours_end_in_range(&hours, &RecommendationTimespan::FourHour));
    hours[3].time = i64::MAX - 10;
    assert!(!considered_hours_end_in_range(&hours, &RecommendationTimespan::FourHour));
    assert!(considered_hours_end_in_range(&hours[..3], &RecommendationTimespan::FourHour));
    hours[0].time = i64::MAX - 3600;
    hours[3].time = 0;
    assert!(considered_hours_end_in_range(&hours, &RecommendationTimespan::FourHour));
}

#[test]
fn advice_texts() {
    let t = TimedRecommendation {
        recommendation: WeatherRecommendation::ExpectSnow,
        start_time: 15 * 3600,
        end_time: 17 * 3600,
    };
    assert_eq!(t.get_text(), "Expect snow:  3pm -  5pm");
    let t = TimedRecommendation {
        recommendation: WeatherRecommendation::LowUvRisk,
        start_time: 0,
        end_time: 11 * 3600,
    };
    assert_eq!(t.get_text(), "Wear suncream: 12am - 11am");
    let t = TimedRecommendation {
        recommendation: WeatherRecommendation::HighUvRisk,
        start_time: 12 * 3600,
        end_time: 13 * 3600,
    };
    assert_eq!(t.get_text(), "Avoid direct sunlight: 12pm -  1pm");
    let expected = [
        (WeatherRecommendation::ExpectRainStrongWinds, "Expect rain and strong winds: "),
        (WeatherRecommendation::ExpectRainLightWinds, "Expect rain and light winds: "),
        (WeatherRecommendation::StrongWinds, "Expect strong winds: "),
        (WeatherRecommendation::ExpectStorm, "Expect a storm: "),
        (WeatherRecommendation::ExpectFog, "Expect fog: "),
        (WeatherRecommendation::WearJumper, "Jumper weather: "),
        (WeatherRecommendation::WearShorts, "Shorts weather: "),
        (WeatherRecommendation::Freezing, "Freezing: "),
    ];
    for (rec, words) in expected {
        let t = TimedRecommendation { recommendation: rec, start_time: 3600, end_time: 7200 };
        assert_eq!(t.get_text(), format!("{words} 1am -  2am"));
    }
    let t = TimedRecommendation {
        recommendation: WeatherRecommendation::Sunset("8:41pm".to_string()),
        start_time: 0,
        end_time: 0,
    };
    assert_eq!(t.get_text(), "Sunset at 8:41pm");
    let t = TimedRecommendation {
        recommendation: WeatherRecommendation::Sunrise("5:02am".to_string()),
        start_time: 0,
        end_time: 0,
    };
    assert_eq!(t.get_text(), "Sunrise at 5:02am");
}

#[test]
fn advice_equality() {
    assert_eq!(WeatherRecommendation::Freezing, WeatherRecommendation::Freezing);
    assert_ne!(WeatherRecommendation::Freezing, WeatherRecommendation::WearJumper);
    assert_eq!(
        WeatherRecommendation::Sunset("9pm".to_string()),
        WeatherRecommendation::Sunset("9pm".to_string())
    );
    assert_ne!(
        WeatherRecommendation::Sunset("9pm".to_string()),
        WeatherRecommendation::Sunrise("9pm".to_string())
    );
    assert_ne!(
        WeatherRecommendation::Sunrise("6am".to_string()),
        WeatherRecommendation::Sunrise("7am".to_string())
    );
}

#[test]
fn timespan_names() {
    for span in [
        RecommendationTimespan::FourHour,
        RecommendationTimespan::EightHour,
        RecommendationTimespan::TwelveHour,
        RecommendationTimespan::TwentyFourHour,
    ] {
        assert_eq!(RecommendationTimespan::from_name(span.to_name()), span);
    }
    assert_eq!(RecommendationTimespan::FourHour.to_name(), "FourHour");
    assert_eq!(RecommendationTimespan::TwentyFourHour.to_name(), "TwentyFourHour");
    assert_eq!(RecommendationTimespan::from_name("EightHour"), RecommendationTimespan::EightHour);
    assert_eq!(RecommendationTimespan::from_name("fourhour"), RecommendationTimespan::TwentyFourHour);
    assert_eq!(RecommendationTimespan::from_name(""), RecommendationTimespan::TwentyFourHour);
    assert_eq!(RecommendationTimespan::TwelveHour.hours(), 12);
}
