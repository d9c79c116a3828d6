use drizzle::binary64::Binary64;
use drizzle::model::weather_code::WeatherCode;
use drizzle::weather_api::uv_index::UvIndex;
use drizzle::weather_api::weather::{
    current_weather_url, daily_weather_url, hourly_weather_url, saturating_add, CurrentWeatherRaw,
    DailyWeatherRaw, HourlyWeatherRaw,
};

fn b(x: f64) -> Binary64 {
    Binary64::from_bits(x.to_bits())
}

fn bs(xs: &[f64]) -> Vec<Binary64> {
    xs.iter().map(|x| b(*x)).collect()
}

fn f(v: Binary64) -> f64 {
    f64::from_bits(v.bits)
}

#[test]
fn current_weather_is_processed() {
    let raw = CurrentWeatherRaw {
        temperature_2m: b(12.5),
        apparent_temperature: b(10.25),
        is_day: 1,
        weathercode: 61,
    };
    let current = raw.process(true);
    assert_eq!(f(current.temperature_2m), 12.5);
    assert_eq!(f(current.apparent_temperature), 10.25);
    assert!(current.is_day);
    assert!(current.is_metric);
    assert_eq!(current.weathercode, WeatherCode::LightRain);
    let night = CurrentWeatherRaw { is_day: 0, weathercode: 7, ..raw }.process(false);
    assert!(!night.is_day);
    assert!(!night.is_metric);
    assert_eq!(night.weathercode, WeatherCode::NoMatch);
    let odd = CurrentWeatherRaw { is_day: 2, ..raw }.process(true);
    assert!(!odd.is_day);
}

fn hourly_raw() -> HourlyWeatherRaw {
    HourlyWeatherRaw {
        time: vec![1000, 4600, 8200],
        temperature_2m: bs(&[1.0, 2.0, 3.0]),
        apparent_temperature: bs(&[0.5, 1.5, 2.5]),
        weathercode: vec![0, 71, 99],
        precipitation: bs(&[0.0, 0.2, 1.0]),
        precipitation_probability: bs(&[0.0, 20.0, 80.0]),
        windspeed_10m: bs(&[5.0, 10.0, 60.0]),
        uv_index: bs(&[0.0, 3.5, 11.0]),
        is_day: vec![1, 1, 0],
    }
}

#[test]
fn hourly_rows_become_entries() {
    let entries = hourly_raw().to_entries(3600, true);
    assert_eq!(entries.len(), 3);
    assert_eq!(entries[0].time, 4600);
    assert_eq!(entries[2].time, 11800);
    assert_eq!(f(entries[1].temperature_2m), 2.0);
    assert_eq!(f(entries[1].apparent_temperature), 1.5);
    assert_eq!(entries[1].weathercode, WeatherCode::LightSnowFall);
    assert_eq!(entries[2].weathercode, WeatherCode::ThunderstormHeavyHail);
    assert_eq!(f(entries[2].precipitation), 1.0);
    assert_eq!(f(entries[2].precipitation_probability), 80.0);
    assert_eq!(f(entries[2].windspeed_10m), 60.0);
    assert_eq!(entries[0].uv_index, UvIndex::Low);
    assert_eq!(entries[1].uv_index, UvIndex::Moderate);
    assert_eq!(entries[2].uv_index, UvIndex::Extreme);
    assert!(entries[0].is_day && !entries[2].is_day);
    assert!(entries.iter().all(|e| e.is_metric));
}

#[test]
fn hourly_rows_stop_at_the_shortest_column() {
    let mut raw = hourly_raw();
    raw.uv_index.pop();
    let entries = raw.to_entries(0, false);
    assert_eq!(entries.len(), 2);
    assert_eq!(entries[1].time, 4600);
    assert!(!entries[0].is_metric);
    let mut raw = hourly_raw();
    raw.time.truncate(1);
    assert_eq!(raw.to_entries(0, true).len(), 1);
    let mut raw = hourly_raw();
    raw.is_day.clear();
    assert_eq!(raw.to_entries(0, true).len(), 0);
}

#[test]
fn times_saturate_at_the_bounds() {
    assert_eq!(saturating_add(i64::MAX - 5, 10), i64::MAX);
    assert_eq!(saturating_add(i64::MIN + 5, -10), i64::MIN);
    assert_eq!(saturating_add(7, -10), -3);
    let mut raw = hourly_raw();
    raw.time = vec![i64::MAX - 1, 0, 0];
    assert_eq!(raw.to_entries(100, true)[0].time, i64::MAX);
}

fn daily_raw() -> DailyWeatherRaw {
    DailyWeatherRaw {
        time: vec![86400, 172800],
        weathercode: vec![3, 45],
        temperature_2m_max: bs(&[18.0, 21.5]),
        temperature_2m_min: bs(&[8.0, 9.5]),
        sunrise: vec![100000, 186400],
        sunset: vec![140000, 226400],
        uv_index_max: bs(&[6.0, 8.0]),
        precipitation_sum: bs(&[0.0, 4.2]),
        precipitation_probability_max: bs(&[10.0, 90.0]),
        windspeed_10m_max: bs(&[12.0, 30.0]),
    }
}

#[test]
fn daily_rows_become_entries() {
    let entries = daily_raw().to_entries(-3600, false);
    assert_eq!(entries.len(), 2);
    assert_eq!(entries[0].time, 82800);
    assert_eq!(entries[0].sunrise, 96400);
    assert_eq!(entries[1].sunset, 222800);
    assert_eq!(entries[0].weathercode, WeatherCode::Overcast);
    assert_eq!(entries[1].weathercode, WeatherCode::Fog);
    assert_eq!(f(entries[1].temperature_2m_max), 21.5);
    assert_eq!(f(entries[1].temperature_2m_min), 9.5);
    assert_eq!(entries[0].uv_index_max, UvIndex::High);
    assert_eq!(entries[1].uv_index_max, UvIndex::VeryHigh);
    assert_eq!(f(entries[1].precipitation_sum), 4.2);
    assert_eq!(f(entries[1].precipitation_probability_max), 90.0);
    assert_eq!(f(entries[1].windspeed_10m_max), 30.0);
    assert!(!entries[0].is_metric);
    let mut raw = daily_raw();
    raw.sunset.pop();
    assert_eq!(raw.to_entries(0, true).len(), 1);
}

#[test]
fn request_urls() {
    assert_eq!(
        current_weather_url("51.5", "-0.12", true),
        "https://api.open-meteo.com/v1/forecast?timeformat=unixtime&timezone=auto&latitude=51.5&longitude=-0.12&current=temperature_2m,is_day,apparent_temperature,weathercode"
    );
    assert_eq!(
        current_weather_url("1", "2", false),
        "https://api.open-meteo.com/v1/forecast?timeformat=unixtime&timezone=auto&latitude=1&longitude=2&current=temperature_2m,is_day,apparent_temperature,weathercode&temperature_unit=fahrenheit&wind_speed_unit=mph&precipitation_unit=inch"
    );
    assert_eq!(
        hourly_weather_url("1", "2", true),
        "https://api.open-meteo.com/v1/forecast?timeformat=unixtime&timezone=auto&latitude=1&longitude=2&hourly=temperature_2m,apparent_temperature,weathercode,precipitation,precipitation_probability,windspeed_10m,uv_index,is_day&forecast_hours=48"
    );
    assert_eq!(
        daily_weather_url("1", "2", false),
        "https://api.open-meteo.com/v1/forecast?timeformat=unixtime&timezone=auto&latitude=1&longitude=2&daily=weathercode,temperature_2m_max,temperature_2m_min,sunrise,sunset,uv_index_max,precipitation_sum,precipitation_probability_max,windspeed_10m_max&forecast_days=14&temperature_unit=fahrenheit&wind_speed_unit=mph&precipitation_unit=inch"
    );
}
