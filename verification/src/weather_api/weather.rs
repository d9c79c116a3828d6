//! Forecasts from the Open-Meteo forecast service: the requests the library
//! asks for, and the entries it makes of the tables that come back.

use vstd::prelude::*;
use vstd::string::StringExecFns;
use crate::binary64::Binary64;
use crate::model::daily_entry::DailyEntry;
use crate::model::hourly_entry::HourlyEntry;
use crate::model::weather_code::{WeatherCode, code_from_number};
use crate::text::{join_strs, seq_join, texts_of};
use crate::weather_api::uv_index::{UvIndex, uv_band};

verus! {

/// The forecast endpoint of Open-Meteo.
pub const OPEN_METEO_BASE_URL: &'static str = "https://api.open-meteo.com/v1/forecast";

/// The query parameters that ask for imperial units.
pub const IMPERIAL_UNITS_QUERY: &'static str = "&temperature_unit=fahrenheit&wind_speed_unit=mph&precipitation_unit=inch";

/// The answer to a request for the current weather.
pub struct WeatherResponseCurrent {
    pub current: CurrentWeatherRaw,
}

/// The answer to a request for the hourly forecast.
pub struct WeatherResponseHourly {
    pub utc_offset_seconds: i64,
    pub hourly: HourlyWeatherRaw,
}

/// The answer to a request for the daily forecast.
pub struct WeatherResponseDaily {
    pub utc_offset_seconds: i64,
    pub daily: DailyWeatherRaw,
}

/// The weather now.
#[derive(Debug, Clone, Copy)]
pub struct CurrentWeather {
    pub temperature_2m: Binary64,
    pub apparent_temperature: Binary64,
    pub is_day: bool,
    pub is_metric: bool,
    pub weathercode: WeatherCode,
}

/// The weather now, as the service reports it.
#[derive(Debug, Clone, Copy)]
pub struct CurrentWeatherRaw {
    pub temperature_2m: Binary64,
    pub apparent_temperature: Binary64,
    /// 1 in daylight, 0 at night.
    pub is_day: i64,
    /// The WMO code number.
    pub weathercode: i64,
}

/// The daily forecast, as the service reports it: one column per
/// measurement, one row per day.
#[derive(Debug)]
pub struct DailyWeatherRaw {
    pub time: Vec<i64>,
    pub weathercode: Vec<i64>,
    pub temperature_2m_max: Vec<Binary64>,
    pub temperature_2m_min: Vec<Binary64>,
    pub sunrise: Vec<i64>,
    pub sunset: Vec<i64>,
    pub uv_index_max: Vec<Binary64>,
    pub precipitation_sum: Vec<Binary64>,
    pub precipitation_probability_max: Vec<Binary64>,
    pub windspeed_10m_max: Vec<Binary64>,
}

/// The hourly forecast, as the service reports it: one column per
/// measurement, one row per hour.
#[derive(Debug)]
pub struct HourlyWeatherRaw {
    pub time: Vec<i64>,
    pub temperature_2m: Vec<Binary64>,
    pub apparent_temperature: Vec<Binary64>,
    pub weathercode: Vec<i64>,
    pub precipitation: Vec<Binary64>,
    pub precipitation_probability: Vec<Binary64>,
    pub windspeed_10m: Vec<Binary64>,
    pub uv_index: Vec<Binary64>,
    pub is_day: Vec<i64>,
}

/// The smaller of two integers.
pub open spec fn min_int(a: int, b: int) -> int {
    if a <= b { a } else { b }
}

/// `a + b`, held at the bounds of `i64` where it would leave them.
pub open spec fn saturating_sum(a: i64, b: i64) -> i64 {
    if a + b > i64::MAX {
        i64::MAX
    } else if a + b < i64::MIN {
        i64::MIN
    } else {
        (a + b) as i64
    }
}

/// `a + b`, held at the bounds of `i64` where it would leave them.
pub fn saturating_add(a: i64, b: i64) -> (r: i64)
    ensures
        r == saturating_sum(a, b),
{
    match a.checked_add(b) {
        Some(sum) => sum,
        None => if b > 0 {
            i64::MAX
        } else {
            i64::MIN
        },
    }
}

/// The current weather that a reported current weather stands for.
pub open spec fn current_weather_of(raw: CurrentWeatherRaw, is_metric: bool) -> CurrentWeather {
    CurrentWeather {
        temperature_2m: raw.temperature_2m,
        apparent_temperature: raw.apparent_temperature,
        is_day: raw.is_day == 1,
        is_metric,
        weathercode: code_from_number(raw.weathercode as int),
    }
}

impl CurrentWeatherRaw {
    /// The current weather this report stands for.
    pub fn process(&self, is_metric: bool) -> (r: CurrentWeather)
        ensures
            r == current_weather_of(*self, is_metric),
    {
        CurrentWeather {
            temperature_2m: self.temperature_2m,
            apparent_temperature: self.apparent_temperature,
            is_day: self.is_day == 1,
            is_metric,
            weathercode: WeatherCode::from(self.weathercode),
        }
    }
}

impl HourlyWeatherRaw {
    /// The number of rows that every column has.
    pub open spec fn complete_rows(&self) -> int {
        min_int(
            min_int(
                min_int(self.time@.len() as int, self.temperature_2m@.len() as int),
                min_int(self.apparent_temperature@.len() as int, self.weathercode@.len() as int),
            ),
            min_int(
                min_int(self.precipitation@.len() as int, self.precipitation_probability@.len() as int),
                min_int(
                    min_int(self.windspeed_10m@.len() as int, self.uv_index@.len() as int),
                    self.is_day@.len() as int,
                ),
            ),
        )
    }

    /// The entry that row `i` stands for, with times moved by `utc_offset`.
    pub open spec fn entry_at(&self, i: int, utc_offset: i64, is_metric: bool) -> HourlyEntry {
        HourlyEntry {
            time: saturating_sum(self.time@[i], utc_offset),
            temperature_2m: self.temperature_2m@[i],
            apparent_temperature: self.apparent_temperature@[i],
            weathercode: code_from_number(self.weathercode@[i] as int),
            precipitation: self.precipitation@[i],
            precipitation_probability: self.precipitation_probability@[i],
            windspeed_10m: self.windspeed_10m@[i],
            uv_index: uv_band(self.uv_index@[i]),
            is_day: self.is_day@[i] == 1,
            is_metric,
        }
    }

    /// One entry per hour, for the hours that every column reports; times are
    /// moved from UTC by `utc_offset` seconds.
    pub fn to_entries(&self, utc_offset: i64, is_metric: bool) -> (r: Vec<HourlyEntry>)
        ensures
            r@.len() == self.complete_rows(),
            forall|i: int|
                0 <= i < r@.len() ==> #[trigger] r@[i] == self.entry_at(i, utc_offset, is_metric),
    {
        let mut entries: Vec<HourlyEntry> = Vec::new();
        let n = self.time.len();
        for i in 0..n
            invariant
                n == self.time@.len(),
                entries@.len() == min_int(i as int, self.complete_rows()),
                forall|j: int|
                    0 <= j < entries@.len() ==> #[trigger] entries@[j] == self.entry_at(
                        j,
                        utc_offset,
                        is_metric,
                    ),
        {
            if i < self.temperature_2m.len() && i < self.apparent_temperature.len() && i
                < self.weathercode.len() && i < self.precipitation.len() && i
                < self.precipitation_probability.len() && i < self.windspeed_10m.len() && i
                < self.uv_index.len() && i < self.is_day.len() {
                let entry = HourlyEntry {
                    time: saturating_add(self.time[i], utc_offset),
                    temperature_2m: self.temperature_2m[i],
                    apparent_temperature: self.apparent_temperature[i],
                    weathercode: WeatherCode::from(self.weathercode[i]),
                    precipitation: self.precipitation[i],
                    precipitation_probability: self.precipitation_probability[i],
                    windspeed_10m: self.windspeed_10m[i],
                    uv_index: UvIndex::from(self.uv_index[i]),
                    is_day: self.is_day[i] == 1,
                    is_metric,
                };
                entries.push(entry);
            }
        }
        entries
    }
}

impl DailyWeatherRaw {
    /// The number of rows that every column has.
    pub open spec fn complete_rows(&self) -> int {
        min_int(
            min_int(
                min_int(self.time@.len() as int, self.weathercode@.len() as int),
                min_int(self.temperature_2m_max@.len() as int, self.temperature_2m_min@.len() as int),
            ),
            min_int(
                min_int(self.sunrise@.len() as int, self.sunset@.len() as int),
                min_int(
                    min_int(self.uv_index_max@.len() as int, self.precipitation_sum@.len() as int),
                    min_int(
                        self.precipitation_probability_max@.len() as int,
                        self.windspeed_10m_max@.len() as int,
                    ),
                ),
            ),
        )
    }

    /// The entry that row `i` stands for, with times moved by `utc_offset`.
    pub open spec fn entry_at(&self, i: int, utc_offset: i64, is_metric: bool) -> DailyEntry {
        DailyEntry {
            time: saturating_sum(self.time@[i], utc_offset),
            weathercode: code_from_number(self.weathercode@[i] as int),
            temperature_2m_max: self.temperature_2m_max@[i],
            temperature_2m_min: self.temperature_2m_min@[i],
            sunrise: saturating_sum(self.sunrise@[i], utc_offset),
            sunset: saturating_sum(self.sunset@[i], utc_offset),
            uv_index_max: uv_band(self.uv_index_max@[i]),
            precipitation_sum: self.precipitation_sum@[i],
            precipitation_probability_max: self.precipitation_probability_max@[i],
            windspeed_10m_max: self.windspeed_10m_max@[i],
            is_metric,
        }
    }

    /// One entry per day, for the days that every column reports; times are
    /// moved from UTC by `utc_offset` seconds.
    pub fn to_entries(&self, utc_offset: i64, is_metric: bool) -> (r: Vec<DailyEntry>)
        ensures
            r@.len() == self.complete_rows(),
            forall|i: int|
                0 <= i < r@.len() ==> #[trigger] r@[i] == self.entry_at(i, utc_offset, is_metric),
    {
        let mut entries: Vec<DailyEntry> = Vec::new();
        let n = self.time.len();
        for i in 0..n
            invariant
                n == self.time@.len(),
                entries@.len() == min_int(i as int, self.complete_rows()),
                forall|j: int|
                    0 <= j < entries@.len() ==> #[trigger] entries@[j] == self.entry_at(
                        j,
                        utc_offset,
                        is_metric,
                    ),
        {
            if i < self.weathercode.len() && i < self.temperature_2m_max.len() && i
                < self.temperature_2m_min.len() && i < self.sunrise.len() && i < self.sunset.len()
                && i < self.uv_index_max.len() && i < self.precipitation_sum.len() && i
                < self.precipitation_probability_max.len() && i < self.windspeed_10m_max.len() {
                let entry = DailyEntry {
                    time: saturating_add(self.time[i], utc_offset),
                    weathercode: WeatherCode::from(self.weathercode[i]),
                    temperature_2m_max: self.temperature_2m_max[i],
                    temperature_2m_min: self.temperature_2m_min[i],
                    sunrise: saturating_add(self.sunrise[i], utc_offset),
                    sunset: saturating_add(self.sunset[i], utc_offset),
                    uv_index_max: UvIndex::from(self.uv_index_max[i]),
                    precipitation_sum: self.precipitation_sum[i],
                    precipitation_probability_max: self.precipitation_probability_max[i],
                    windspeed_10m_max: self.windspeed_10m_max[i],
                    is_metric,
                };
                entries.push(entry);
            }
        }
        entries
    }
}

/// The measurements asked for in a request for the current weather.
pub open spec fn current_metrics() -> Seq<Seq<char>> {
    seq!["temperature_2m"@, "is_day"@, "apparent_temperature"@, "weathercode"@]
}

/// The measurements asked for in a request for the hourly forecast.
pub open spec fn hourly_metrics() -> Seq<Seq<char>> {
    seq![
        "temperature_2m"@,
        "apparent_temperature"@,
        "weathercode"@,
        "precipitation"@,
        "precipitation_probability"@,
        "windspeed_10m"@,
        "uv_index"@,
        "is_day"@,
    ]
}

/// The measurements asked for in a request for the daily forecast.
pub open spec fn daily_metrics() -> Seq<Seq<char>> {
    seq![
        "weathercode"@,
        "temperature_2m_max"@,
        "temperature_2m_min"@,
        "sunrise"@,
        "sunset"@,
        "uv_index_max"@,
        "precipitation_sum"@,
        "precipitation_probability_max"@,
        "windspeed_10m_max"@,
    ]
}

/// The request URL for a place, up to the first measurement parameter.
pub open spec fn forecast_url_start(latitude: Seq<char>, longitude: Seq<char>) -> Seq<char> {
    OPEN_METEO_BASE_URL@ + "?timeformat=unixtime&timezone=auto&latitude="@ + latitude
        + "&longitude="@ + longitude
}

/// The units part of a request URL.
pub open spec fn units_query(is_metric: bool) -> Seq<char> {
    if is_metric {
        Seq::empty()
    } else {
        IMPERIAL_UNITS_QUERY@
    }
}

/// The request URL for the current weather at a place given by the decimal
/// texts of its latitude and longitude.
pub open spec fn current_weather_url_text(
    latitude: Seq<char>,
    longitude: Seq<char>,
    is_metric: bool,
) -> Seq<char> {
    forecast_url_start(latitude, longitude) + "&current="@ + seq_join(current_metrics(), ","@)
        + units_query(is_metric)
}

/// The request URL for the hourly forecast (48 hours) at a place.
pub open spec fn hourly_weather_url_text(
    latitude: Seq<char>,
    longitude: Seq<char>,
    is_metric: bool,
) -> Seq<char> {
    forecast_url_start(latitude, longitude) + "&hourly="@ + seq_join(hourly_metrics(), ","@)
        + "&forecast_hours=48"@ + units_query(is_metric)
}

/// The request URL for the daily forecast (14 days) at a place.
pub open spec fn daily_weather_url_text(
    latitude: Seq<char>,
    longitude: Seq<char>,
    is_metric: bool,
) -> Seq<char> {
    forecast_url_start(latitude, longitude) + "&daily="@ + seq_join(daily_metrics(), ","@)
        + "&forecast_days=14"@ + units_query(is_metric)
}

/// Imperial units are asked for exactly when the user is not metric: for
/// every place, each request URL of a non-metric user is the metric one
/// with "&temperature_unit=fahrenheit&wind_speed_unit=mph&precipitation_unit=inch"
/// appended, and the metric one ends with its last measurement or its
/// forecast length.
pub proof fn law_imperial_units_only_when_not_metric(latitude: Seq<char>, longitude: Seq<char>)
    ensures
        current_weather_url_text(latitude, longitude, false) == current_weather_url_text(
            latitude,
            longitude,
            true,
        ) + "&temperature_unit=fahrenheit&wind_speed_unit=mph&precipitation_unit=inch"@,
        hourly_weather_url_text(latitude, longitude, false) == hourly_weather_url_text(
            latitude,
            longitude,
            true,
        ) + "&temperature_unit=fahrenheit&wind_speed_unit=mph&precipitation_unit=inch"@,
        daily_weather_url_text(latitude, longitude, false) == daily_weather_url_text(
            latitude,
            longitude,
            true,
        ) + "&temperature_unit=fahrenheit&wind_speed_unit=mph&precipitation_unit=inch"@,
        ",weathercode"@.is_suffix_of(current_weather_url_text(latitude, longitude, true)),
        "&forecast_hours=48"@.is_suffix_of(hourly_weather_url_text(latitude, longitude, true)),
        "&forecast_days=14"@.is_suffix_of(daily_weather_url_text(latitude, longitude, true)),
{
    let current = forecast_url_start(latitude, longitude) + "&current="@ + seq_join(
        current_metrics(),
        ","@,
    );
    let hourly = forecast_url_start(latitude, longitude) + "&hourly="@ + seq_join(
        hourly_metrics(),
        ","@,
    ) + "&forecast_hours=48"@;
    let daily = forecast_url_start(latitude, longitude) + "&daily="@ + seq_join(
        daily_metrics(),
        ","@,
    ) + "&forecast_days=14"@;
    assert(current + Seq::<char>::empty() =~= current);
    assert(hourly + Seq::<char>::empty() =~= hourly);
    assert(daily + Seq::<char>::empty() =~= daily);
    assert(IMPERIAL_UNITS_QUERY@ == "&temperature_unit=fahrenheit&wind_speed_unit=mph&precipitation_unit=inch"@);
    let before = forecast_url_start(latitude, longitude) + "&hourly="@ + seq_join(
        hourly_metrics(),
        ","@,
    );
    assert("&forecast_hours=48"@ =~= hourly.subrange(before.len() as int, hourly.len() as int));
    let before_days = forecast_url_start(latitude, longitude) + "&daily="@ + seq_join(
        daily_metrics(),
        ","@,
    );
    assert("&forecast_days=14"@ =~= daily.subrange(
        before_days.len() as int,
        daily.len() as int,
    ));
    let metrics = current_metrics();
    let joined_before = seq_join(metrics.drop_last(), ","@);
    assert(metrics.last() == "weathercode"@);
    assert(seq_join(metrics, ","@) == joined_before + ","@ + "weathercode"@);
    reveal_strlit(",weathercode");
    reveal_strlit(",");
    reveal_strlit("weathercode");
    let before_last = forecast_url_start(latitude, longitude) + "&current="@ + joined_before;
    assert(current =~= before_last + ",weathercode"@);
    assert(",weathercode"@ =~= current.subrange(before_last.len() as int, current.len() as int));
}

/// Writes the start of a request URL for a place.
fn start_forecast_url(latitude: &str, longitude: &str) -> (r: String)
    ensures
        r@ == forecast_url_start(latitude@, longitude@),
{
    let mut url = String::from_str(OPEN_METEO_BASE_URL);
    url.append("?timeformat=unixtime&timezone=auto&latitude=");
    url.append(latitude);
    url.append("&longitude=");
    url.append(longitude);
    url
}

/// Adds the units part to a request URL.
fn finish_forecast_url(url: &mut String, is_metric: bool)
    ensures
        final(url)@ == old(url)@ + units_query(is_metric),
{
    if !is_metric {
        url.append(IMPERIAL_UNITS_QUERY);
    } else {
        assert(old(url)@ + Seq::<char>::empty() =~= old(url)@);
    }
}

/// The request URL for the current weather at a place given by the decimal
/// texts of its latitude and longitude.
pub fn current_weather_url(latitude: &str, longitude: &str, is_metric: bool) -> (r: String)
    ensures
        r@ == current_weather_url_text(latitude@, longitude@, is_metric),
{
    let metrics: [&str; 4] = ["temperature_2m", "is_day", "apparent_temperature", "weathercode"];
    assert(texts_of(metrics@) =~= current_metrics());
    let mut url = start_forecast_url(latitude, longitude);
    url.append("&current=");
    let list = join_strs(&metrics, ",");
    url.append(list.as_str());
    finish_forecast_url(&mut url, is_metric);
    url
}

/// The request URL for the hourly forecast (48 hours) at a place given by the
/// decimal texts of its latitude and longitude.
pub fn hourly_weather_url(latitude: &str, longitude: &str, is_metric: bool) -> (r: String)
    ensures
        r@ == hourly_weather_url_text(latitude@, longitude@, is_metric),
{
    let metrics: [&str; 8] = [
        "temperature_2m",
        "apparent_temperature",
        "weathercode",
        "precipitation",
        "precipitation_probability",
        "windspeed_10m",
        "uv_index",
        "is_day",
    ];
    assert(texts_of(metrics@) =~= hourly_metrics());
    let mut url = start_forecast_url(latitude, longitude);
    url.append("&hourly=");
    let list = join_strs(&metrics, ",");
    url.append(list.as_str());
    url.append("&forecast_hours=48");
    finish_forecast_url(&mut url, is_metric);
    url
}

/// The request URL for the daily forecast (14 days) at a place given by the
/// decimal texts of its latitude and longitude.
pub fn daily_weather_url(latitude: &str, longitude: &str, is_metric: bool) -> (r: String)
    ensures
        r@ == daily_weather_url_text(latitude@, longitude@, is_metric),
{
    let metrics: [&str; 9] = [
        "weathercode",
        "temperature_2m_max",
        "temperature_2m_min",
        "sunrise",
        "sunset",
        "uv_index_max",
        "precipitation_sum",
        "precipitation_probability_max",
        "windspeed_10m_max",
    ];
    assert(texts_of(metrics@) =~= daily_metrics());
    let mut url = start_forecast_url(latitude, longitude);
    url.append("&daily=");
    let list = join_strs(&metrics, ",");
    url.append(list.as_str());
    url.append("&forecast_days=14");
    finish_forecast_url(&mut url, is_metric);
    url
}

} // verus!
