//! One hour of the forecast.

use vstd::prelude::*;
use crate::binary64::Binary64;
use crate::model::weather_code::WeatherCode;
use crate::weather_api::uv_index::UvIndex;

verus! {

/// The forecast for one hour. Measurements are in metric units when
/// `is_metric` holds (°C, mm, km/h), otherwise imperial (°F, inch, mph).
#[derive(Debug, Clone, Copy)]
pub struct HourlyEntry {
    /// Start of the hour, in local seconds since the Unix epoch.
    pub time: i64,
    pub temperature_2m: Binary64,
    pub apparent_temperature: Binary64,
    pub weathercode: WeatherCode,
    pub precipitation: Binary64,
    pub precipitation_probability: Binary64,
    pub windspeed_10m: Binary64,
    pub uv_index: UvIndex,
    pub is_day: bool,
    pub is_metric: bool,
}

} // verus!
