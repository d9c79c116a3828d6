//! One day of the forecast.

use vstd::prelude::*;
use crate::binary64::Binary64;
use crate::model::weather_code::WeatherCode;
use crate::weather_api::uv_index::UvIndex;

verus! {

/// The forecast for one day. Measurements are in metric units when
/// `is_metric` holds (°C, mm, km/h), otherwise imperial (°F, inch, mph).
#[derive(Debug, Clone, Copy)]
pub struct DailyEntry {
    /// Start of the day, in local seconds since the Unix epoch.
    pub time: i64,
    pub weathercode: WeatherCode,
    pub temperature_2m_max: Binary64,
    pub temperature_2m_min: Binary64,
    /// Sunrise, in local seconds since the Unix epoch.
    pub sunrise: i64,
    /// Sunset, in local seconds since the Unix epoch.
    pub sunset: i64,
    pub uv_index_max: UvIndex,
    pub precipitation_sum: Binary64,
    pub precipitation_probability_max: Binary64,
    pub windspeed_10m_max: Binary64,
    pub is_metric: bool,
}

} // verus!
