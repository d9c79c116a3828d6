//! The forecast model: weather codes and the hourly and daily entries.

pub mod daily_entry;
pub mod hourly_entry;
pub mod weather_code;
