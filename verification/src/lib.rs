//! Weather forecast logic for the Drizzle weather application: WMO weather
//! codes, UV index bands, conversion of Open-Meteo forecast tables into
//! entries, hourly recommendations, and the decisions of the application's
//! window and dialogs.

pub mod app;
pub mod binary64;
pub mod modals;
pub mod model;
pub mod text;
pub mod time_format;
pub mod ui;
pub mod weather_api;
pub mod weather_rec;
