//! The Open-Meteo forecast and geocoding services: what the library sends
//! them and what it makes of their answers.

pub mod find_city;
pub mod uv_index;
pub mod weather;
pub mod weather_code;
