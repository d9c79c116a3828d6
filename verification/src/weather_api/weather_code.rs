//! WMO weather interpretation codes as the forecast service reports them,
//! with the icon and the daylight background that show each one.

use vstd::prelude::*;
use crate::model::weather_code::{
    WeatherCode as ModelCode,
    code_from_number,
    icon_name,
    day_background_class,
};

verus! {

/// WMO Weather interpretation codes (WW)
/// See https://open-meteo.com/en/docs#weather_variable_documentation
#[derive(Debug, Clone, Copy)]
pub enum WeatherCode {
    ClearSky,
    MainlyClear,
    PartlyCloudy,
    Overcast,
    Fog,
    DepositingRimeFog,
    LightDrizzle,
    ModerateDrizzle,
    DenseDrizzle,
    LightFreezingDrizzle,
    DenseFreezingDrizzle,
    LightRain,
    ModerateRain,
    HeavyRain,
    LightFreezingRain,
    HeavyFreezingRain,
    LightSnowFall,
    ModerateSnowFall,
    HeavySnowFall,
    SnowGrains,
    LightRainShowers,
    ModerateRainShowers,
    ViolentRainShowers,
    LightSnowShowers,
    HeavySnowShowers,
    Thunderstorm,
    ThunderstormLightHail,
    ThunderstormHeavyHail,
    NoMatch,
}

/// The variant for the same weather as a code of the forecast model.
pub open spec fn from_model(code: ModelCode) -> WeatherCode {
    match code {
        ModelCode::ClearSky => WeatherCode::ClearSky,
        ModelCode::MainlyClear => WeatherCode::MainlyClear,
        ModelCode::PartlyCloudy => WeatherCode::PartlyCloudy,
        ModelCode::Overcast => WeatherCode::Overcast,
        ModelCode::Fog => WeatherCode::Fog,
        ModelCode::DepositingRimeFog => WeatherCode::DepositingRimeFog,
        ModelCode::LightDrizzle => WeatherCode::LightDrizzle,
        ModelCode::ModerateDrizzle => WeatherCode::ModerateDrizzle,
        ModelCode::DenseDrizzle => WeatherCode::DenseDrizzle,
        ModelCode::LightFreezingDrizzle => WeatherCode::LightFreezingDrizzle,
        ModelCode::DenseFreezingDrizzle => WeatherCode::DenseFreezingDrizzle,
        ModelCode::LightRain => WeatherCode::LightRain,
        ModelCode::ModerateRain => WeatherCode::ModerateRain,
        ModelCode::HeavyRain => WeatherCode::HeavyRain,
        ModelCode::LightFreezingRain => WeatherCode::LightFreezingRain,
        ModelCode::HeavyFreezingRain => WeatherCode::HeavyFreezingRain,
        ModelCode::LightSnowFall => WeatherCode::LightSnowFall,
        ModelCode::ModerateSnowFall => WeatherCode::ModerateSnowFall,
        ModelCode::HeavySnowFall => WeatherCode::HeavySnowFall,
        ModelCode::SnowGrains => WeatherCode::SnowGrains,
        ModelCode::LightRainShowers => WeatherCode::LightRainShowers,
        ModelCode::ModerateRainShowers => WeatherCode::ModerateRainShowers,
        ModelCode::ViolentRainShowers => WeatherCode::ViolentRainShowers,
        ModelCode::LightSnowShowers => WeatherCode::LightSnowShowers,
        ModelCode::HeavySnowShowers => WeatherCode::HeavySnowShowers,
        ModelCode::Thunderstorm => WeatherCode::Thunderstorm,
        ModelCode::ThunderstormLightHail => WeatherCode::ThunderstormLightHail,
        ModelCode::ThunderstormHeavyHail => WeatherCode::ThunderstormHeavyHail,
        ModelCode::NoMatch => WeatherCode::NoMatch,
    }
}

impl WeatherCode {
    /// The same weather as a code of the forecast model.
    pub open spec fn as_model(self) -> ModelCode {
        match self {
            WeatherCode::ClearSky => ModelCode::ClearSky,
            WeatherCode::MainlyClear => ModelCode::MainlyClear,
            WeatherCode::PartlyCloudy => ModelCode::PartlyCloudy,
            WeatherCode::Overcast => ModelCode::Overcast,
            WeatherCode::Fog => ModelCode::Fog,
            WeatherCode::DepositingRimeFog => ModelCode::DepositingRimeFog,
            WeatherCode::LightDrizzle => ModelCode::LightDrizzle,
            WeatherCode::ModerateDrizzle => ModelCode::ModerateDrizzle,
            WeatherCode::DenseDrizzle => ModelCode::DenseDrizzle,
            WeatherCode::LightFreezingDrizzle => ModelCode::LightFreezingDrizzle,
            WeatherCode::DenseFreezingDrizzle => ModelCode::DenseFreezingDrizzle,
            WeatherCode::LightRain => ModelCode::LightRain,
            WeatherCode::ModerateRain => ModelCode::ModerateRain,
            WeatherCode::HeavyRain => ModelCode::HeavyRain,
            WeatherCode::LightFreezingRain => ModelCode::LightFreezingRain,
            WeatherCode::HeavyFreezingRain => ModelCode::HeavyFreezingRain,
            WeatherCode::LightSnowFall => ModelCode::LightSnowFall,
            WeatherCode::ModerateSnowFall => ModelCode::ModerateSnowFall,
            WeatherCode::HeavySnowFall => ModelCode::HeavySnowFall,
            WeatherCode::SnowGrains => ModelCode::SnowGrains,
            WeatherCode::LightRainShowers => ModelCode::LightRainShowers,
            WeatherCode::ModerateRainShowers => ModelCode::ModerateRainShowers,
            WeatherCode::ViolentRainShowers => ModelCode::ViolentRainShowers,
            WeatherCode::LightSnowShowers => ModelCode::LightSnowShowers,
            WeatherCode::HeavySnowShowers => ModelCode::HeavySnowShowers,
            WeatherCode::Thunderstorm => ModelCode::Thunderstorm,
            WeatherCode::ThunderstormLightHail => ModelCode::ThunderstormLightHail,
            WeatherCode::ThunderstormHeavyHail => ModelCode::ThunderstormHeavyHail,
            WeatherCode::NoMatch => ModelCode::NoMatch,
        }
    }

    /// The name of the icon that shows this weather.
    pub fn get_icon_name(&self, is_day: bool) -> (r: &'static str)
        ensures
            r@ == icon_name(self.as_model(), is_day),
    {
        match self {
            WeatherCode::ClearSky | WeatherCode::MainlyClear => {
                if is_day {
                    "clear-day"
                } else {
                    "clear-night"
                }
            },
            WeatherCode::PartlyCloudy => {
                if is_day {
                    "partly-cloudy-day"
                } else {
                    "partly-cloudy-night"
                }
            },
            WeatherCode::Overcast => "cloudy",
            WeatherCode::Fog | WeatherCode::DepositingRimeFog => "foggy",
            WeatherCode::LightRainShowers
            | WeatherCode::ModerateRainShowers
            | WeatherCode::ViolentRainShowers
            | WeatherCode::LightDrizzle
            | WeatherCode::ModerateDrizzle
            | WeatherCode::DenseDrizzle
            | WeatherCode::LightFreezingDrizzle
            | WeatherCode::DenseFreezingDrizzle
            | WeatherCode::LightRain
            | WeatherCode::ModerateRain
            | WeatherCode::HeavyRain
            | WeatherCode::LightFreezingRain
            | WeatherCode::HeavyFreezingRain => "rainy",
            WeatherCode::LightSnowShowers
            | WeatherCode::HeavySnowShowers
            | WeatherCode::LightSnowFall
            | WeatherCode::ModerateSnowFall
            | WeatherCode::HeavySnowFall
            | WeatherCode::SnowGrains => "snowing",
            WeatherCode::Thunderstorm
            | WeatherCode::ThunderstormLightHail
            | WeatherCode::ThunderstormHeavyHail => "thunderstorm",
            WeatherCode::NoMatch => "",
        }
    }

    /// The CSS class that gives a weather card the background for this weather.
    pub fn get_background_css_class(&self) -> (r: &'static str)
        ensures
            r@ == day_background_class(self.as_model()),
    {
        match self {
            WeatherCode::ClearSky | WeatherCode::MainlyClear => "bg-weather-clear-sky",
            WeatherCode::PartlyCloudy => "bg-weather-few-clouds",
            WeatherCode::Overcast => "bg-weather-overcast",
            WeatherCode::Fog | WeatherCode::DepositingRimeFog => "bg-weather-fog",
            WeatherCode::LightRainShowers
            | WeatherCode::LightDrizzle
            | WeatherCode::ModerateDrizzle
            | WeatherCode::LightFreezingDrizzle
            | WeatherCode::LightRain
            | WeatherCode::LightFreezingRain => "bg-weather-showers-scattered",
            WeatherCode::ModerateRain
            | WeatherCode::HeavyRain
            | WeatherCode::DenseFreezingDrizzle
            | WeatherCode::DenseDrizzle
            | WeatherCode::ModerateRainShowers
            | WeatherCode::ViolentRainShowers
            | WeatherCode::HeavyFreezingRain => "bg-weather-showers-large",
            WeatherCode::LightSnowShowers
            | WeatherCode::HeavySnowShowers
            | WeatherCode::LightSnowFall
            | WeatherCode::ModerateSnowFall
            | WeatherCode::HeavySnowFall
            | WeatherCode::SnowGrains => "bg-weather-snow",
            WeatherCode::Thunderstorm
            | WeatherCode::ThunderstormLightHail
            | WeatherCode::ThunderstormHeavyHail => "bg-weather-storm",
            WeatherCode::NoMatch => "",
        }
    }
}

impl From<i64> for WeatherCode {
    /// The variant for a WMO code number; unknown numbers give `NoMatch`.
    fn from(value: i64) -> (r: Self) {
        match value {
            0 => WeatherCode::ClearSky,
            1 => WeatherCode::MainlyClear,
            2 => WeatherCode::PartlyCloudy,
            3 => WeatherCode::Overcast,
            45 => WeatherCode::Fog,
            48 => WeatherCode::DepositingRimeFog,
            51 => WeatherCode::LightDrizzle,
            53 => WeatherCode::ModerateDrizzle,
            55 => WeatherCode::DenseDrizzle,
            56 => WeatherCode::LightFreezingDrizzle,
            57 => WeatherCode::DenseFreezingDrizzle,
            61 => WeatherCode::LightRain,
            63 => WeatherCode::ModerateRain,
            65 => WeatherCode::HeavyRain,
            66 => WeatherCode::LightFreezingRain,
            67 => WeatherCode::HeavyFreezingRain,
            71 => WeatherCode::LightSnowFall,
            73 => WeatherCode::ModerateSnowFall,
            75 => WeatherCode::HeavySnowFall,
            77 => WeatherCode::SnowGrains,
            80 => WeatherCode::LightRainShowers,
            81 => WeatherCode::ModerateRainShowers,
            82 => WeatherCode::ViolentRainShowers,
            85 => WeatherCode::LightSnowShowers,
            86 => WeatherCode::HeavySnowShowers,
            95 => WeatherCode::Thunderstorm,
            96 => WeatherCode::ThunderstormLightHail,
            99 => WeatherCode::ThunderstormHeavyHail,
            _ => WeatherCode::NoMatch,
        }
    }
}

impl vstd::std_specs::convert::FromSpecImpl<i64> for WeatherCode {
    open spec fn obeys_from_spec() -> bool {
        true
    }

    open spec fn from_spec(v: i64) -> WeatherCode {
        from_model(code_from_number(v as int))
    }
}

/// The forecast service's code table agrees with the model's: a code number
/// read by either names the same weather.
pub proof fn law_code_tables_agree(value: i64)
    ensures
        from_model(code_from_number(value as int)).as_model() == code_from_number(value as int),
{
}

} // verus!
