//! WMO weather interpretation codes (WW), as Open-Meteo reports them, with the
//! icon, status image and background class that show each one.

use vstd::prelude::*;

verus! {

/// WMO Weather interpretation codes (WW).
/// See <https://open-meteo.com/en/docs#weather_variable_documentation>
#[derive(Debug, Clone, Copy, PartialEq, Eq, Structural)]
pub enum WeatherCode {
    ClearSky,
    MainlyClear,
    PartlyCloudy,
    Overcast,
    Fog,
    DepositingRimeFog,
    LightDrizzle,
    ModerateDrizzle,
    DenseDrizzle,
    LightFreezingDrizzle,
    DenseFreezingDrizzle,
    LightRain,
    ModerateRain,
    HeavyRain,
    LightFreezingRain,
    HeavyFreezingRain,
    LightSnowFall,
    ModerateSnowFall,
    HeavySnowFall,
    SnowGrains,
    LightRainShowers,
    ModerateRainShowers,
    ViolentRainShowers,
    LightSnowShowers,
    HeavySnowShowers,
    Thunderstorm,
    ThunderstormLightHail,
    ThunderstormHeavyHail,
    NoMatch,
}

/// The variant that a WMO code number stands for; numbers outside the WMO
/// list give `NoMatch`.
pub open spec fn code_from_number(value: int) -> WeatherCode {
    if value == 0 {
        WeatherCode::ClearSky
    } else if value == 1 {
        WeatherCode::MainlyClear
    } else if value == 2 {
        WeatherCode::PartlyCloudy
    } else if value == 3 {
        WeatherCode::Overcast
    } else if value == 45 {
        WeatherCode::Fog
    } else if value == 48 {
        WeatherCode::DepositingRimeFog
    } else if value == 51 {
        WeatherCode::LightDrizzle
    } else if value == 53 {
        WeatherCode::ModerateDrizzle
    } else if value == 55 {
        WeatherCode::DenseDrizzle
    } else if value == 56 {
        WeatherCode::LightFreezingDrizzle
    } else if value == 57 {
        WeatherCode::DenseFreezingDrizzle
    } else if value == 61 {
        WeatherCode::LightRain
    } else if value == 63 {
        WeatherCode::ModerateRain
    } else if value == 65 {
        WeatherCode::HeavyRain
    } else if value == 66 {
        WeatherCode::LightFreezingRain
    } else if value == 67 {
        WeatherCode::HeavyFreezingRain
    } else if value == 71 {
        WeatherCode::LightSnowFall
    } else if value == 73 {
        WeatherCode::ModerateSnowFall
    } else if value == 75 {
        WeatherCode::HeavySnowFall
    } else if value == 77 {
        WeatherCode::SnowGrains
    } else if value == 80 {
        WeatherCode::LightRainShowers
    } else if value == 81 {
        WeatherCode::ModerateRainShowers
    } else if value == 82 {
        WeatherCode::ViolentRainShowers
    } else if value == 85 {
        WeatherCode::LightSnowShowers
    } else if value == 86 {
        WeatherCode::HeavySnowShowers
    } else if value == 95 {
        WeatherCode::Thunderstorm
    } else if value == 96 {
        WeatherCode::ThunderstormLightHail
    } else if value == 99 {
        WeatherCode::ThunderstormHeavyHail
    } else {
        WeatherCode::NoMatch
    }
}

/// The WMO code number of each named variant (`NoMatch` has none; -1 here).
pub open spec fn code_number(code: WeatherCode) -> int {
    match code {
        WeatherCode::ClearSky => 0,
        WeatherCode::MainlyClear => 1,
        WeatherCode::PartlyCloudy => 2,
        WeatherCode::Overcast => 3,
        WeatherCode::Fog => 45,
        WeatherCode::DepositingRimeFog => 48,
        WeatherCode::LightDrizzle => 51,
        WeatherCode::ModerateDrizzle => 53,
        WeatherCode::DenseDrizzle => 55,
        WeatherCode::LightFreezingDrizzle => 56,
        WeatherCode::DenseFreezingDrizzle => 57,
        WeatherCode::LightRain => 61,
        WeatherCode::ModerateRain => 63,
        WeatherCode::HeavyRain => 65,
        WeatherCode::LightFreezingRain => 66,
        WeatherCode::HeavyFreezingRain => 67,
        WeatherCode::LightSnowFall => 71,
        WeatherCode::ModerateSnowFall => 73,
        WeatherCode::HeavySnowFall => 75,
        WeatherCode::SnowGrains => 77,
        WeatherCode::LightRainShowers => 80,
        WeatherCode::ModerateRainShowers => 81,
        WeatherCode::ViolentRainShowers => 82,
        WeatherCode::LightSnowShowers => 85,
        WeatherCode::HeavySnowShowers => 86,
        WeatherCode::Thunderstorm => 95,
        WeatherCode::ThunderstormLightHail => 96,
        WeatherCode::ThunderstormHeavyHail => 99,
        WeatherCode::NoMatch => -1,
    }
}

/// Clear or mainly clear sky.
pub open spec fn is_clear_kind(code: WeatherCode) -> bool {
    code == WeatherCode::ClearSky || code == WeatherCode::MainlyClear
}

/// Fog and depositing rime fog.
pub open spec fn is_fog_kind(code: WeatherCode) -> bool {
    code == WeatherCode::Fog || code == WeatherCode::DepositingRimeFog
}

/// Drizzle, rain and rain showers: every kind of liquid precipitation.
pub open spec fn is_wet_kind(code: WeatherCode) -> bool {
    is_light_wet_kind(code) || is_heavy_wet_kind(code)
}

/// The light kinds of liquid precipitation.
pub open spec fn is_light_wet_kind(code: WeatherCode) -> bool {
    match code {
        WeatherCode::LightRainShowers
        | WeatherCode::LightDrizzle
        | WeatherCode::ModerateDrizzle
        | WeatherCode::LightFreezingDrizzle
        | WeatherCode::LightRain
        | WeatherCode::LightFreezingRain => true,
        _ => false,
    }
}

/// The heavy kinds of liquid precipitation.
pub open spec fn is_heavy_wet_kind(code: WeatherCode) -> bool {
    match code {
        WeatherCode::ModerateRain
        | WeatherCode::HeavyRain
        | WeatherCode::DenseFreezingDrizzle
        | WeatherCode::DenseDrizzle
        | WeatherCode::ModerateRainShowers
        | WeatherCode::ViolentRainShowers
        | WeatherCode::HeavyFreezingRain => true,
        _ => false,
    }
}

/// Snow fall, snow showers and snow grains.
pub open spec fn is_snow_kind(code: WeatherCode) -> bool {
    match code {
        WeatherCode::LightSnowShowers
        | WeatherCode::HeavySnowShowers
        | WeatherCode::LightSnowFall
        | WeatherCode::ModerateSnowFall
        | WeatherCode::HeavySnowFall
        | WeatherCode::SnowGrains => true,
        _ => false,
    }
}

/// Thunderstorms, with or without hail.
pub open spec fn is_storm_kind(code: WeatherCode) -> bool {
    match code {
        WeatherCode::Thunderstorm
        | WeatherCode::ThunderstormLightHail
        | WeatherCode::ThunderstormHeavyHail => true,
        _ => false,
    }
}

/// The codes that bring rain: all liquid precipitation and a thunderstorm
/// without hail.
pub open spec fn brings_rain(code: WeatherCode) -> bool {
    is_wet_kind(code) || code == WeatherCode::Thunderstorm
}

/// The icon name shown for a code.
pub open spec fn icon_name(code: WeatherCode, is_day: bool) -> Seq<char> {
    if is_clear_kind(code) {
        if is_day { "clear-day"@ } else { "clear-night"@ }
    } else if code == WeatherCode::PartlyCloudy {
        if is_day { "partly-cloudy-day"@ } else { "partly-cloudy-night"@ }
    } else if code == WeatherCode::Overcast {
        "cloudy"@
    } else if is_fog_kind(code) {
        "foggy"@
    } else if is_wet_kind(code) {
        "rainy"@
    } else if is_snow_kind(code) {
        "snowing"@
    } else if is_storm_kind(code) {
        "thunderstorm"@
    } else {
        ""@
    }
}

/// The resource path of the status image shown for a code.
pub open spec fn status_image_resource(code: WeatherCode, is_day: bool) -> Seq<char> {
    if is_clear_kind(code) {
        if is_day {
            "/com/github/leo030303/drizzle/weather_status_icons/drizzle-clear.svg"@
        } else {
            "/com/github/leo030303/drizzle/weather_status_icons/drizzle-clear-night.svg"@
        }
    } else if code == WeatherCode::PartlyCloudy {
        if is_day {
            "/com/github/leo030303/drizzle/weather_status_icons/drizzle-few-clouds.svg"@
        } else {
            "/com/github/leo030303/drizzle/weather_status_icons/drizzle-few-clouds-night.svg"@
        }
    } else if code == WeatherCode::Overcast {
        "/com/github/leo030303/drizzle/weather_status_icons/drizzle-overcast.svg"@
    } else if is_fog_kind(code) {
        "/com/github/leo030303/drizzle/weather_status_icons/drizzle-fog.svg"@
    } else if is_light_wet_kind(code) {
        "/com/github/leo030303/drizzle/weather_status_icons/drizzle-showers.svg"@
    } else if is_heavy_wet_kind(code) {
        "/com/github/leo030303/drizzle/weather_status_icons/drizzle-showers-scattered.svg"@
    } else if is_snow_kind(code) {
        "/com/github/leo030303/drizzle/weather_status_icons/drizzle-snow.svg"@
    } else if is_storm_kind(code) {
        "/com/github/leo030303/drizzle/weather_status_icons/drizzle-storm.svg"@
    } else {
        ""@
    }
}

/// The CSS class of the card background for a code in daylight.
pub open spec fn day_background_class(code: WeatherCode) -> Seq<char> {
    if is_clear_kind(code) {
        "bg-weather-clear-sky"@
    } else if code == WeatherCode::PartlyCloudy {
        "bg-weather-few-clouds"@
    } else if code == WeatherCode::Overcast {
        "bg-weather-overcast"@
    } else if is_fog_kind(code) {
        "bg-weather-fog"@
    } else if is_light_wet_kind(code) {
        "bg-weather-showers-scattered"@
    } else if is_heavy_wet_kind(code) {
        "bg-weather-showers-large"@
    } else if is_snow_kind(code) {
        "bg-weather-snow"@
    } else if is_storm_kind(code) {
        "bg-weather-storm"@
    } else {
        ""@
    }
}

/// The CSS class of the card background for a code at night.
pub open spec fn night_background_class(code: WeatherCode) -> Seq<char> {
    if is_clear_kind(code) {
        "bg-weather-clear-sky-night"@
    } else if code == WeatherCode::PartlyCloudy {
        "bg-weather-few-clouds-night"@
    } else if code == WeatherCode::Overcast {
        "bg-weather-overcast-night"@
    } else if is_fog_kind(code) {
        "bg-weather-fog-night"@
    } else if is_light_wet_kind(code) {
        "bg-weather-showers-scattered-night"@
    } else if is_heavy_wet_kind(code) {
        "bg-weather-showers-large-night"@
    } else if is_snow_kind(code) {
        "bg-weather-snow-night"@
    } else if is_storm_kind(code) {
        "bg-weather-storm-night"@
    } else {
        ""@
    }
}

/// The CSS class of the card background for a code.
pub open spec fn background_class(code: WeatherCode, is_day: bool) -> Seq<char> {
    if is_day {
        day_background_class(code)
    } else {
        night_background_class(code)
    }
}

impl WeatherCode {
    /// The name of the icon that shows this weather.
    pub fn get_icon_name(&self, is_day: bool) -> (r: &'static str)
        ensures
            r@ == icon_name(*self, is_day),
    {
        match self {
            Self::ClearSky | Self::MainlyClear => {
                if is_day {
                    "clear-day"
                } else {
                    "clear-night"
                }
            },
            Self::PartlyCloudy => {
                if is_day {
                    "partly-cloudy-day"
                } else {
                    "partly-cloudy-night"
                }
            },
            Self::Overcast => "cloudy",
            Self::Fog | Self::DepositingRimeFog => "foggy",
            Self::LightRainShowers
            | Self::ModerateRainShowers
            | Self::ViolentRainShowers
            | Self::LightDrizzle
            | Self::ModerateDrizzle
            | Self::DenseDrizzle
            | Self::LightFreezingDrizzle
            | Self::DenseFreezingDrizzle
            | Self::LightRain
            | Self::ModerateRain
            | Self::HeavyRain
            | Self::LightFreezingRain
            | Self::HeavyFreezingRain => "rainy",
            Self::LightSnowShowers
            | Self::HeavySnowShowers
            | Self::LightSnowFall
            | Self::ModerateSnowFall
            | Self::HeavySnowFall
            | Self::SnowGrains => "snowing",
            Self::Thunderstorm | Self::ThunderstormLightHail | Self::ThunderstormHeavyHail => {
                "thunderstorm"
            },
            Self::NoMatch => "",
        }
    }

    /// The resource path of the large status image for this weather.
    pub fn get_status_image_resource(&self, is_day: bool) -> (r: &'static str)
        ensures
            r@ == status_image_resource(*self, is_day),
    {
        match self {
            Self::ClearSky | Self::MainlyClear => {
                if is_day {
                    "/com/github/leo030303/drizzle/weather_status_icons/drizzle-clear.svg"
                } else {
                    "/com/github/leo030303/drizzle/weather_status_icons/drizzle-clear-night.svg"
                }
            },
            Self::PartlyCloudy => {
                if is_day {
                    "/com/github/leo030303/drizzle/weather_status_icons/drizzle-few-clouds.svg"
                } else {
                    "/com/github/leo030303/drizzle/weather_status_icons/drizzle-few-clouds-night.svg"
                }
            },
            Self::Overcast => {
                "/com/github/leo030303/drizzle/weather_status_icons/drizzle-overcast.svg"
            },
            Self::Fog | Self::DepositingRimeFog => {
                "/com/github/leo030303/drizzle/weather_status_icons/drizzle-fog.svg"
            },
            Self::LightRainShowers
            | Self::LightDrizzle
            | Self::ModerateDrizzle
            | Self::LightFreezingDrizzle
            | Self::LightRain
            | Self::LightFreezingRain => {
                "/com/github/leo030303/drizzle/weather_status_icons/drizzle-showers.svg"
            },
            Self::ModerateRain
            | Self::HeavyRain
            | Self::DenseFreezingDrizzle
            | Self::DenseDrizzle
            | Self::ModerateRainShowers
            | Self::ViolentRainShowers
            | Self::HeavyFreezingRain => {
                "/com/github/leo030303/drizzle/weather_status_icons/drizzle-showers-scattered.svg"
            },
            Self::LightSnowShowers
            | Self::HeavySnowShowers
            | Self::LightSnowFall
            | Self::ModerateSnowFall
            | Self::HeavySnowFall
            | Self::SnowGrains => {
                "/com/github/leo030303/drizzle/weather_status_icons/drizzle-snow.svg"
            },
            Self::Thunderstorm | Self::ThunderstormLightHail | Self::ThunderstormHeavyHail => {
                "/com/github/leo030303/drizzle/weather_status_icons/drizzle-storm.svg"
            },
            Self::NoMatch => "",
        }
    }

    /// The CSS class that gives a weather card the background for this weather.
    pub fn get_background_css_class(&self, is_day: bool) -> (r: &'static str)
        ensures
            r@ == background_class(*self, is_day),
    {
        match self {
            Self::ClearSky | Self::MainlyClear => {
                if is_day {
                    "bg-weather-clear-sky"
                } else {
                    "bg-weather-clear-sky-night"
                }
            },
            Self::PartlyCloudy => {
                if is_day {
                    "bg-weather-few-clouds"
                } else {
                    "bg-weather-few-clouds-night"
                }
            },
            Self::Overcast => {
                if is_day {
                    "bg-weather-overcast"
                } else {
                    "bg-weather-overcast-night"
                }
            },
            Self::Fog | Self::DepositingRimeFog => {
                if is_day {
                    "bg-weather-fog"
                } else {
                    "bg-weather-fog-night"
                }
            },
            Self::LightRainShowers
            | Self::LightDrizzle
            | Self::ModerateDrizzle
            | Self::LightFreezingDrizzle
            | Self::LightRain
            | Self::LightFreezingRain => {
                if is_day {
                    "bg-weather-showers-scattered"
                } else {
                    "bg-weather-showers-scattered-night"
                }
            },
            Self::ModerateRain
            | Self::HeavyRain
            | Self::DenseFreezingDrizzle
            | Self::DenseDrizzle
            | Self::ModerateRainShowers
            | Self::ViolentRainShowers
            | Self::HeavyFreezingRain => {
                if is_day {
                    "bg-weather-showers-large"
                } else {
                    "bg-weather-showers-large-night"
                }
            },
            Self::LightSnowShowers
            | Self::HeavySnowShowers
            | Self::LightSnowFall
            | Self::ModerateSnowFall
            | Self::HeavySnowFall
            | Self::SnowGrains => {
                if is_day {
                    "bg-weather-snow"
                } else {
                    "bg-weather-snow-night"
                }
            },
            Self::Thunderstorm | Self::ThunderstormLightHail | Self::ThunderstormHeavyHail => {
                if is_day {
                    "bg-weather-storm"
                } else {
                    "bg-weather-storm-night"
                }
            },
            Self::NoMatch => "",
        }
    }

    /// Whether this weather brings rain (drizzle, rain, rain showers, or a
    /// thunderstorm without hail).
    pub fn is_rain(&self) -> (r: bool)
        ensures
            r == brings_rain(*self),
    {
        matches!(
            self,
            Self::LightDrizzle
                | Self::ModerateDrizzle
                | Self::DenseDrizzle
                | Self::LightFreezingDrizzle
                | Self::DenseFreezingDrizzle
                | Self::LightRain
                | Self::ModerateRain
                | Self::HeavyRain
                | Self::LightFreezingRain
                | Self::HeavyFreezingRain
                | Self::LightRainShowers
                | Self::ModerateRainShowers
                | Self::ViolentRainShowers
                | Self::Thunderstorm
        )
    }

    /// Whether this weather brings snow.
    pub fn is_snow(&self) -> (r: bool)
        ensures
            r == is_snow_kind(*self),
    {
        matches!(
            self,
            Self::LightSnowFall
                | Self::ModerateSnowFall
                | Self::HeavySnowFall
                | Self::LightSnowShowers
                | Self::HeavySnowShowers
                | Self::SnowGrains
        )
    }

    /// Whether this weather is fog.
    pub fn is_fog(&self) -> (r: bool)
        ensures
            r == is_fog_kind(*self),
    {
        matches!(self, Self::Fog | Self::DepositingRimeFog)
    }

    /// Whether this weather is a thunderstorm.
    pub fn is_storm(&self) -> (r: bool)
        ensures
            r == is_storm_kind(*self),
    {
        matches!(self, Self::Thunderstorm | Self::ThunderstormLightHail | Self::ThunderstormHeavyHail)
    }
}

impl From<i64> for WeatherCode {
    /// The variant for a WMO code number; unknown numbers give `NoMatch`.
    fn from(value: i64) -> (r: Self) {
        match value {
            0 => Self::ClearSky,
            1 => Self::MainlyClear,
            2 => Self::PartlyCloudy,
            3 => Self::Overcast,
            45 => Self::Fog,
            48 => Self::DepositingRimeFog,
            51 => Self::LightDrizzle,
            53 => Self::ModerateDrizzle,
            55 => Self::DenseDrizzle,
            56 => Self::LightFreezingDrizzle,
            57 => Self::DenseFreezingDrizzle,
            61 => Self::LightRain,
            63 => Self::ModerateRain,
            65 => Self::HeavyRain,
            66 => Self::LightFreezingRain,
            67 => Self::HeavyFreezingRain,
            71 => Self::LightSnowFall,
            73 => Self::ModerateSnowFall,
            75 => Self::HeavySnowFall,
            77 => Self::SnowGrains,
            80 => Self::LightRainShowers,
            81 => Self::ModerateRainShowers,
            82 => Self::ViolentRainShowers,
            85 => Self::LightSnowShowers,
            86 => Self::HeavySnowShowers,
            95 => Self::Thunderstorm,
            96 => Self::ThunderstormLightHail,
            99 => Self::ThunderstormHeavyHail,
            _ => Self::NoMatch,
        }
    }
}

impl vstd::std_specs::convert::FromSpecImpl<i64> for WeatherCode {
    open spec fn obeys_from_spec() -> bool {
        true
    }

    open spec fn from_spec(v: i64) -> WeatherCode {
        code_from_number(v as int)
    }
}

/// Reading a WMO code number and taking the number of the variant read are
/// inverse on the WMO list: every named variant is read from its own number,
/// and every number that is read as a named variant is that variant's number.
pub proof fn law_code_numbers_round_trip(code: WeatherCode, value: int)
    ensures
        code != WeatherCode::NoMatch ==> code_from_number(code_number(code)) == code,
        code_from_number(value) != WeatherCode::NoMatch ==> code_number(code_from_number(value))
            == value,
{
}

/// The kinds of weather do not overlap: no code is two of fog, liquid
/// precipitation, snow and thunderstorm; and the codes that bring rain are
/// the liquid precipitation and the thunderstorm without hail.
pub proof fn law_weather_kinds_are_disjoint(code: WeatherCode)
    ensures
        !(is_fog_kind(code) && is_wet_kind(code)),
        !(is_fog_kind(code) && is_snow_kind(code)),
        !(is_fog_kind(code) && is_storm_kind(code)),
        !(is_wet_kind(code) && is_snow_kind(code)),
        !(is_wet_kind(code) && is_storm_kind(code)),
        !(is_snow_kind(code) && is_storm_kind(code)),
        !(is_light_wet_kind(code) && is_heavy_wet_kind(code)),
        brings_rain(code) <==> (is_wet_kind(code) || code == WeatherCode::Thunderstorm),
{
}

/// The icon follows the kind of weather: every liquid precipitation shows
/// "rainy", snow "snowing", fog "foggy", a thunderstorm "thunderstorm", and
/// an unknown code shows no icon, no status image and no background.
pub proof fn law_icons_follow_kinds(code: WeatherCode, is_day: bool)
    ensures
        is_wet_kind(code) ==> icon_name(code, is_day) == "rainy"@,
        is_snow_kind(code) ==> icon_name(code, is_day) == "snowing"@,
        is_fog_kind(code) ==> icon_name(code, is_day) == "foggy"@,
        is_storm_kind(code) ==> icon_name(code, is_day) == "thunderstorm"@,
        code == WeatherCode::NoMatch ==> icon_name(code, is_day) == ""@ && status_image_resource(
            code,
            is_day,
        ) == ""@ && background_class(code, is_day) == ""@,
{
}

/// Only a clear or partly cloudy sky looks different by night: for every
/// other code the icon and the status image are the same by day and by
/// night.
pub proof fn law_only_clear_skies_differ_at_night(code: WeatherCode)
    requires
        !is_clear_kind(code),
        code != WeatherCode::PartlyCloudy,
    ensures
        icon_name(code, true) == icon_name(code, false),
        status_image_resource(code, true) == status_image_resource(code, false),
{
}

/// The night background of every known code is its day background with
/// "-night" appended.
pub proof fn law_night_background_extends_day_background(code: WeatherCode)
    requires
        code != WeatherCode::NoMatch,
    ensures
        background_class(code, false) == background_class(code, true) + "-night"@,
{
    reveal_strlit("-night");
    reveal_strlit("bg-weather-clear-sky");
    reveal_strlit("bg-weather-clear-sky-night");
    reveal_strlit("bg-weather-few-clouds");
    reveal_strlit("bg-weather-few-clouds-night");
    reveal_strlit("bg-weather-overcast");
    reveal_strlit("bg-weather-overcast-night");
    reveal_strlit("bg-weather-fog");
    reveal_strlit("bg-weather-fog-night");
    reveal_strlit("bg-weather-showers-scattered");
    reveal_strlit("bg-weather-showers-scattered-night");
    reveal_strlit("bg-weather-showers-large");
    reveal_strlit("bg-weather-showers-large-night");
    reveal_strlit("bg-weather-snow");
    reveal_strlit("bg-weather-snow-night");
    reveal_strlit("bg-weather-storm");
    reveal_strlit("bg-weather-storm-night");
    assert(background_class(code, false) =~= background_class(code, true) + "-night"@);
}

/// In daylight no status image is a night image: no code's day image ends in
/// "-night.svg". A clear or partly cloudy sky by night shows its day image
/// with "-night" put before ".svg"; every other code shows its day image by
/// night too.
pub proof fn law_night_images_only_by_night(code: WeatherCode)
    ensures
        !"-night.svg"@.is_suffix_of(status_image_resource(code, true)),
        ({
            let day = status_image_resource(code, true);
            let night = status_image_resource(code, false);
            if code == WeatherCode::ClearSky || code == WeatherCode::MainlyClear || code
                == WeatherCode::PartlyCloudy {
                &&& ".svg"@.is_suffix_of(day)
                &&& night == day.subrange(0, day.len() - 4) + "-night.svg"@
            } else {
                night == day
            }
        }),
{
    reveal_strlit("-night.svg");
    reveal_strlit(".svg");
    reveal_strlit("/com/github/leo030303/drizzle/weather_status_icons/drizzle-clear.svg");
    reveal_strlit("/com/github/leo030303/drizzle/weather_status_icons/drizzle-clear-night.svg");
    reveal_strlit("/com/github/leo030303/drizzle/weather_status_icons/drizzle-few-clouds.svg");
    reveal_strlit(
        "/com/github/leo030303/drizzle/weather_status_icons/drizzle-few-clouds-night.svg",
    );
    reveal_strlit("/com/github/leo030303/drizzle/weather_status_icons/drizzle-overcast.svg");
    reveal_strlit("/com/github/leo030303/drizzle/weather_status_icons/drizzle-fog.svg");
    reveal_strlit("/com/github/leo030303/drizzle/weather_status_icons/drizzle-showers.svg");
    reveal_strlit(
        "/com/github/leo030303/drizzle/weather_status_icons/drizzle-showers-scattered.svg",
    );
    reveal_strlit("/com/github/leo030303/drizzle/weather_status_icons/drizzle-snow.svg");
    reveal_strlit("/com/github/leo030303/drizzle/weather_status_icons/drizzle-storm.svg");
    reveal_strlit("");
    let day = status_image_resource(code, true);
    let night = status_image_resource(code, false);
    let tail = "-night.svg"@;
    if tail.len() <= day.len() {
        let end = day.subrange(day.len() - 10, day.len() as int);
        if is_clear_kind(code) {
            assert(end[1] != tail[1]);
        } else if code == WeatherCode::PartlyCloudy {
            assert(end[0] != tail[0]);
        } else if code == WeatherCode::Overcast {
            assert(end[0] != tail[0]);
        } else if is_fog_kind(code) {
            assert(end[0] != tail[0]);
        } else if is_light_wet_kind(code) {
            assert(end[0] != tail[0]);
        } else if is_heavy_wet_kind(code) {
            assert(end[0] != tail[0]);
        } else if is_snow_kind(code) {
            assert(end[0] != tail[0]);
        } else if is_storm_kind(code) {
            assert(end[1] != tail[1]);
        }
    }
    if is_clear_kind(code) || code == WeatherCode::PartlyCloudy {
        assert(".svg"@ =~= day.subrange(day.len() - 4, day.len() as int));
        assert(night =~= day.subrange(0, day.len() - 4) + "-night.svg"@);
    }
}

/// The look of a code: codes of one look share their icon, status image and
/// background (0 clear, 1 partly cloudy, 2 overcast, 3 fog, 4 light
/// precipitation, 5 heavy precipitation, 6 snow, 7 storm, 8 unknown).
pub open spec fn look(code: WeatherCode) -> int {
    if is_clear_kind(code) {
        0
    } else if code == WeatherCode::PartlyCloudy {
        1
    } else if code == WeatherCode::Overcast {
        2
    } else if is_fog_kind(code) {
        3
    } else if is_light_wet_kind(code) {
        4
    } else if is_heavy_wet_kind(code) {
        5
    } else if is_snow_kind(code) {
        6
    } else if is_storm_kind(code) {
        7
    } else {
        8
    }
}

proof fn lemma_status_image_tells_looks(c1: WeatherCode, c2: WeatherCode, is_day: bool)
    ensures
        status_image_resource(c1, is_day) == status_image_resource(c2, is_day) <==> look(c1)
            == look(c2),
{
    reveal_strlit("/com/github/leo030303/drizzle/weather_status_icons/drizzle-clear.svg");
    reveal_strlit("/com/github/leo030303/drizzle/weather_status_icons/drizzle-clear-night.svg");
    reveal_strlit("/com/github/leo030303/drizzle/weather_status_icons/drizzle-few-clouds.svg");
    reveal_strlit("/com/github/leo030303/drizzle/weather_status_icons/drizzle-few-clouds-night.svg");
    reveal_strlit("/com/github/leo030303/drizzle/weather_status_icons/drizzle-overcast.svg");
    reveal_strlit("/com/github/leo030303/drizzle/weather_status_icons/drizzle-fog.svg");
    reveal_strlit("/com/github/leo030303/drizzle/weather_status_icons/drizzle-showers.svg");
    reveal_strlit("/com/github/leo030303/drizzle/weather_status_icons/drizzle-showers-scattered.svg");
    reveal_strlit("/com/github/leo030303/drizzle/weather_status_icons/drizzle-snow.svg");
    reveal_strlit("/com/github/leo030303/drizzle/weather_status_icons/drizzle-storm.svg");
    reveal_strlit("");
    let s1 = status_image_resource(c1, is_day);
    let s2 = status_image_resource(c2, is_day);
    if look(c1) != look(c2) {
        if s1.len() == s2.len() {
            assert(s1[59] != s2[59]);
        }
    }
}

proof fn lemma_background_tells_looks(c1: WeatherCode, c2: WeatherCode, is_day: bool)
    ensures
        background_class(c1, is_day) == background_class(c2, is_day) <==> look(c1) == look(c2),
{
    reveal_strlit("bg-weather-clear-sky");
    reveal_strlit("bg-weather-clear-sky-night");
    reveal_strlit("bg-weather-few-clouds");
    reveal_strlit("bg-weather-few-clouds-night");
    reveal_strlit("bg-weather-overcast");
    reveal_strlit("bg-weather-overcast-night");
    reveal_strlit("bg-weather-fog");
    reveal_strlit("bg-weather-fog-night");
    reveal_strlit("bg-weather-showers-scattered");
    reveal_strlit("bg-weather-showers-scattered-night");
    reveal_strlit("bg-weather-showers-large");
    reveal_strlit("bg-weather-showers-large-night");
    reveal_strlit("bg-weather-snow");
    reveal_strlit("bg-weather-snow-night");
    reveal_strlit("bg-weather-storm");
    reveal_strlit("bg-weather-storm-night");
    reveal_strlit("");
    let s1 = background_class(c1, is_day);
    let s2 = background_class(c2, is_day);
    if look(c1) != look(c2) {
        assert(s1.len() != s2.len());
    }
}

/// The status image and the background class group the codes alike: two
/// codes share their status image exactly when they share their background,
/// by day and by night.
pub proof fn law_status_image_and_background_agree(c1: WeatherCode, c2: WeatherCode, is_day: bool)
    ensures
        status_image_resource(c1, is_day) == status_image_resource(c2, is_day) <==> background_class(
            c1,
            is_day,
        ) == background_class(c2, is_day),
{
    lemma_status_image_tells_looks(c1, c2, is_day);
    lemma_background_tells_looks(c1, c2, is_day);
}

} // verus!
