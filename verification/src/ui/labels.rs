//! The units written after measurements.

use vstd::prelude::*;

verus! {

/// The unit of temperatures.
pub open spec fn temperature_unit_text(is_metric: bool) -> Seq<char> {
    if is_metric {
        "℃"@
    } else {
        "℉"@
    }
}

/// The unit of precipitation amounts.
pub open spec fn precipitation_unit_text(is_metric: bool) -> Seq<char> {
    if is_metric {
        "mm"@
    } else {
        "in"@
    }
}

/// The unit of wind speeds.
pub open spec fn wind_speed_unit_text(is_metric: bool) -> Seq<char> {
    if is_metric {
        "km/h"@
    } else {
        "mph"@
    }
}

/// The unit of temperatures: degrees Celsius or Fahrenheit.
pub fn temperature_unit(is_metric: bool) -> (r: &'static str)
    ensures
        r@ == temperature_unit_text(is_metric),
{
    if is_metric {
        "℃"
    } else {
        "℉"
    }
}

/// The unit of precipitation amounts: millimetres or inches.
pub fn precipitation_unit(is_metric: bool) -> (r: &'static str)
    ensures
        r@ == precipitation_unit_text(is_metric),
{
    if is_metric {
        "mm"
    } else {
        "in"
    }
}

/// The unit of wind speeds: kilometres or miles per hour.
pub fn wind_speed_unit(is_metric: bool) -> (r: &'static str)
    ensures
        r@ == wind_speed_unit_text(is_metric),
{
    if is_metric {
        "km/h"
    } else {
        "mph"
    }
}

} // verus!
