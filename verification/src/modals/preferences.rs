//! The preferences dialog: metric or imperial units.

use vstd::prelude::*;
use crate::text::text_eq;

verus! {

/// The preferences dialog; it keeps no state of its own.
#[derive(Debug, Clone, Copy)]
pub struct PreferencesDialog {}

/// The name of the units toggle that is on for a setting.
pub open spec fn unit_toggle_name(use_metric: bool) -> Seq<char> {
    if use_metric {
        "metric"@
    } else {
        "imperial"@
    }
}

impl PreferencesDialog {
    /// The name of the units toggle to turn on for the `use-metric` setting.
    pub fn active_unit_toggle(use_metric: bool) -> (r: &'static str)
        ensures
            r@ == unit_toggle_name(use_metric),
    {
        if use_metric {
            "metric"
        } else {
            "imperial"
        }
    }

    /// The `use-metric` setting for the units toggle that is on: metric only
    /// where the "metric" toggle is on.
    pub fn use_metric_for(active_name: Option<&str>) -> (r: bool)
        ensures
            r == (active_name matches Some(name) && name@ == "metric"@),
    {
        match active_name {
            Some(name) => text_eq(name, "metric"),
            None => false,
        }
    }
}

/// Turning on the toggle for a setting and reading the setting back from the
/// toggle gives the setting again.
pub proof fn law_units_toggle_round_trip(use_metric: bool)
    ensures
        (unit_toggle_name(use_metric) == "metric"@) == use_metric,
{
    reveal_strlit("metric");
    reveal_strlit("imperial");
    if !use_metric {
        assert("imperial"@[0] != "metric"@[0]);
    }
}

} // verus!
