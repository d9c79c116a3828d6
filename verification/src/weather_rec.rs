//! Advice for the coming hours: what to wear and what to expect, each with the
//! span of time it holds for.

use vstd::prelude::*;
use crate::binary64::Binary64;
use crate::model::hourly_entry::HourlyEntry;
use crate::model::weather_code::{brings_rain, is_fog_kind, is_snow_kind, is_storm_kind, WeatherCode};
use crate::text::text_eq;
use crate::time_format::{hour_of_day_text, representable, twelve_hour_text};
use vstd::string::StringExecFns;
use crate::weather_api::uv_index::UvIndex;

verus! {

/// Bit pattern of 39.0 km/h (Beaufort 6, strong breeze): too much wind for an
/// umbrella.
pub const WINDS_UMBRELLA_THRESHOLD_METRIC_BITS: u64 = 0x4043_8000_0000_0000;

/// Bit pattern of 50.0 km/h (Beaufort 7, near gale).
pub const HIGH_WINDS_THRESHOLD_METRIC_BITS: u64 = 0x4049_0000_0000_0000;

/// Bit pattern of 20.0 °C: warm enough for shorts and summer clothes.
pub const SHORTS_TEMP_THRESHOLD_METRIC_BITS: u64 = 0x4034_0000_0000_0000;

/// Bit pattern of 15.0 °C: cold enough for a jumper or jacket.
pub const JUMPER_TEMP_THRESHOLD_METRIC_BITS: u64 = 0x402E_0000_0000_0000;

/// Bit pattern of 0.0 °C.
pub const FREEZING_TEMP_BITS: u64 = 0;

/// Seconds in one hour: the span of one hourly entry.
pub const SECONDS_PER_HOUR: i64 = 3600;

/// A piece of advice.
#[derive(Debug)]
pub enum WeatherRecommendation {
    LowUvRisk,
    HighUvRisk,
    ExpectRainStrongWinds,
    ExpectRainLightWinds,
    StrongWinds,
    ExpectStorm,
    ExpectSnow,
    ExpectFog,
    WearJumper,
    WearShorts,
    Freezing,
    Sunset(String),
    Sunrise(String),
}

/// A piece of advice with the span of time it holds for, from `start_time`
/// up to `end_time` (seconds since the Unix epoch).
#[derive(Debug)]
pub struct TimedRecommendation {
    pub recommendation: WeatherRecommendation,
    pub start_time: i64,
    pub end_time: i64,
}

/// How far ahead the advice looks.
#[derive(Debug, Clone, Copy, PartialEq, Eq, Structural)]
pub enum RecommendationTimespan {
    FourHour,
    EightHour,
    TwelveHour,
    TwentyFourHour,
}

/// Whether two pieces of advice are equal (the same variant; for sunset and
/// sunrise, the same text).
pub open spec fn same_recommendation(a: WeatherRecommendation, b: WeatherRecommendation) -> bool {
    match a {
        WeatherRecommendation::Sunset(x) => b matches WeatherRecommendation::Sunset(y) && x@ == y@,
        WeatherRecommendation::Sunrise(x) => b matches WeatherRecommendation::Sunrise(y) && x@ == y@,
        _ => a == b,
    }
}

impl Clone for WeatherRecommendation {
    fn clone(&self) -> (r: Self)
        ensures
            r == *self,
    {
        match self {
            WeatherRecommendation::LowUvRisk => WeatherRecommendation::LowUvRisk,
            WeatherRecommendation::HighUvRisk => WeatherRecommendation::HighUvRisk,
            WeatherRecommendation::ExpectRainStrongWinds => WeatherRecommendation::ExpectRainStrongWinds,
            WeatherRecommendation::ExpectRainLightWinds => WeatherRecommendation::ExpectRainLightWinds,
            WeatherRecommendation::StrongWinds => WeatherRecommendation::StrongWinds,
            WeatherRecommendation::ExpectStorm => WeatherRecommendation::ExpectStorm,
            WeatherRecommendation::ExpectSnow => WeatherRecommendation::ExpectSnow,
            WeatherRecommendation::ExpectFog => WeatherRecommendation::ExpectFog,
            WeatherRecommendation::WearJumper => WeatherRecommendation::WearJumper,
            WeatherRecommendation::WearShorts => WeatherRecommendation::WearShorts,
            WeatherRecommendation::Freezing => WeatherRecommendation::Freezing,
            WeatherRecommendation::Sunset(t) => WeatherRecommendation::Sunset(t.clone()),
            WeatherRecommendation::Sunrise(t) => WeatherRecommendation::Sunrise(t.clone()),
        }
    }
}

impl PartialEq for WeatherRecommendation {
    fn eq(&self, other: &Self) -> (r: bool) {
        match (self, other) {
            (WeatherRecommendation::LowUvRisk, WeatherRecommendation::LowUvRisk) => true,
            (WeatherRecommendation::HighUvRisk, WeatherRecommendation::HighUvRisk) => true,
            (
                WeatherRecommendation::ExpectRainStrongWinds,
                WeatherRecommendation::ExpectRainStrongWinds,
            ) => true,
            (
                WeatherRecommendation::ExpectRainLightWinds,
                WeatherRecommendation::ExpectRainLightWinds,
            ) => true,
            (WeatherRecommendation::StrongWinds, WeatherRecommendation::StrongWinds) => true,
            (WeatherRecommendation::ExpectStorm, WeatherRecommendation::ExpectStorm) => true,
            (WeatherRecommendation::ExpectSnow, WeatherRecommendation::ExpectSnow) => true,
            (WeatherRecommendation::ExpectFog, WeatherRecommendation::ExpectFog) => true,
            (WeatherRecommendation::WearJumper, WeatherRecommendation::WearJumper) => true,
            (WeatherRecommendation::WearShorts, WeatherRecommendation::WearShorts) => true,
            (WeatherRecommendation::Freezing, WeatherRecommendation::Freezing) => true,
            (WeatherRecommendation::Sunset(x), WeatherRecommendation::Sunset(y)) => x.eq(y),
            (WeatherRecommendation::Sunrise(x), WeatherRecommendation::Sunrise(y)) => x.eq(y),
            _ => false,
        }
    }
}

impl vstd::std_specs::cmp::PartialEqSpecImpl for WeatherRecommendation {
    open spec fn obeys_eq_spec() -> bool {
        true
    }

    open spec fn eq_spec(&self, other: &WeatherRecommendation) -> bool {
        same_recommendation(*self, *other)
    }
}

/// The words that introduce a piece of advice, before its span of time.
pub open spec fn advice_words(r: WeatherRecommendation) -> Seq<char> {
    match r {
        WeatherRecommendation::LowUvRisk => "Wear suncream: "@,
        WeatherRecommendation::HighUvRisk => "Avoid direct sunlight: "@,
        WeatherRecommendation::ExpectRainStrongWinds => "Expect rain and strong winds: "@,
        WeatherRecommendation::ExpectRainLightWinds => "Expect rain and light winds: "@,
        WeatherRecommendation::StrongWinds => "Expect strong winds: "@,
        WeatherRecommendation::ExpectStorm => "Expect a storm: "@,
        WeatherRecommendation::ExpectSnow => "Expect snow: "@,
        WeatherRecommendation::ExpectFog => "Expect fog: "@,
        WeatherRecommendation::WearJumper => "Jumper weather: "@,
        WeatherRecommendation::WearShorts => "Shorts weather: "@,
        WeatherRecommendation::Freezing => "Freezing: "@,
        WeatherRecommendation::Sunset(_) => "Sunset at "@,
        WeatherRecommendation::Sunrise(_) => "Sunrise at "@,
    }
}

/// The text shown for a timed piece of advice: the advice, then its span as
/// hours of the day ("Expect snow:  3pm -  5pm"); sunset and sunrise show
/// their own time instead.
pub open spec fn recommendation_text(t: TimedRecommendation) -> Seq<char> {
    match t.recommendation {
        WeatherRecommendation::Sunset(time) => advice_words(t.recommendation) + time@,
        WeatherRecommendation::Sunrise(time) => advice_words(t.recommendation) + time@,
        _ => advice_words(t.recommendation) + twelve_hour_text(t.start_time) + " - "@
            + twelve_hour_text(t.end_time),
    }
}

impl TimedRecommendation {
    /// The text shown for this piece of advice.
    pub fn get_text(&self) -> (r: String)
        requires
            representable(self.start_time),
            representable(self.end_time),
        ensures
            r@ == recommendation_text(*self),
    {
        let start_time = hour_of_day_text(self.start_time);
        let end_time = hour_of_day_text(self.end_time);
        let words = match &self.recommendation {
            WeatherRecommendation::LowUvRisk => "Wear suncream: ",
            WeatherRecommendation::HighUvRisk => "Avoid direct sunlight: ",
            WeatherRecommendation::ExpectRainStrongWinds => "Expect rain and strong winds: ",
            WeatherRecommendation::ExpectRainLightWinds => "Expect rain and light winds: ",
            WeatherRecommendation::StrongWinds => "Expect strong winds: ",
            WeatherRecommendation::ExpectStorm => "Expect a storm: ",
            WeatherRecommendation::ExpectSnow => "Expect snow: ",
            WeatherRecommendation::ExpectFog => "Expect fog: ",
            WeatherRecommendation::WearJumper => "Jumper weather: ",
            WeatherRecommendation::WearShorts => "Shorts weather: ",
            WeatherRecommendation::Freezing => "Freezing: ",
            WeatherRecommendation::Sunset(_) => "Sunset at ",
            WeatherRecommendation::Sunrise(_) => "Sunrise at ",
        };
        let mut text = String::from_str(words);
        match &self.recommendation {
            WeatherRecommendation::Sunset(time) => {
                text.append(time.as_str());
            },
            WeatherRecommendation::Sunrise(time) => {
                text.append(time.as_str());
            },
            _ => {
                text.append(start_time.as_str());
                text.append(" - ");
                text.append(end_time.as_str());
            },
        }
        text
    }
}

impl Clone for TimedRecommendation {
    fn clone(&self) -> (r: Self)
        ensures
            r == *self,
    {
        TimedRecommendation {
            recommendation: self.recommendation.clone(),
            start_time: self.start_time,
            end_time: self.end_time,
        }
    }
}

/// The name under which a timespan is stored and shown as a toggle.
pub open spec fn timespan_name(timespan: RecommendationTimespan) -> Seq<char> {
    match timespan {
        RecommendationTimespan::FourHour => "FourHour"@,
        RecommendationTimespan::EightHour => "EightHour"@,
        RecommendationTimespan::TwelveHour => "TwelveHour"@,
        RecommendationTimespan::TwentyFourHour => "TwentyFourHour"@,
    }
}

/// The timespan stored under a name; an unknown name gives the longest.
pub open spec fn timespan_named(name: Seq<char>) -> RecommendationTimespan {
    if name == "FourHour"@ {
        RecommendationTimespan::FourHour
    } else if name == "EightHour"@ {
        RecommendationTimespan::EightHour
    } else if name == "TwelveHour"@ {
        RecommendationTimespan::TwelveHour
    } else {
        RecommendationTimespan::TwentyFourHour
    }
}

/// The number of hours a timespan looks ahead.
pub open spec fn timespan_hours(timespan: RecommendationTimespan) -> int {
    match timespan {
        RecommendationTimespan::FourHour => 4,
        RecommendationTimespan::EightHour => 8,
        RecommendationTimespan::TwelveHour => 12,
        RecommendationTimespan::TwentyFourHour => 24,
    }
}

impl RecommendationTimespan {
    /// The name under which the timespan is stored and shown as a toggle.
    pub fn to_name(&self) -> (r: &'static str)
        ensures
            r@ == timespan_name(*self),
    {
        match self {
            RecommendationTimespan::FourHour => "FourHour",
            RecommendationTimespan::EightHour => "EightHour",
            RecommendationTimespan::TwelveHour => "TwelveHour",
            RecommendationTimespan::TwentyFourHour => "TwentyFourHour",
        }
    }

    /// The timespan stored under `name`; an unknown name gives the longest
    /// (twenty-four hours).
    pub fn from_name(name: &str) -> (r: Self)
        ensures
            r == timespan_named(name@),
    {
        if text_eq(name, "FourHour") {
            RecommendationTimespan::FourHour
        } else if text_eq(name, "EightHour") {
            RecommendationTimespan::EightHour
        } else if text_eq(name, "TwelveHour") {
            RecommendationTimespan::TwelveHour
        } else {
            RecommendationTimespan::TwentyFourHour
        }
    }

    /// The number of hours the timespan looks ahead.
    pub fn hours(&self) -> (r: usize)
        ensures
            r == timespan_hours(*self),
    {
        match self {
            RecommendationTimespan::FourHour => 4,
            RecommendationTimespan::EightHour => 8,
            RecommendationTimespan::TwelveHour => 12,
            RecommendationTimespan::TwentyFourHour => 24,
        }
    }
}

/// The one-element sequence of `r` where `cond` holds, else the empty one.
pub open spec fn advice_if(cond: bool, r: WeatherRecommendation) -> Seq<WeatherRecommendation> {
    if cond {
        seq![r]
    } else {
        Seq::empty()
    }
}

/// Advice about the sun for a UV index band.
pub open spec fn uv_advice(band: UvIndex) -> Seq<WeatherRecommendation> {
    match band {
        UvIndex::Low => Seq::empty(),
        UvIndex::Moderate | UvIndex::High => seq![WeatherRecommendation::LowUvRisk],
        UvIndex::VeryHigh | UvIndex::Extreme => seq![WeatherRecommendation::HighUvRisk],
    }
}

/// Advice about rain: a coat where the wind is above 39 km/h, an umbrella
/// otherwise.
pub open spec fn rain_advice(entry: HourlyEntry) -> Seq<WeatherRecommendation> {
    if brings_rain(entry.weathercode) {
        if entry.windspeed_10m.is_greater(Binary64 { bits: WINDS_UMBRELLA_THRESHOLD_METRIC_BITS }) {
            seq![WeatherRecommendation::ExpectRainStrongWinds]
        } else {
            seq![WeatherRecommendation::ExpectRainLightWinds]
        }
    } else {
        Seq::empty()
    }
}

/// Advice about clothes: shorts above 20 °C felt, a jumper below 15 °C felt.
pub open spec fn clothing_advice(entry: HourlyEntry) -> Seq<WeatherRecommendation> {
    if entry.apparent_temperature.is_greater(Binary64 { bits: SHORTS_TEMP_THRESHOLD_METRIC_BITS }) {
        seq![WeatherRecommendation::WearShorts]
    } else if entry.apparent_temperature.is_less(
        Binary64 { bits: JUMPER_TEMP_THRESHOLD_METRIC_BITS },
    ) {
        seq![WeatherRecommendation::WearJumper]
    } else {
        Seq::empty()
    }
}

/// The advice for one hour, in the order it is given.
#[verifier::opaque]
pub open spec fn hour_recommendations(entry: HourlyEntry) -> Seq<WeatherRecommendation> {
    uv_advice(entry.uv_index) + advice_if(
        entry.windspeed_10m.is_greater(Binary64 { bits: HIGH_WINDS_THRESHOLD_METRIC_BITS }),
        WeatherRecommendation::StrongWinds,
    ) + rain_advice(entry) + advice_if(
        is_snow_kind(entry.weathercode),
        WeatherRecommendation::ExpectSnow,
    ) + advice_if(is_storm_kind(entry.weathercode), WeatherRecommendation::ExpectStorm)
        + advice_if(is_fog_kind(entry.weathercode), WeatherRecommendation::ExpectFog)
        + clothing_advice(entry) + advice_if(
        entry.temperature_2m.is_at_most(Binary64 { bits: FREEZING_TEMP_BITS }),
        WeatherRecommendation::Freezing,
    )
}

/// Appends `r` where `cond` holds.
fn push_if(list: &mut Vec<WeatherRecommendation>, cond: bool, r: WeatherRecommendation)
    ensures
        final(list)@ == old(list)@ + advice_if(cond, r),
{
    if cond {
        list.push(r);
    } else {
        assert(old(list)@ + Seq::<WeatherRecommendation>::empty() =~= old(list)@);
    }
}

/// Appends the advice about the sun.
fn push_uv_advice(list: &mut Vec<WeatherRecommendation>, band: UvIndex)
    ensures
        final(list)@ == old(list)@ + uv_advice(band),
{
    match band {
        UvIndex::Low => {
            assert(old(list)@ + Seq::<WeatherRecommendation>::empty() =~= old(list)@);
        },
        UvIndex::Moderate => list.push(WeatherRecommendation::LowUvRisk),
        UvIndex::High => list.push(WeatherRecommendation::LowUvRisk),
        UvIndex::VeryHigh => list.push(WeatherRecommendation::HighUvRisk),
        UvIndex::Extreme => list.push(WeatherRecommendation::HighUvRisk),
    }
}

/// Appends the advice about rain: where there is rain, an umbrella, unless
/// it is too windy, and then a coat.
fn push_rain_advice(list: &mut Vec<WeatherRecommendation>, entry: &HourlyEntry)
    ensures
        final(list)@ == old(list)@ + rain_advice(*entry),
{
    if entry.weathercode.is_rain() {
        if entry.windspeed_10m.greater_than(
            &Binary64 { bits: WINDS_UMBRELLA_THRESHOLD_METRIC_BITS },
        ) {
            list.push(WeatherRecommendation::ExpectRainStrongWinds);
        } else {
            list.push(WeatherRecommendation::ExpectRainLightWinds);
        }
    } else {
        assert(old(list)@ + Seq::<WeatherRecommendation>::empty() =~= old(list)@);
    }
}

/// Appends the advice about clothes.
fn push_clothing_advice(list: &mut Vec<WeatherRecommendation>, entry: &HourlyEntry)
    ensures
        final(list)@ == old(list)@ + clothing_advice(*entry),
{
    if entry.apparent_temperature.greater_than(
        &Binary64 { bits: SHORTS_TEMP_THRESHOLD_METRIC_BITS },
    ) {
        list.push(WeatherRecommendation::WearShorts);
    } else if entry.apparent_temperature.less_than(
        &Binary64 { bits: JUMPER_TEMP_THRESHOLD_METRIC_BITS },
    ) {
        list.push(WeatherRecommendation::WearJumper);
    } else {
        assert(old(list)@ + Seq::<WeatherRecommendation>::empty() =~= old(list)@);
    }
}

/// The advice for one hour, in the order it is given.
pub fn recommendations_for_hour(entry: &HourlyEntry) -> (r: Vec<WeatherRecommendation>)
    ensures
        r@ == hour_recommendations(*entry),
{
    proof {
        reveal(hour_recommendations);
    }
    let mut list: Vec<WeatherRecommendation> = Vec::new();
    push_uv_advice(&mut list, entry.uv_index);
    assert(list@ =~= uv_advice(entry.uv_index));
    let strong_winds = entry.windspeed_10m.greater_than(
        &Binary64 { bits: HIGH_WINDS_THRESHOLD_METRIC_BITS },
    );
    push_if(&mut list, strong_winds, WeatherRecommendation::StrongWinds);
    push_rain_advice(&mut list, entry);
    let snow = entry.weathercode.is_snow();
    push_if(&mut list, snow, WeatherRecommendation::ExpectSnow);
    let storm = entry.weathercode.is_storm();
    push_if(&mut list, storm, WeatherRecommendation::ExpectStorm);
    let fog = entry.weathercode.is_fog();
    push_if(&mut list, fog, WeatherRecommendation::ExpectFog);
    push_clothing_advice(&mut list, entry);
    let freezing = entry.temperature_2m.at_most(&Binary64 { bits: FREEZING_TEMP_BITS });
    push_if(&mut list, freezing, WeatherRecommendation::Freezing);
    list
}

/// A piece of advice with its span as integers: (advice, start, end).
pub open spec fn advice_view(t: TimedRecommendation) -> (WeatherRecommendation, int, int) {
    (t.recommendation, t.start_time as int, t.end_time as int)
}

/// The spans of advice that a list of timed recommendations holds.
pub open spec fn timeline_view(list: Seq<TimedRecommendation>) -> Seq<(WeatherRecommendation, int, int)> {
    list.map_values(|t: TimedRecommendation| advice_view(t))
}

/// The advice for one hour, each piece spanning that hour.
pub open spec fn timed_advice(entry: HourlyEntry) -> Seq<(WeatherRecommendation, int, int)> {
    hour_recommendations(entry).map_values(
        |r: WeatherRecommendation| (r, entry.time as int, entry.time + SECONDS_PER_HOUR),
    )
}

/// The advice for each hour of `entries`, hour after hour, each piece
/// spanning its hour.
pub open spec fn advice_timeline(entries: Seq<HourlyEntry>) -> Seq<(WeatherRecommendation, int, int)>
    decreases entries.len(),
{
    if entries.len() == 0 {
        Seq::empty()
    } else {
        advice_timeline(entries.drop_last()) + timed_advice(entries.last())
    }
}

/// Whether a span of advice `r` that starts at `start` continues `item`: the
/// same advice, ending where the new span starts.
pub open spec fn continues(
    item: (WeatherRecommendation, int, int),
    r: WeatherRecommendation,
    start: int,
) -> bool {
    same_recommendation(item.0, r) && item.2 == start
}

/// The first index from `i` on of a span in `acc` that advice `r` starting
/// at `start` continues, or -1 where there is none.
pub open spec fn continued_index_from(
    acc: Seq<(WeatherRecommendation, int, int)>,
    r: WeatherRecommendation,
    start: int,
    i: nat,
) -> int
    decreases acc.len() - i,
{
    if i >= acc.len() {
        -1
    } else if continues(acc[i as int], r, start) {
        i as int
    } else {
        continued_index_from(acc, r, start, i + 1)
    }
}

/// Adds one span of advice to the grouped spans: the first span it continues
/// is stretched to its end; where it continues none, it is appended.
pub open spec fn merge_step(
    acc: Seq<(WeatherRecommendation, int, int)>,
    t: (WeatherRecommendation, int, int),
) -> Seq<(WeatherRecommendation, int, int)> {
    let j = continued_index_from(acc, t.0, t.1, 0);
    if j >= 0 {
        acc.update(j, (acc[j].0, acc[j].1, t.2))
    } else {
        acc.push(t)
    }
}

/// The spans of advice grouped, one after another, by `merge_step`.
pub open spec fn group_timeline(raw: Seq<(WeatherRecommendation, int, int)>) -> Seq<
    (WeatherRecommendation, int, int),
>
    decreases raw.len(),
{
    if raw.len() == 0 {
        Seq::empty()
    } else {
        merge_step(group_timeline(raw.drop_last()), raw.last())
    }
}

/// The hours that advice is given for: the first hours of the timespan, or
/// none at all where the forecast is shorter than the timespan.
pub open spec fn considered_hours(
    entries: Seq<HourlyEntry>,
    timespan: RecommendationTimespan,
) -> Seq<HourlyEntry> {
    if entries.len() >= timespan_hours(timespan) {
        entries.take(timespan_hours(timespan))
    } else {
        Seq::empty()
    }
}

/// The grouped advice for a forecast and a timespan.
pub open spec fn recommendations_of(
    entries: Seq<HourlyEntry>,
    timespan: RecommendationTimespan,
) -> Seq<(WeatherRecommendation, int, int)> {
    group_timeline(advice_timeline(considered_hours(entries, timespan)))
}

/// Whether every considered hour starts early enough that its end is a
/// valid time.
pub open spec fn hours_end_in_range(entries: Seq<HourlyEntry>) -> bool {
    forall|i: int|
        0 <= i < entries.len() ==> #[trigger] entries[i].time + SECONDS_PER_HOUR <= i64::MAX
}

/// Whether every hour that advice would be given for ends at a valid time.
pub fn considered_hours_end_in_range(
    weather_conditions: &[HourlyEntry],
    timespan: &RecommendationTimespan,
) -> (r: bool)
    ensures
        r == hours_end_in_range(considered_hours(weather_conditions@, *timespan)),
{
    let span = timespan.hours();
    if weather_conditions.len() < span {
        return true;
    }
    let ghost hours = considered_hours(weather_conditions@, *timespan);
    for i in 0..span
        invariant
            span == hours.len(),
            span <= weather_conditions@.len(),
            hours == weather_conditions@.take(span as int),
            hours == considered_hours(weather_conditions@, *timespan),
            forall|j: int| 0 <= j < i ==> #[trigger] hours[j].time + SECONDS_PER_HOUR <= i64::MAX,
    {
        if weather_conditions[i].time > i64::MAX - SECONDS_PER_HOUR {
            assert(hours[i as int] == weather_conditions@[i as int]);
            assert(!(hours[i as int].time + SECONDS_PER_HOUR <= i64::MAX));
            return false;
        }
    }
    true
}

/// Adds one span of advice to `grouped` as `merge_step` says.
fn merge_into(
    grouped: &mut Vec<TimedRecommendation>,
    rec: WeatherRecommendation,
    start: i64,
    end: i64,
)
    ensures
        timeline_view(final(grouped)@) == merge_step(
            timeline_view(old(grouped)@),
            (rec, start as int, end as int),
        ),
{
    let ghost acc = timeline_view(grouped@);
    let n = grouped.len();
    let mut j: usize = 0;
    while j < n
        invariant
            n == grouped@.len(),
            acc == timeline_view(grouped@),
            grouped@ == old(grouped)@,
            0 <= j <= n,
            continued_index_from(acc, rec, start as int, 0) == continued_index_from(
                acc,
                rec,
                start as int,
                j as nat,
            ),
        decreases n - j,
    {
        if grouped[j].recommendation == rec && grouped[j].end_time == start {
            let updated = TimedRecommendation {
                recommendation: grouped[j].recommendation.clone(),
                start_time: grouped[j].start_time,
                end_time: end,
            };
            grouped.set(j, updated);
            assert(timeline_view(grouped@) =~= acc.update(
                j as int,
                (acc[j as int].0, acc[j as int].1, end as int),
            ));
            return;
        }
        j = j + 1;
    }
    grouped.push(TimedRecommendation { recommendation: rec, start_time: start, end_time: end });
    assert(timeline_view(grouped@) =~= acc.push((rec, start as int, end as int)));
}

/// The advice for the first hours of the forecast: for each hour, the advice
/// about the sun (UV index), strong winds (above 50 km/h), rain (with strong
/// winds above 39 km/h), snow, storms, fog, clothes (shorts above 20 °C felt,
/// a jumper below 15 °C felt) and frost (0 °C or below). A piece of advice
/// for an hour that starts when a span of the same advice ends stretches
/// that span. A forecast shorter than the timespan gets no advice.
pub fn get_recommendations(
    weather_conditions: &[HourlyEntry],
    timespan: &RecommendationTimespan,
) -> (r: Vec<TimedRecommendation>)
    requires
        hours_end_in_range(considered_hours(weather_conditions@, *timespan)),
    ensures
        timeline_view(r@) == recommendations_of(weather_conditions@, *timespan),
{
    let span = timespan.hours();
    let count = if weather_conditions.len() >= span {
        span
    } else {
        0
    };
    let ghost hours = considered_hours(weather_conditions@, *timespan);
    assert(hours.len() == count);
    let mut grouped: Vec<TimedRecommendation> = Vec::new();
    for i in 0..count
        invariant
            count == hours.len(),
            count <= weather_conditions@.len(),
            hours == considered_hours(weather_conditions@, *timespan),
            hours_end_in_range(hours),
            timeline_view(grouped@) == group_timeline(advice_timeline(hours.take(i as int))),
    {
        let entry = &weather_conditions[i];
        assert(hours[i as int] == *entry);
        let recs = recommendations_for_hour(entry);
        let start = entry.time;
        assert(hours[i as int].time + SECONDS_PER_HOUR <= i64::MAX);
        let end = entry.time + SECONDS_PER_HOUR;
        let ghost before = advice_timeline(hours.take(i as int));
        let ghost this_hour = timed_advice(*entry);
        let m = recs.len();
        for k in 0..m
            invariant
                m == recs@.len(),
                recs@ == hour_recommendations(*entry),
                this_hour == timed_advice(*entry),
                start == entry.time,
                end == entry.time + SECONDS_PER_HOUR,
                timeline_view(grouped@) == group_timeline(before + this_hour.take(k as int)),
        {
            let rec = recs[k].clone();
            merge_into(&mut grouped, rec, start, end);
            assert((before + this_hour.take(k + 1)).drop_last() =~= before + this_hour.take(
                k as int,
            ));
            assert(this_hour[k as int] == (rec, start as int, end as int));
        }
        assert(this_hour.take(m as int) =~= this_hour);
        assert(hours.take(i + 1).drop_last() =~= hours.take(i as int));
        assert(hours.take(i + 1).last() == *entry);
    }
    assert(hours.take(count as int) =~= hours);
    grouped
}

/// Whether `item` is a span of the same advice as `t` that contains all of
/// the span of `t`.
pub open spec fn covers(item: (WeatherRecommendation, int, int), t: (WeatherRecommendation, int, int)) -> bool {
    same_recommendation(item.0, t.0) && item.1 <= t.1 && t.2 <= item.2
}

/// Whether some span of `spans` covers `t`.
pub open spec fn covered_in(
    spans: Seq<(WeatherRecommendation, int, int)>,
    t: (WeatherRecommendation, int, int),
) -> bool {
    exists|m: int| 0 <= m < spans.len() && covers(#[trigger] spans[m], t)
}

/// Whether some span of `raw` has the advice and the start of `item`.
pub open spec fn started_in(
    raw: Seq<(WeatherRecommendation, int, int)>,
    item: (WeatherRecommendation, int, int),
) -> bool {
    exists|idx: int| 0 <= idx < raw.len() && #[trigger] raw[idx].0 == item.0 && raw[idx].1 == item.1
}

/// Whether `t` is one of the spans of `spans`.
pub open spec fn listed_in(spans: Seq<(WeatherRecommendation, int, int)>, t: (WeatherRecommendation, int, int)) -> bool {
    exists|idx: int| 0 <= idx < spans.len() && #[trigger] spans[idx] == t
}

/// Whether `t` is a piece of advice for one of `hours`, spanning that hour.
pub open spec fn advised_in(hours: Seq<HourlyEntry>, t: (WeatherRecommendation, int, int)) -> bool {
    exists|i: int, k: int|
        0 <= i < hours.len() && 0 <= k < hour_recommendations(hours[i]).len()
            && #[trigger] timed_advice(hours[i])[k] == t
}

/// Whether every span of `raw` lasts at least an hour.
pub open spec fn spans_last_an_hour(raw: Seq<(WeatherRecommendation, int, int)>) -> bool {
    forall|m: int| 0 <= m < raw.len() ==> #[trigger] raw[m].1 + SECONDS_PER_HOUR <= raw[m].2
}

/// Whether every span of `raw` lasts exactly an hour.
pub open spec fn spans_are_hours(raw: Seq<(WeatherRecommendation, int, int)>) -> bool {
    forall|m: int| 0 <= m < raw.len() ==> #[trigger] raw[m].1 + SECONDS_PER_HOUR == raw[m].2
}

proof fn lemma_continued_index(
    acc: Seq<(WeatherRecommendation, int, int)>,
    r: WeatherRecommendation,
    start: int,
    i: nat,
)
    ensures
        ({
            let j = continued_index_from(acc, r, start, i);
            &&& j == -1 || (i <= j < acc.len() && continues(acc[j], r, start))
            &&& forall|k: int|
                i <= k < acc.len() && (j == -1 || k < j) ==> !continues(#[trigger] acc[k], r, start)
        }),
    decreases acc.len() - i,
{
    if i < acc.len() && !continues(acc[i as int], r, start) {
        lemma_continued_index(acc, r, start, i + 1);
    }
}

proof fn lemma_group_timeline(raw: Seq<(WeatherRecommendation, int, int)>)
    requires
        spans_are_hours(raw),
    ensures
        spans_last_an_hour(group_timeline(raw)),
        forall|idx: int| 0 <= idx < raw.len() ==> covered_in(group_timeline(raw), #[trigger] raw[idx]),
        forall|m: int|
            0 <= m < group_timeline(raw).len() ==> started_in(raw, #[trigger] group_timeline(raw)[m]),
    decreases raw.len(),
{
    if raw.len() > 0 {
        let prev = raw.drop_last();
        let t = raw.last();
        assert(spans_are_hours(prev)) by {
            assert forall|m: int| 0 <= m < prev.len() implies #[trigger] prev[m].1 + SECONDS_PER_HOUR
                == prev[m].2 by {
                assert(prev[m] == raw[m]);
            }
        }
        lemma_group_timeline(prev);
        let g0 = group_timeline(prev);
        let g = group_timeline(raw);
        assert(t == raw[raw.len() - 1]);
        assert(t.1 + SECONDS_PER_HOUR == t.2);
        lemma_continued_index(g0, t.0, t.1, 0);
        let j = continued_index_from(g0, t.0, t.1, 0);
        assert(g == merge_step(g0, t));
        assert forall|m: int| 0 <= m < g.len() implies #[trigger] g[m].1 + SECONDS_PER_HOUR <= g[m].2 by {
            if j < 0 && m == g.len() - 1 {
            } else {
                assert(g0[m].1 + SECONDS_PER_HOUR <= g0[m].2);
            }
        }
        assert forall|idx: int| 0 <= idx < raw.len() implies covered_in(g, #[trigger] raw[idx]) by {
            if idx == raw.len() - 1 {
                if j >= 0 {
                    assert(g0[j].1 + SECONDS_PER_HOUR <= g0[j].2);
                    assert(covers(g[j], raw[idx]));
                } else {
                    assert(covers(g[g.len() - 1], raw[idx]));
                }
            } else {
                assert(raw[idx] == prev[idx]);
                assert(covered_in(g0, prev[idx]));
                let m0 = choose|m: int| 0 <= m < g0.len() && covers(#[trigger] g0[m], prev[idx]);
                assert(covers(g[m0], raw[idx]));
            }
        }
        assert forall|m: int| 0 <= m < g.len() implies started_in(raw, #[trigger] g[m]) by {
            if j < 0 && m == g.len() - 1 {
                assert(raw[raw.len() - 1].0 == g[m].0);
            } else {
                assert(started_in(prev, g0[m]));
                let idx0 = choose|idx: int|
                    0 <= idx < prev.len() && #[trigger] prev[idx].0 == g0[m].0 && prev[idx].1
                        == g0[m].1;
                assert(raw[idx0] == prev[idx0]);
            }
        }
    }
}

proof fn lemma_timed_advice(entry: HourlyEntry)
    ensures
        timed_advice(entry).len() == hour_recommendations(entry).len(),
        forall|k: int|
            0 <= k < timed_advice(entry).len() ==> #[trigger] timed_advice(entry)[k] == (
                hour_recommendations(entry)[k],
                entry.time as int,
                entry.time + SECONDS_PER_HOUR,
            ),
{
}

proof fn lemma_advice_timeline(hours: Seq<HourlyEntry>)
    ensures
        spans_are_hours(advice_timeline(hours)),
        forall|i: int, k: int|
            0 <= i < hours.len() && 0 <= k < hour_recommendations(hours[i]).len() ==> listed_in(
                advice_timeline(hours),
                #[trigger] timed_advice(hours[i])[k],
            ),
        forall|idx: int|
            0 <= idx < advice_timeline(hours).len() ==> advised_in(
                hours,
                #[trigger] advice_timeline(hours)[idx],
            ),
    decreases hours.len(),
{
    if hours.len() > 0 {
        let prev = hours.drop_last();
        let e = hours.last();
        lemma_advice_timeline(prev);
        lemma_timed_advice(e);
        let tl0 = advice_timeline(prev);
        let ta = timed_advice(e);
        let tl = advice_timeline(hours);
        assert(tl == tl0 + ta);
        assert forall|m: int| 0 <= m < tl.len() implies #[trigger] tl[m].1 + SECONDS_PER_HOUR
            == tl[m].2 by {
            if m >= tl0.len() {
                assert(tl[m] == ta[m - tl0.len()]);
            } else {
                assert(tl[m] == tl0[m]);
            }
        }
        assert forall|i: int, k: int|
            0 <= i < hours.len() && 0 <= k < hour_recommendations(hours[i]).len() implies listed_in(
                tl,
                #[trigger] timed_advice(hours[i])[k],
            ) by {
            if i == hours.len() - 1 {
                assert(tl[tl0.len() + k] == ta[k]);
            } else {
                assert(hours[i] == prev[i]);
                assert(listed_in(tl0, timed_advice(prev[i])[k]));
                let idx0 = choose|idx: int|
                    0 <= idx < tl0.len() && #[trigger] tl0[idx] == timed_advice(prev[i])[k];
                assert(tl[idx0] == tl0[idx0]);
            }
        }
        assert forall|idx: int| 0 <= idx < tl.len() implies advised_in(hours, #[trigger] tl[idx]) by {
            if idx >= tl0.len() {
                let k = idx - tl0.len();
                assert(tl[idx] == timed_advice(hours[hours.len() - 1])[k]);
            } else {
                assert(tl[idx] == tl0[idx]);
                assert(advised_in(prev, tl0[idx]));
                let (i0, k0) = choose|i: int, k: int|
                    0 <= i < prev.len() && 0 <= k < hour_recommendations(prev[i]).len()
                        && #[trigger] timed_advice(prev[i])[k] == tl0[idx];
                assert(hours[i0] == prev[i0]);
            }
        }
    }
}

/// Every piece of advice for a considered hour is given: the result holds a
/// span of the same advice that contains the whole hour.
pub proof fn law_every_hour_is_covered(
    entries: Seq<HourlyEntry>,
    timespan: RecommendationTimespan,
    i: int,
    k: int,
)
    requires
        0 <= i < considered_hours(entries, timespan).len(),
        0 <= k < hour_recommendations(considered_hours(entries, timespan)[i]).len(),
    ensures
        ({
            let hour = considered_hours(entries, timespan)[i];
            covered_in(
                recommendations_of(entries, timespan),
                (hour_recommendations(hour)[k], hour.time as int, hour.time + SECONDS_PER_HOUR),
            )
        }),
{
    let hours = considered_hours(entries, timespan);
    let raw = advice_timeline(hours);
    lemma_advice_timeline(hours);
    lemma_group_timeline(raw);
    lemma_timed_advice(hours[i]);
    assert(listed_in(raw, timed_advice(hours[i])[k]));
    let idx = choose|idx: int| 0 <= idx < raw.len() && #[trigger] raw[idx] == timed_advice(hours[i])[k];
    assert(covered_in(group_timeline(raw), raw[idx]));
}

/// Every span in the result lasts at least one hour, and starts at a
/// considered hour for which the same advice is given.
pub proof fn law_spans_start_at_advised_hours(
    entries: Seq<HourlyEntry>,
    timespan: RecommendationTimespan,
    m: int,
)
    requires
        0 <= m < recommendations_of(entries, timespan).len(),
    ensures
        ({
            let out = recommendations_of(entries, timespan);
            let hours = considered_hours(entries, timespan);
            &&& out[m].1 + SECONDS_PER_HOUR <= out[m].2
            &&& exists|i: int, k: int|
                0 <= i < hours.len() && 0 <= k < hour_recommendations(hours[i]).len()
                    && #[trigger] hour_recommendations(hours[i])[k] == out[m].0 && hours[i].time
                    == out[m].1
        }),
{
    let hours = considered_hours(entries, timespan);
    let raw = advice_timeline(hours);
    let out = recommendations_of(entries, timespan);
    lemma_advice_timeline(hours);
    lemma_group_timeline(raw);
    assert(out[m].1 + SECONDS_PER_HOUR <= out[m].2);
    assert(started_in(raw, out[m]));
    let idx = choose|idx: int|
        0 <= idx < raw.len() && #[trigger] raw[idx].0 == out[m].0 && raw[idx].1 == out[m].1;
    assert(advised_in(hours, raw[idx]));
    let (i, k) = choose|i: int, k: int|
        0 <= i < hours.len() && 0 <= k < hour_recommendations(hours[i]).len()
            && #[trigger] timed_advice(hours[i])[k] == raw[idx];
    lemma_timed_advice(hours[i]);
    assert(hour_recommendations(hours[i])[k] == out[m].0);
}

/// A forecast shorter than the timespan gets no advice.
pub proof fn law_short_forecast_gets_no_advice(
    entries: Seq<HourlyEntry>,
    timespan: RecommendationTimespan,
)
    requires
        entries.len() < timespan_hours(timespan),
    ensures
        recommendations_of(entries, timespan).len() == 0,
{
    assert(advice_timeline(Seq::<HourlyEntry>::empty()) =~= Seq::empty());
}

/// Only the first hours of the timespan matter: a longer forecast gets the
/// same advice as its first hours alone.
pub proof fn law_only_the_timespan_matters(
    entries: Seq<HourlyEntry>,
    timespan: RecommendationTimespan,
)
    requires
        entries.len() >= timespan_hours(timespan),
    ensures
        recommendations_of(entries, timespan) == recommendations_of(
            entries.take(timespan_hours(timespan)),
            timespan,
        ),
{
    let h = timespan_hours(timespan);
    assert(entries.take(h).take(h) =~= entries.take(h));
}

proof fn lemma_contains_concat(a: Seq<WeatherRecommendation>, b: Seq<WeatherRecommendation>)
    ensures
        forall|x: WeatherRecommendation|
            #[trigger] (a + b).contains(x) <==> a.contains(x) || b.contains(x),
{
    assert forall|x: WeatherRecommendation| #[trigger] (a + b).contains(x) implies a.contains(x)
        || b.contains(x) by {
        let i = choose|i: int| 0 <= i < (a + b).len() && (a + b)[i] == x;
        if i < a.len() {
            assert(a[i] == x);
        } else {
            assert(b[i - a.len()] == x);
        }
    }
    assert forall|x: WeatherRecommendation| a.contains(x) || b.contains(x) implies #[trigger] (a
        + b).contains(x) by {
        if a.contains(x) {
            let i = choose|i: int| 0 <= i < a.len() && a[i] == x;
            assert((a + b)[i] == x);
        } else {
            let i = choose|i: int| 0 <= i < b.len() && b[i] == x;
            assert((a + b)[a.len() + i] == x);
        }
    }
}

proof fn lemma_contains_one(r: WeatherRecommendation)
    ensures
        forall|x: WeatherRecommendation| #[trigger] seq![r].contains(x) <==> x == r,
        forall|x: WeatherRecommendation| !(#[trigger] Seq::<WeatherRecommendation>::empty().contains(x)),
{
    assert forall|x: WeatherRecommendation| x == r implies #[trigger] seq![r].contains(x) by {
        assert(seq![r][0] == x);
    }
}

/// Which part of an hour's advice a piece can come from.
proof fn lemma_hour_advice_contains(entry: HourlyEntry, x: WeatherRecommendation)
    ensures
        hour_recommendations(entry).contains(x) <==> {
            ||| uv_advice(entry.uv_index).contains(x)
            ||| x == WeatherRecommendation::StrongWinds && entry.windspeed_10m.is_greater(
                Binary64 { bits: HIGH_WINDS_THRESHOLD_METRIC_BITS },
            )
            ||| rain_advice(entry).contains(x)
            ||| x == WeatherRecommendation::ExpectSnow && is_snow_kind(entry.weathercode)
            ||| x == WeatherRecommendation::ExpectStorm && is_storm_kind(entry.weathercode)
            ||| x == WeatherRecommendation::ExpectFog && is_fog_kind(entry.weathercode)
            ||| clothing_advice(entry).contains(x)
            ||| x == WeatherRecommendation::Freezing && entry.temperature_2m.is_at_most(
                Binary64 { bits: FREEZING_TEMP_BITS },
            )
        },
        uv_advice(entry.uv_index).contains(x) <==> (x == WeatherRecommendation::LowUvRisk && (
        entry.uv_index == UvIndex::Moderate || entry.uv_index == UvIndex::High)) || (x
            == WeatherRecommendation::HighUvRisk && (entry.uv_index == UvIndex::VeryHigh
            || entry.uv_index == UvIndex::Extreme)),
        rain_advice(entry).contains(x) <==> brings_rain(entry.weathercode) && (if entry.windspeed_10m.is_greater(
            Binary64 { bits: WINDS_UMBRELLA_THRESHOLD_METRIC_BITS },
        ) {
            x == WeatherRecommendation::ExpectRainStrongWinds
        } else {
            x == WeatherRecommendation::ExpectRainLightWinds
        }),
        clothing_advice(entry).contains(x) <==> if entry.apparent_temperature.is_greater(
            Binary64 { bits: SHORTS_TEMP_THRESHOLD_METRIC_BITS },
        ) {
            x == WeatherRecommendation::WearShorts
        } else {
            x == WeatherRecommendation::WearJumper && entry.apparent_temperature.is_less(
                Binary64 { bits: JUMPER_TEMP_THRESHOLD_METRIC_BITS },
            )
        },
{
    reveal(hour_recommendations);
    let uv = uv_advice(entry.uv_index);
    let winds = advice_if(
        entry.windspeed_10m.is_greater(Binary64 { bits: HIGH_WINDS_THRESHOLD_METRIC_BITS }),
        WeatherRecommendation::StrongWinds,
    );
    let rain = rain_advice(entry);
    let snow = advice_if(is_snow_kind(entry.weathercode), WeatherRecommendation::ExpectSnow);
    let storm = advice_if(is_storm_kind(entry.weathercode), WeatherRecommendation::ExpectStorm);
    let fog = advice_if(is_fog_kind(entry.weathercode), WeatherRecommendation::ExpectFog);
    let clothes = clothing_advice(entry);
    let frost = advice_if(
        entry.temperature_2m.is_at_most(Binary64 { bits: FREEZING_TEMP_BITS }),
        WeatherRecommendation::Freezing,
    );
    lemma_contains_concat(uv, winds);
    lemma_contains_concat(uv + winds, rain);
    lemma_contains_concat(uv + winds + rain, snow);
    lemma_contains_concat(uv + winds + rain + snow, storm);
    lemma_contains_concat(uv + winds + rain + snow + storm, fog);
    lemma_contains_concat(uv + winds + rain + snow + storm + fog, clothes);
    lemma_contains_concat(uv + winds + rain + snow + storm + fog + clothes, frost);
    lemma_contains_one(WeatherRecommendation::LowUvRisk);
    lemma_contains_one(WeatherRecommendation::HighUvRisk);
    lemma_contains_one(WeatherRecommendation::StrongWinds);
    lemma_contains_one(WeatherRecommendation::ExpectRainStrongWinds);
    lemma_contains_one(WeatherRecommendation::ExpectRainLightWinds);
    lemma_contains_one(WeatherRecommendation::ExpectSnow);
    lemma_contains_one(WeatherRecommendation::ExpectStorm);
    lemma_contains_one(WeatherRecommendation::ExpectFog);
    lemma_contains_one(WeatherRecommendation::WearShorts);
    lemma_contains_one(WeatherRecommendation::WearJumper);
    lemma_contains_one(WeatherRecommendation::Freezing);
}

/// Each hour's advice follows its weather, piece by piece: rain advice for
/// every drizzle, rain, rain shower and thunderstorm without hail (a coat
/// where the wind is above 39 km/h, an umbrella otherwise), a warning of
/// strong winds above 50 km/h, snow for snow fall, snow showers and snow
/// grains, a storm for every thunderstorm, fog for both kinds of fog, shorts
/// above 20 °C felt, else a jumper below 15 °C felt, frost at 0 °C or below,
/// sun cream from a moderate UV index and shade from a very high one.
pub proof fn law_hour_advice_follows_the_weather(entry: HourlyEntry)
    ensures
        ({
            let recs = hour_recommendations(entry);
            let code = entry.weathercode;
            let rainy = code == WeatherCode::LightDrizzle || code == WeatherCode::ModerateDrizzle
                || code == WeatherCode::DenseDrizzle || code == WeatherCode::LightFreezingDrizzle
                || code == WeatherCode::DenseFreezingDrizzle || code == WeatherCode::LightRain
                || code == WeatherCode::ModerateRain || code == WeatherCode::HeavyRain || code
                == WeatherCode::LightFreezingRain || code == WeatherCode::HeavyFreezingRain || code
                == WeatherCode::LightRainShowers || code == WeatherCode::ModerateRainShowers || code
                == WeatherCode::ViolentRainShowers || code == WeatherCode::Thunderstorm;
            let windy = entry.windspeed_10m.is_greater(Binary64 { bits: 0x4043_8000_0000_0000 });
            let warm = entry.apparent_temperature.is_greater(
                Binary64 { bits: 0x4034_0000_0000_0000 },
            );
            &&& recs.contains(WeatherRecommendation::ExpectRainStrongWinds) <==> rainy && windy
            &&& recs.contains(WeatherRecommendation::ExpectRainLightWinds) <==> rainy && !windy
            &&& recs.contains(WeatherRecommendation::StrongWinds) <==> entry.windspeed_10m.is_greater(
                Binary64 { bits: 0x4049_0000_0000_0000 },
            )
            &&& recs.contains(WeatherRecommendation::ExpectSnow) <==> (code
                == WeatherCode::LightSnowFall || code == WeatherCode::ModerateSnowFall || code
                == WeatherCode::HeavySnowFall || code == WeatherCode::LightSnowShowers || code
                == WeatherCode::HeavySnowShowers || code == WeatherCode::SnowGrains)
            &&& recs.contains(WeatherRecommendation::ExpectStorm) <==> (code
                == WeatherCode::Thunderstorm || code == WeatherCode::ThunderstormLightHail || code
                == WeatherCode::ThunderstormHeavyHail)
            &&& recs.contains(WeatherRecommendation::ExpectFog) <==> (code == WeatherCode::Fog
                || code == WeatherCode::DepositingRimeFog)
            &&& recs.contains(WeatherRecommendation::WearShorts) <==> warm
            &&& recs.contains(WeatherRecommendation::WearJumper) <==> !warm
                && entry.apparent_temperature.is_less(Binary64 { bits: 0x402E_0000_0000_0000 })
            &&& recs.contains(WeatherRecommendation::Freezing) <==> entry.temperature_2m.is_at_most(
                Binary64 { bits: 0 },
            )
            &&& recs.contains(WeatherRecommendation::LowUvRisk) <==> (entry.uv_index
                == UvIndex::Moderate || entry.uv_index == UvIndex::High)
            &&& recs.contains(WeatherRecommendation::HighUvRisk) <==> (entry.uv_index
                == UvIndex::VeryHigh || entry.uv_index == UvIndex::Extreme)
        }),
{
    lemma_hour_advice_contains(entry, WeatherRecommendation::ExpectRainStrongWinds);
    lemma_hour_advice_contains(entry, WeatherRecommendation::ExpectRainLightWinds);
    lemma_hour_advice_contains(entry, WeatherRecommendation::StrongWinds);
    lemma_hour_advice_contains(entry, WeatherRecommendation::ExpectSnow);
    lemma_hour_advice_contains(entry, WeatherRecommendation::ExpectStorm);
    lemma_hour_advice_contains(entry, WeatherRecommendation::ExpectFog);
    lemma_hour_advice_contains(entry, WeatherRecommendation::WearShorts);
    lemma_hour_advice_contains(entry, WeatherRecommendation::WearJumper);
    lemma_hour_advice_contains(entry, WeatherRecommendation::Freezing);
    lemma_hour_advice_contains(entry, WeatherRecommendation::LowUvRisk);
    lemma_hour_advice_contains(entry, WeatherRecommendation::HighUvRisk);
}

/// The place of a piece of advice in an hour's list: the sun, wind, rain,
/// snow, storms, fog, clothes, frost; sunrise and sunset last.
pub open spec fn advice_rank(r: WeatherRecommendation) -> int {
    match r {
        WeatherRecommendation::LowUvRisk | WeatherRecommendation::HighUvRisk => 0,
        WeatherRecommendation::StrongWinds => 1,
        WeatherRecommendation::ExpectRainStrongWinds
        | WeatherRecommendation::ExpectRainLightWinds => 2,
        WeatherRecommendation::ExpectSnow => 3,
        WeatherRecommendation::ExpectStorm => 4,
        WeatherRecommendation::ExpectFog => 5,
        WeatherRecommendation::WearShorts | WeatherRecommendation::WearJumper => 6,
        WeatherRecommendation::Freezing => 7,
        WeatherRecommendation::Sunset(_) | WeatherRecommendation::Sunrise(_) => 8,
    }
}

/// Whether the places of the pieces of `recs` strictly rise, and all lie
/// from `lo` up to before `hi`.
spec fn ranks_rise_within(recs: Seq<WeatherRecommendation>, lo: int, hi: int) -> bool {
    &&& forall|a: int, b: int|
        0 <= a < b < recs.len() ==> advice_rank(#[trigger] recs[a]) < advice_rank(
            #[trigger] recs[b],
        )
    &&& forall|a: int| 0 <= a < recs.len() ==> lo <= #[trigger] advice_rank(recs[a]) < hi
}

proof fn lemma_ranks_rise_concat(
    s: Seq<WeatherRecommendation>,
    t: Seq<WeatherRecommendation>,
    lo: int,
    mid: int,
    hi: int,
)
    requires
        lo <= mid <= hi,
        ranks_rise_within(s, lo, mid),
        ranks_rise_within(t, mid, hi),
    ensures
        ranks_rise_within(s + t, lo, hi),
{
    assert forall|a: int, b: int| 0 <= a < b < (s + t).len() implies advice_rank(
        #[trigger] (s + t)[a],
    ) < advice_rank(#[trigger] (s + t)[b]) by {
        if b < s.len() {
            assert((s + t)[a] == s[a] && (s + t)[b] == s[b]);
        } else if a < s.len() {
            assert((s + t)[a] == s[a] && (s + t)[b] == t[b - s.len()]);
            assert(advice_rank(s[a]) < mid);
            assert(mid <= advice_rank(t[b - s.len()]));
        } else {
            assert((s + t)[a] == t[a - s.len()] && (s + t)[b] == t[b - s.len()]);
        }
    }
    assert forall|a: int| 0 <= a < (s + t).len() implies lo <= #[trigger] advice_rank((s + t)[a])
        < hi by {
        if a < s.len() {
            assert((s + t)[a] == s[a]);
        } else {
            assert((s + t)[a] == t[a - s.len()]);
        }
    }
}

proof fn lemma_ranks_of_one(r: WeatherRecommendation)
    ensures
        ranks_rise_within(seq![r], advice_rank(r), advice_rank(r) + 1),
        forall|lo: int, hi: int| ranks_rise_within(#[trigger] Seq::<WeatherRecommendation>::empty(), lo, hi),
{
}

/// Each hour's advice comes in a fixed order (the sun, wind, rain, snow,
/// storms, fog, clothes, frost) with at most one piece of each kind: no
/// piece comes twice, and never both shorts and a jumper, both kinds of
/// rain advice, or both kinds of sun advice.
pub proof fn law_hour_advice_comes_in_order(entry: HourlyEntry)
    ensures
        forall|a: int, b: int|
            0 <= a < b < hour_recommendations(entry).len() ==> advice_rank(
                #[trigger] hour_recommendations(entry)[a],
            ) < advice_rank(#[trigger] hour_recommendations(entry)[b]),
{
    reveal(hour_recommendations);
    let uv = uv_advice(entry.uv_index);
    let winds = advice_if(
        entry.windspeed_10m.is_greater(Binary64 { bits: HIGH_WINDS_THRESHOLD_METRIC_BITS }),
        WeatherRecommendation::StrongWinds,
    );
    let rain = rain_advice(entry);
    let snow = advice_if(is_snow_kind(entry.weathercode), WeatherRecommendation::ExpectSnow);
    let storm = advice_if(is_storm_kind(entry.weathercode), WeatherRecommendation::ExpectStorm);
    let fog = advice_if(is_fog_kind(entry.weathercode), WeatherRecommendation::ExpectFog);
    let clothes = clothing_advice(entry);
    let frost = advice_if(
        entry.temperature_2m.is_at_most(Binary64 { bits: FREEZING_TEMP_BITS }),
        WeatherRecommendation::Freezing,
    );
    lemma_ranks_of_one(WeatherRecommendation::LowUvRisk);
    lemma_ranks_of_one(WeatherRecommendation::HighUvRisk);
    lemma_ranks_of_one(WeatherRecommendation::StrongWinds);
    lemma_ranks_of_one(WeatherRecommendation::ExpectRainStrongWinds);
    lemma_ranks_of_one(WeatherRecommendation::ExpectRainLightWinds);
    lemma_ranks_of_one(WeatherRecommendation::ExpectSnow);
    lemma_ranks_of_one(WeatherRecommendation::ExpectStorm);
    lemma_ranks_of_one(WeatherRecommendation::ExpectFog);
    lemma_ranks_of_one(WeatherRecommendation::WearShorts);
    lemma_ranks_of_one(WeatherRecommendation::WearJumper);
    lemma_ranks_of_one(WeatherRecommendation::Freezing);
    assert(ranks_rise_within(uv, 0, 1));
    assert(ranks_rise_within(winds, 1, 2));
    assert(ranks_rise_within(rain, 2, 3));
    assert(ranks_rise_within(snow, 3, 4));
    assert(ranks_rise_within(storm, 4, 5));
    assert(ranks_rise_within(fog, 5, 6));
    assert(ranks_rise_within(clothes, 6, 7));
    assert(ranks_rise_within(frost, 7, 8));
    lemma_ranks_rise_concat(uv, winds, 0, 1, 2);
    lemma_ranks_rise_concat(uv + winds, rain, 0, 2, 3);
    lemma_ranks_rise_concat(uv + winds + rain, snow, 0, 3, 4);
    lemma_ranks_rise_concat(uv + winds + rain + snow, storm, 0, 4, 5);
    lemma_ranks_rise_concat(uv + winds + rain + snow + storm, fog, 0, 5, 6);
    lemma_ranks_rise_concat(uv + winds + rain + snow + storm + fog, clothes, 0, 6, 7);
    lemma_ranks_rise_concat(uv + winds + rain + snow + storm + fog + clothes, frost, 0, 7, 8);
}

/// Each timespan looks at exactly as many hours as its name says: four,
/// eight, twelve or twenty-four. On a forecast at least that long, every
/// piece of advice for each of those first hours is given for the whole of
/// its hour.
pub proof fn law_timespan_covers_its_named_hours(
    entries: Seq<HourlyEntry>,
    timespan: RecommendationTimespan,
    i: int,
    k: int,
)
    requires
        ({
            let named = match timespan {
                RecommendationTimespan::FourHour => 4int,
                RecommendationTimespan::EightHour => 8int,
                RecommendationTimespan::TwelveHour => 12int,
                RecommendationTimespan::TwentyFourHour => 24int,
            };
            0 <= i < named && named <= entries.len()
        }),
        0 <= k < hour_recommendations(entries[i]).len(),
    ensures
        covered_in(
            recommendations_of(entries, timespan),
            (
                hour_recommendations(entries[i])[k],
                entries[i].time as int,
                entries[i].time + SECONDS_PER_HOUR,
            ),
        ),
{
    let hours = considered_hours(entries, timespan);
    assert(hours[i] == entries[i]);
    law_every_hour_is_covered(entries, timespan, i, k);
}

/// No timespan looks further than its name says: every span of advice
/// starts at one of the first four, eight, twelve or twenty-four hours, with
/// advice given for that hour, and a forecast shorter than that gets none.
pub proof fn law_timespan_looks_no_further(
    entries: Seq<HourlyEntry>,
    timespan: RecommendationTimespan,
    m: int,
)
    requires
        0 <= m < recommendations_of(entries, timespan).len(),
    ensures
        ({
            let named = match timespan {
                RecommendationTimespan::FourHour => 4int,
                RecommendationTimespan::EightHour => 8int,
                RecommendationTimespan::TwelveHour => 12int,
                RecommendationTimespan::TwentyFourHour => 24int,
            };
            let out = recommendations_of(entries, timespan);
            &&& named <= entries.len()
            &&& exists|i: int, k: int|
                0 <= i < named && 0 <= k < hour_recommendations(entries[i]).len()
                    && #[trigger] hour_recommendations(entries[i])[k] == out[m].0
                    && entries[i].time == out[m].1
        }),
{
    let hours = considered_hours(entries, timespan);
    if entries.len() < timespan_hours(timespan) {
        law_short_forecast_gets_no_advice(entries, timespan);
    }
    law_spans_start_at_advised_hours(entries, timespan, m);
    let out = recommendations_of(entries, timespan);
    let (i, k) = choose|i: int, k: int|
        0 <= i < hours.len() && 0 <= k < hour_recommendations(hours[i]).len()
            && #[trigger] hour_recommendations(hours[i])[k] == out[m].0 && hours[i].time
            == out[m].1;
    assert(hours[i] == entries[i]);
}

/// A timespan is read back from its own name.
pub proof fn law_timespan_name_round_trip(timespan: RecommendationTimespan)
    ensures
        timespan_named(timespan_name(timespan)) == timespan,
{
    reveal_strlit("FourHour");
    reveal_strlit("EightHour");
    reveal_strlit("TwelveHour");
    reveal_strlit("TwentyFourHour");
    assert("EightHour"@[0] != "FourHour"@[0]);
    assert("TwelveHour"@[0] != "FourHour"@[0]);
    assert("TwelveHour"@[0] != "EightHour"@[0]);
    assert("TwentyFourHour"@.len() != "FourHour"@.len());
    assert("TwentyFourHour"@[0] != "EightHour"@[0]);
    assert("TwentyFourHour"@[3] != "TwelveHour"@[3]);
}

/// How many pieces of `recs` are the advice `r`.
pub open spec fn advice_count(recs: Seq<WeatherRecommendation>, r: WeatherRecommendation) -> nat
    decreases recs.len(),
{
    if recs.len() == 0 {
        0
    } else {
        advice_count(recs.drop_last(), r) + if same_recommendation(recs.last(), r) {
            1nat
        } else {
            0nat
        }
    }
}

/// How many spans of `raw` are of the advice `r`.
pub open spec fn span_count(raw: Seq<(WeatherRecommendation, int, int)>, r: WeatherRecommendation) -> nat
    decreases raw.len(),
{
    if raw.len() == 0 {
        0
    } else {
        span_count(raw.drop_last(), r) + if same_recommendation(raw.last().0, r) {
            1nat
        } else {
            0nat
        }
    }
}

/// Whether each hour of `hours` starts when the one before it ends.
pub open spec fn consecutive_hours(hours: Seq<HourlyEntry>) -> bool {
    forall|i: int|
        0 <= i < hours.len() - 1 ==> #[trigger] hours[i + 1].time == hours[i].time + SECONDS_PER_HOUR
}

proof fn lemma_same_recommendation_equivalence(
    a: WeatherRecommendation,
    b: WeatherRecommendation,
    c: WeatherRecommendation,
)
    ensures
        same_recommendation(a, a),
        same_recommendation(a, b) ==> same_recommendation(b, a),
        same_recommendation(a, b) && same_recommendation(b, c) ==> same_recommendation(a, c),
{
}

proof fn lemma_advice_count_concat(
    a: Seq<WeatherRecommendation>,
    b: Seq<WeatherRecommendation>,
    r: WeatherRecommendation,
)
    ensures
        advice_count(a + b, r) == advice_count(a, r) + advice_count(b, r),
    decreases b.len(),
{
    if b.len() == 0 {
        assert(a + b =~= a);
    } else {
        lemma_advice_count_concat(a, b.drop_last(), r);
        assert((a + b).drop_last() =~= a + b.drop_last());
    }
}

proof fn lemma_span_count_concat(
    a: Seq<(WeatherRecommendation, int, int)>,
    b: Seq<(WeatherRecommendation, int, int)>,
    r: WeatherRecommendation,
)
    ensures
        span_count(a + b, r) == span_count(a, r) + span_count(b, r),
    decreases b.len(),
{
    if b.len() == 0 {
        assert(a + b =~= a);
    } else {
        lemma_span_count_concat(a, b.drop_last(), r);
        assert((a + b).drop_last() =~= a + b.drop_last());
    }
}

proof fn lemma_advice_count_small(recs: Seq<WeatherRecommendation>, r: WeatherRecommendation)
    requires
        recs.len() <= 1,
    ensures
        advice_count(recs, r) == (if recs.len() == 1 && same_recommendation(recs[0], r) {
            1nat
        } else {
            0nat
        }),
{
    if recs.len() == 1 {
        assert(recs.drop_last() =~= Seq::<WeatherRecommendation>::empty());
        assert(advice_count(recs.drop_last(), r) == 0);
        assert(recs.last() == recs[0]);
    }
}

/// No piece of advice is given twice for one hour.
#[verifier::spinoff_prover]
proof fn lemma_hour_advice_at_most_once(entry: HourlyEntry, r: WeatherRecommendation)
    ensures
        advice_count(hour_recommendations(entry), r) <= 1,
{
    reveal(hour_recommendations);
    let p1 = uv_advice(entry.uv_index);
    let p2 = advice_if(
        entry.windspeed_10m.is_greater(Binary64 { bits: HIGH_WINDS_THRESHOLD_METRIC_BITS }),
        WeatherRecommendation::StrongWinds,
    );
    let p3 = rain_advice(entry);
    let p4 = advice_if(is_snow_kind(entry.weathercode), WeatherRecommendation::ExpectSnow);
    let p5 = advice_if(is_storm_kind(entry.weathercode), WeatherRecommendation::ExpectStorm);
    let p6 = advice_if(is_fog_kind(entry.weathercode), WeatherRecommendation::ExpectFog);
    let p7 = clothing_advice(entry);
    let p8 = advice_if(
        entry.temperature_2m.is_at_most(Binary64 { bits: FREEZING_TEMP_BITS }),
        WeatherRecommendation::Freezing,
    );
    lemma_advice_count_concat(p1, p2, r);
    lemma_advice_count_concat(p1 + p2, p3, r);
    lemma_advice_count_concat(p1 + p2 + p3, p4, r);
    lemma_advice_count_concat(p1 + p2 + p3 + p4, p5, r);
    lemma_advice_count_concat(p1 + p2 + p3 + p4 + p5, p6, r);
    lemma_advice_count_concat(p1 + p2 + p3 + p4 + p5 + p6, p7, r);
    lemma_advice_count_concat(p1 + p2 + p3 + p4 + p5 + p6 + p7, p8, r);
    lemma_advice_count_small(p1, r);
    lemma_advice_count_small(p2, r);
    lemma_advice_count_small(p3, r);
    lemma_advice_count_small(p4, r);
    lemma_advice_count_small(p5, r);
    lemma_advice_count_small(p6, r);
    lemma_advice_count_small(p7, r);
    lemma_advice_count_small(p8, r);
}

proof fn lemma_spans_at_count(entry: HourlyEntry, r: WeatherRecommendation, k: int)
    requires
        0 <= k <= timed_advice(entry).len(),
    ensures
        timed_advice(entry).len() == hour_recommendations(entry).len(),
        span_count(timed_advice(entry).take(k), r) == advice_count(
            hour_recommendations(entry).take(k),
            r,
        ),
    decreases k,
{
    let ta = timed_advice(entry);
    let hr = hour_recommendations(entry);
    if k > 0 {
        lemma_spans_at_count(entry, r, k - 1);
        assert(ta.take(k).drop_last() =~= ta.take(k - 1));
        assert(hr.take(k).drop_last() =~= hr.take(k - 1));
    } else {
        assert(ta.take(0) =~= Seq::<(WeatherRecommendation, int, int)>::empty());
        assert(hr.take(0) =~= Seq::<WeatherRecommendation>::empty());
    }
}

proof fn lemma_consecutive_times(hours: Seq<HourlyEntry>, i: int)
    requires
        consecutive_hours(hours),
        0 <= i < hours.len(),
    ensures
        hours[i].time == hours[0].time + SECONDS_PER_HOUR * i,
    decreases i,
{
    if i > 0 {
        lemma_consecutive_times(hours, i - 1);
        assert(hours[(i - 1) + 1].time == hours[i - 1].time + SECONDS_PER_HOUR);
    }
}

/// Whether the spans of `raw` for advice `r` come one after another from
/// `t0`: the n-th of them spans the n-th hour after `t0`.
pub open spec fn steady_spans(raw: Seq<(WeatherRecommendation, int, int)>, r: WeatherRecommendation, t0: int) -> bool {
    forall|idx: int|
        0 <= idx < raw.len() && same_recommendation(#[trigger] raw[idx].0, r) ==> {
            &&& raw[idx].1 == t0 + SECONDS_PER_HOUR * span_count(raw.take(idx), r)
            &&& raw[idx].2 == raw[idx].1 + SECONDS_PER_HOUR
        }
}

proof fn lemma_steady_timeline(hours: Seq<HourlyEntry>, r: WeatherRecommendation)
    requires
        hours.len() > 0,
        consecutive_hours(hours),
        forall|i: int|
            0 <= i < hours.len() ==> advice_count(#[trigger] hour_recommendations(hours[i]), r) == 1,
    ensures
        span_count(advice_timeline(hours), r) == hours.len(),
        steady_spans(advice_timeline(hours), r, hours[0].time as int),
    decreases hours.len(),
{
    let n = hours.len();
    let prev = hours.drop_last();
    let e = hours.last();
    let raw0 = advice_timeline(prev);
    let ta = timed_advice(e);
    let raw = advice_timeline(hours);
    assert(raw == raw0 + ta);
    assert(hour_recommendations(hours[n - 1]) == hour_recommendations(e));
    lemma_spans_at_count(e, r, ta.len() as int);
    assert(ta.take(ta.len() as int) =~= ta);
    assert(hour_recommendations(e).take(ta.len() as int) =~= hour_recommendations(e));
    lemma_span_count_concat(raw0, ta, r);
    lemma_consecutive_times(hours, n - 1);
    if n == 1 {
        assert(raw0 =~= Seq::<(WeatherRecommendation, int, int)>::empty());
    } else {
        assert(consecutive_hours(prev)) by {
            assert forall|i: int| 0 <= i < prev.len() - 1 implies #[trigger] prev[i + 1].time
                == prev[i].time + SECONDS_PER_HOUR by {
                assert(prev[i + 1] == hours[i + 1]);
                assert(prev[i] == hours[i]);
            }
        }
        assert forall|i: int| 0 <= i < prev.len() implies advice_count(
            #[trigger] hour_recommendations(prev[i]),
            r,
        ) == 1 by {
            assert(prev[i] == hours[i]);
        }
        lemma_steady_timeline(prev, r);
        assert(prev[0] == hours[0]);
    }
    let t0 = hours[0].time as int;
    assert forall|idx: int|
        0 <= idx < raw.len() && same_recommendation(#[trigger] raw[idx].0, r) implies {
        &&& raw[idx].1 == t0 + SECONDS_PER_HOUR * span_count(raw.take(idx), r)
        &&& raw[idx].2 == raw[idx].1 + SECONDS_PER_HOUR
    } by {
        if idx < raw0.len() {
            assert(raw[idx] == raw0[idx]);
            assert(raw.take(idx) =~= raw0.take(idx));
            assert(n > 1);
        } else {
            let k = idx - raw0.len();
            assert(raw[idx] == ta[k]);
            assert(raw.take(idx) =~= raw0 + ta.take(k));
            lemma_span_count_concat(raw0, ta.take(k), r);
            lemma_spans_at_count(e, r, k);
            lemma_spans_at_count(e, r, k + 1);
            assert(ta.take(k + 1).drop_last() =~= ta.take(k));
            assert(ta.take(k + 1).last() == ta[k]);
            assert(ta =~= ta.take(k + 1) + ta.skip(k + 1));
            lemma_span_count_concat(ta.take(k + 1), ta.skip(k + 1), r);
            assert(span_count(ta.take(k), r) == 0);
        }
    }
}

proof fn lemma_steady_group(raw: Seq<(WeatherRecommendation, int, int)>, r: WeatherRecommendation, t0: int)
    requires
        steady_spans(raw, r, t0),
    ensures
        ({
            let g = group_timeline(raw);
            let c = span_count(raw, r);
            &&& c == 0 ==> forall|m: int| 0 <= m < g.len() ==> !same_recommendation(#[trigger] g[m].0, r)
            &&& c > 0 ==> exists|m: int|
                0 <= m < g.len() && same_recommendation(#[trigger] g[m].0, r) && g[m].1 == t0
                    && g[m].2 == t0 + SECONDS_PER_HOUR * c && forall|m2: int|
                    0 <= m2 < g.len() && same_recommendation(#[trigger] g[m2].0, r) ==> m2 == m
        }),
    decreases raw.len(),
{
    if raw.len() > 0 {
        let prev = raw.drop_last();
        let t = raw.last();
        assert(steady_spans(prev, r, t0)) by {
            assert forall|idx: int| 0 <= idx < prev.len() && same_recommendation(#[trigger] prev[idx].0, r) implies {
                &&& prev[idx].1 == t0 + SECONDS_PER_HOUR * span_count(prev.take(idx), r)
                &&& prev[idx].2 == prev[idx].1 + SECONDS_PER_HOUR
            } by {
                assert(prev[idx] == raw[idx]);
                assert(prev.take(idx) =~= raw.take(idx));
            }
        }
        lemma_steady_group(prev, r, t0);
        let g0 = group_timeline(prev);
        let g = group_timeline(raw);
        let c0 = span_count(prev, r);
        assert(g == merge_step(g0, t));
        lemma_continued_index(g0, t.0, t.1, 0);
        let j = continued_index_from(g0, t.0, t.1, 0);
        assert(raw.take(raw.len() - 1) =~= prev);
        if same_recommendation(t.0, r) {
            assert(raw[raw.len() - 1] == t);
            assert(t.1 == t0 + SECONDS_PER_HOUR * c0);
            assert(t.2 == t.1 + SECONDS_PER_HOUR);
            if c0 == 0 {
                if j >= 0 {
                    lemma_same_recommendation_equivalence(g0[j].0, t.0, r);
                    assert(false);
                }
                let m = g.len() - 1;
                assert forall|m2: int| 0 <= m2 < g.len() && same_recommendation(#[trigger] g[m2].0, r) implies m2 == m by {
                    if m2 < m {
                        assert(g[m2] == g0[m2]);
                    }
                }
                assert(same_recommendation(g[m].0, r));
            } else {
                let m = choose|m: int|
                    0 <= m < g0.len() && same_recommendation(#[trigger] g0[m].0, r) && g0[m].1 == t0
                        && g0[m].2 == t0 + SECONDS_PER_HOUR * c0 && forall|m2: int|
                        0 <= m2 < g0.len() && same_recommendation(#[trigger] g0[m2].0, r) ==> m2 == m;
                lemma_same_recommendation_equivalence(g0[m].0, r, t.0);
                lemma_same_recommendation_equivalence(t.0, r, r);
                assert(continues(g0[m], t.0, t.1));
                if j != m {
                    if j >= 0 {
                        lemma_same_recommendation_equivalence(g0[j].0, t.0, r);
                        assert(same_recommendation(g0[j].0, r));
                    }
                    assert(!continues(g0[m], t.0, t.1));
                }
                assert(j == m);
                assert(same_recommendation(g[m].0, r));
                assert forall|m2: int| 0 <= m2 < g.len() && same_recommendation(#[trigger] g[m2].0, r) implies m2 == m by {
                    assert(g[m2].0 == g0[m2].0);
                }
            }
        } else {
            if c0 == 0 {
                assert forall|m: int| 0 <= m < g.len() implies !same_recommendation(#[trigger] g[m].0, r) by {
                    if j < 0 && m == g.len() - 1 {
                    } else {
                        assert(g[m].0 == g0[m].0);
                    }
                }
            } else {
                let m = choose|m: int|
                    0 <= m < g0.len() && same_recommendation(#[trigger] g0[m].0, r) && g0[m].1 == t0
                        && g0[m].2 == t0 + SECONDS_PER_HOUR * c0 && forall|m2: int|
                        0 <= m2 < g0.len() && same_recommendation(#[trigger] g0[m2].0, r) ==> m2 == m;
                if j == m {
                    lemma_same_recommendation_equivalence(g0[m].0, t.0, r);
                    lemma_same_recommendation_equivalence(t.0, g0[m].0, r);
                    lemma_same_recommendation_equivalence(g0[m].0, r, r);
                    assert(false);
                }
                assert(g[m] == g0[m]);
                assert(same_recommendation(g[m].0, r));
                assert forall|m2: int| 0 <= m2 < g.len() && same_recommendation(#[trigger] g[m2].0, r) implies m2 == m by {
                    if j < 0 && m2 == g.len() - 1 {
                        assert(g[m2] == t);
                    } else {
                        assert(g[m2].0 == g0[m2].0);
                    }
                }
            }
        }
    }
}

/// Advice that holds for every one of a run of consecutive considered hours
/// is given once, as one span from the start of the first hour to the end of
/// the last.
pub proof fn law_steady_advice_is_one_span(
    entries: Seq<HourlyEntry>,
    timespan: RecommendationTimespan,
    r: WeatherRecommendation,
)
    requires
        considered_hours(entries, timespan).len() > 0,
        consecutive_hours(considered_hours(entries, timespan)),
        forall|i: int|
            0 <= i < considered_hours(entries, timespan).len() ==> advice_count(
                #[trigger] hour_recommendations(considered_hours(entries, timespan)[i]),
                r,
            ) > 0,
    ensures
        ({
            let hours = considered_hours(entries, timespan);
            let out = recommendations_of(entries, timespan);
            exists|m: int|
                0 <= m < out.len() && same_recommendation(#[trigger] out[m].0, r) && out[m].1
                    == hours[0].time && out[m].2 == hours[0].time + SECONDS_PER_HOUR * hours.len()
                    && forall|m2: int|
                    0 <= m2 < out.len() && same_recommendation(#[trigger] out[m2].0, r) ==> m2 == m
        }),
{
    let hours = considered_hours(entries, timespan);
    assert forall|i: int| 0 <= i < hours.len() implies advice_count(
        #[trigger] hour_recommendations(hours[i]),
        r,
    ) == 1 by {
        lemma_hour_advice_at_most_once(hours[i], r);
    }
    lemma_steady_timeline(hours, r);
    let raw = advice_timeline(hours);
    lemma_steady_group(raw, r, hours[0].time as int);
    let out = recommendations_of(entries, timespan);
    assert(out == group_timeline(raw));
    assert(span_count(raw, r) == hours.len());
    let m = choose|m: int|
        0 <= m < out.len() && same_recommendation(#[trigger] out[m].0, r) && out[m].1
            == hours[0].time && out[m].2 == hours[0].time + SECONDS_PER_HOUR * span_count(raw, r)
            && forall|m2: int|
            0 <= m2 < out.len() && same_recommendation(#[trigger] out[m2].0, r) ==> m2 == m;
    assert(out[m].2 == hours[0].time + SECONDS_PER_HOUR * hours.len());
}

} // verus!
