//! The main window's state and its decisions: what each message does to the
//! state, and what the window must do outside (fetch, show, quit).

use vstd::prelude::*;
use crate::model::daily_entry::DailyEntry;
use crate::model::hourly_entry::HourlyEntry;
use crate::weather_api::find_city::{GeoResponse, same_place};
use crate::weather_api::weather::CurrentWeather;
use crate::weather_rec::{
    RecommendationTimespan,
    TimedRecommendation,
    considered_hours,
    considered_hours_end_in_range,
    get_recommendations,
    hours_end_in_range,
    recommendations_of,
    timeline_view,
    timespan_named,
};

verus! {

/// How many recently chosen cities are remembered.
pub const MAX_RECENT_CITIES: usize = 5;

/// The state of the main window.
#[derive(Debug)]
pub struct App {
    pub is_loading: bool,
    pub show_no_wifi_error_message: bool,
    /// The hourly forecast shown.
    pub hourly_entries: Vec<HourlyEntry>,
    /// The daily forecast shown.
    pub daily_entries: Vec<DailyEntry>,
    /// The advice shown.
    pub weather_recommendations: Vec<TimedRecommendation>,
    pub current_weather: Option<CurrentWeather>,
    pub current_city: Option<GeoResponse>,
    /// The cities chosen last, the latest first.
    pub recent_cities: Vec<GeoResponse>,
}

/// The messages the main window handles.
#[derive(Debug)]
pub enum AppMsg {
    ShowCityPicker,
    SelectCity(GeoResponse),
    RefreshWeatherData,
    RefreshWeatherRecommendations,
    SetWeatherData(Vec<HourlyEntry>, Vec<DailyEntry>, CurrentWeather),
    ShowErrorPage,
    Quit,
}

/// What the main window must do outside its state after a message.
#[derive(Debug)]
pub enum AppCommand {
    /// Nothing.
    Nothing,
    /// Fetch the current, hourly and daily weather of the city, then send
    /// `SetWeatherData` with them, or `ShowErrorPage` where a fetch fails.
    FetchWeather(GeoResponse),
    /// Show the city picker, with these recent cities.
    PresentCityPicker(Vec<GeoResponse>),
    /// Scroll both forecasts back to their start, then send
    /// `RefreshWeatherData`.
    ResetScrollAndRefresh,
    /// Show the new forecast entries, then send `RefreshWeatherRecommendations`.
    ShowEntriesAndRefreshRecommendations,
    /// Show the new advice.
    ShowRecommendations,
    /// Quit the application.
    Quit,
}

/// Which page the main window shows.
#[derive(Debug, Clone, Copy, PartialEq, Eq, Structural)]
pub enum AppPage {
    /// A spinner, while the weather loads.
    Loading,
    /// The error page, after the weather could not be fetched.
    Error,
    /// The page that asks for a city.
    NoCity,
    /// The weather of the current city.
    Weather,
}

/// The first index from `i` on of a city in `list` that is the same place as
/// `city`, or -1 where there is none.
pub open spec fn same_place_index_from(list: Seq<GeoResponse>, city: GeoResponse, i: nat) -> int
    decreases list.len() - i,
{
    if i >= list.len() {
        -1
    } else if same_place(list[i as int], city) {
        i as int
    } else {
        same_place_index_from(list, city, i + 1)
    }
}

/// The recent cities after `city` is chosen: the first entry for the same
/// place is taken out, `city` goes first, and where that makes more than
/// five, the last is dropped.
pub open spec fn remembered(list: Seq<GeoResponse>, city: GeoResponse) -> Seq<GeoResponse> {
    let j = same_place_index_from(list, city, 0);
    let rest = if j >= 0 {
        list.remove(j)
    } else {
        list
    };
    let front = seq![city] + rest;
    if front.len() > MAX_RECENT_CITIES {
        front.drop_last()
    } else {
        front
    }
}

/// Whether no two entries of `list` are the same place.
pub open spec fn no_repeated_places(list: Seq<GeoResponse>) -> bool {
    forall|a: int, b: int|
        0 <= a < list.len() && 0 <= b < list.len() && a != b ==> !same_place(
            #[trigger] list[a],
            #[trigger] list[b],
        )
}

/// The page shown for a state: loading first, then the error, then the
/// request for a city, then the weather.
pub open spec fn page_of(is_loading: bool, show_error: bool, has_city: bool) -> AppPage {
    if is_loading {
        AppPage::Loading
    } else if show_error {
        AppPage::Error
    } else if !has_city {
        AppPage::NoCity
    } else {
        AppPage::Weather
    }
}

proof fn lemma_same_place_index(list: Seq<GeoResponse>, city: GeoResponse, i: nat)
    ensures
        ({
            let j = same_place_index_from(list, city, i);
            &&& j == -1 || (i <= j < list.len() && same_place(list[j], city))
            &&& forall|k: int| i <= k < list.len() && (j == -1 || k < j) ==> !same_place(
                #[trigger] list[k],
                city,
            )
        }),
    decreases list.len() - i,
{
    if i < list.len() && !same_place(list[i as int], city) {
        lemma_same_place_index(list, city, i + 1);
    }
}

/// The index of the first city in `list` that is the same place as `city`.
fn find_same_place(list: &Vec<GeoResponse>, city: &GeoResponse) -> (r: Option<usize>)
    ensures
        match r {
            Some(j) => j == same_place_index_from(list@, *city, 0),
            None => same_place_index_from(list@, *city, 0) == -1,
        },
{
    let n = list.len();
    for i in 0..n
        invariant
            n == list@.len(),
            same_place_index_from(list@, *city, 0) == same_place_index_from(list@, *city, i as nat),
    {
        if list[i] == *city {
            return Some(i);
        }
    }
    None
}

/// Moves `city` to the front of the recent cities, as `remembered` says.
pub fn remember_city(recent: &mut Vec<GeoResponse>, city: GeoResponse)
    ensures
        final(recent)@ == remembered(old(recent)@, city),
{
    let ghost list = recent@;
    proof {
        lemma_same_place_index(list, city, 0);
    }
    match find_same_place(recent, &city) {
        Some(j) => {
            recent.remove(j);
        },
        None => {},
    }
    recent.insert(0, city);
    if recent.len() > MAX_RECENT_CITIES {
        recent.pop();
    }
    assert(recent@ =~= remembered(list, city));
}

/// Whether two states show the same forecast and advice.
pub open spec fn same_forecast(a: App, b: App) -> bool {
    &&& a.hourly_entries@ == b.hourly_entries@
    &&& a.daily_entries@ == b.daily_entries@
    &&& a.weather_recommendations@ == b.weather_recommendations@
    &&& a.current_weather == b.current_weather
}

/// Whether two states have the same current and recent cities.
pub open spec fn same_cities(a: App, b: App) -> bool {
    &&& a.current_city == b.current_city
    &&& a.recent_cities@ == b.recent_cities@
}

/// Whether two states are equally loading and showing the error.
pub open spec fn same_status(a: App, b: App) -> bool {
    &&& a.is_loading == b.is_loading
    &&& a.show_no_wifi_error_message == b.show_no_wifi_error_message
}

/// What a message does to the state and what it asks of the window.
pub open spec fn app_step(
    pre: App,
    post: App,
    message: AppMsg,
    active_timespan: Seq<char>,
    command: AppCommand,
) -> bool {
    match message {
        AppMsg::ShowCityPicker => {
            &&& same_forecast(pre, post) && same_cities(pre, post) && same_status(pre, post)
            &&& command matches AppCommand::PresentCityPicker(cities) && cities@ == pre.recent_cities@
        },
        AppMsg::SelectCity(city) => {
            &&& same_forecast(pre, post) && same_status(pre, post)
            &&& post.current_city == Some(city)
            &&& post.recent_cities@ == remembered(pre.recent_cities@, city)
            &&& command is ResetScrollAndRefresh
        },
        AppMsg::RefreshWeatherData => {
            &&& same_forecast(pre, post) && same_cities(pre, post)
            &&& !post.show_no_wifi_error_message
            &&& match pre.current_city {
                Some(city) => post.is_loading && command == AppCommand::FetchWeather(city),
                None => !post.is_loading && command is Nothing,
            }
        },
        AppMsg::RefreshWeatherRecommendations => {
            &&& same_cities(pre, post) && same_status(pre, post)
            &&& post.hourly_entries@ == pre.hourly_entries@
            &&& post.daily_entries@ == pre.daily_entries@
            &&& post.current_weather == pre.current_weather
            &&& timeline_view(post.weather_recommendations@) == recommendations_of(
                pre.hourly_entries@,
                timespan_named(active_timespan),
            )
            &&& command is ShowRecommendations
        },
        AppMsg::SetWeatherData(hourly, daily, current) => {
            &&& same_cities(pre, post)
            &&& post.hourly_entries@ == hourly@
            &&& post.daily_entries@ == daily@
            &&& post.current_weather == Some(current)
            &&& post.weather_recommendations@ == pre.weather_recommendations@
            &&& !post.is_loading && !post.show_no_wifi_error_message
            &&& command is ShowEntriesAndRefreshRecommendations
        },
        AppMsg::ShowErrorPage => {
            &&& same_forecast(pre, post) && same_cities(pre, post)
            &&& !post.is_loading && post.show_no_wifi_error_message
            &&& command is Nothing
        },
        AppMsg::Quit => {
            &&& same_forecast(pre, post) && same_cities(pre, post) && same_status(pre, post)
            &&& command is Quit
        },
    }
}

/// Whether the state can take a message: advice can only be worked out where
/// the considered hours end at valid times.
pub open spec fn accepts(app: App, message: AppMsg, active_timespan: Seq<char>) -> bool {
    message is RefreshWeatherRecommendations ==> hours_end_in_range(
        considered_hours(app.hourly_entries@, timespan_named(active_timespan)),
    )
}

impl App {
    /// The state before anything is loaded.
    pub fn new() -> (r: App)
        ensures
            !r.is_loading,
            !r.show_no_wifi_error_message,
            r.hourly_entries@.len() == 0,
            r.daily_entries@.len() == 0,
            r.weather_recommendations@.len() == 0,
            r.current_weather is None,
            r.current_city is None,
            r.recent_cities@.len() == 0,
    {
        App {
            is_loading: false,
            show_no_wifi_error_message: false,
            hourly_entries: Vec::new(),
            daily_entries: Vec::new(),
            weather_recommendations: Vec::new(),
            current_weather: None,
            current_city: None,
            recent_cities: Vec::new(),
        }
    }

    /// Takes the remembered recent cities; the latest becomes the current
    /// city.
    pub fn load_recent_cities(&mut self, recent_cities: Vec<GeoResponse>)
        ensures
            final(self).recent_cities@ == recent_cities@,
            final(self).current_city == (if recent_cities@.len() > 0 {
                Some(recent_cities@[0])
            } else {
                None
            }),
            final(self).is_loading == old(self).is_loading,
            final(self).show_no_wifi_error_message == old(self).show_no_wifi_error_message,
            final(self).hourly_entries@ == old(self).hourly_entries@,
            final(self).daily_entries@ == old(self).daily_entries@,
            final(self).weather_recommendations@ == old(self).weather_recommendations@,
            final(self).current_weather == old(self).current_weather,
    {
        self.current_city = if recent_cities.len() > 0 {
            Some(recent_cities[0].clone())
        } else {
            None
        };
        self.recent_cities = recent_cities;
    }

    /// The page the window shows.
    pub fn page(&self) -> (r: AppPage)
        ensures
            r == page_of(
                self.is_loading,
                self.show_no_wifi_error_message,
                self.current_city is Some,
            ),
    {
        if self.is_loading {
            AppPage::Loading
        } else if self.show_no_wifi_error_message {
            AppPage::Error
        } else if self.current_city.is_none() {
            AppPage::NoCity
        } else {
            AppPage::Weather
        }
    }

    /// Whether the state can take `message` with the timespan toggle on
    /// `active_timespan` (see `accepts`).
    pub fn can_take(&self, message: &AppMsg, active_timespan: &str) -> (r: bool)
        ensures
            r == accepts(*self, *message, active_timespan@),
    {
        match message {
            AppMsg::RefreshWeatherRecommendations => {
                let timespan = RecommendationTimespan::from_name(active_timespan);
                considered_hours_end_in_range(&self.hourly_entries, &timespan)
            },
            _ => true,
        }
    }

    /// Handles one message; `active_timespan` is the name of the timespan
    /// toggle that is on. Returns what the window must do outside.
    pub fn update(&mut self, message: AppMsg, active_timespan: &str) -> (command: AppCommand)
        requires
            accepts(*old(self), message, active_timespan@),
        ensures
            app_step(*old(self), *final(self), message, active_timespan@, command),
    {
        match message {
            AppMsg::RefreshWeatherData => {
                self.is_loading = true;
                self.show_no_wifi_error_message = false;
                match &self.current_city {
                    Some(city) => AppCommand::FetchWeather(city.clone()),
                    None => {
                        self.is_loading = false;
                        AppCommand::Nothing
                    },
                }
            },
            AppMsg::ShowErrorPage => {
                self.is_loading = false;
                self.show_no_wifi_error_message = true;
                AppCommand::Nothing
            },
            AppMsg::Quit => AppCommand::Quit,
            AppMsg::RefreshWeatherRecommendations => {
                let timespan = RecommendationTimespan::from_name(active_timespan);
                self.weather_recommendations = get_recommendations(
                    self.hourly_entries.as_slice(),
                    &timespan,
                );
                AppCommand::ShowRecommendations
            },
            AppMsg::SetWeatherData(hour_entries, day_entries, current_weather) => {
                self.hourly_entries = hour_entries;
                self.daily_entries = day_entries;
                self.current_weather = Some(current_weather);
                self.is_loading = false;
                self.show_no_wifi_error_message = false;
                AppCommand::ShowEntriesAndRefreshRecommendations
            },
            AppMsg::ShowCityPicker => AppCommand::PresentCityPicker(self.recent_cities.clone()),
            AppMsg::SelectCity(selected_city) => {
                self.current_city = Some(selected_city.clone());
                remember_city(&mut self.recent_cities, selected_city);
                AppCommand::ResetScrollAndRefresh
            },
        }
    }
}

proof fn lemma_same_place_is_an_equivalence(a: GeoResponse, b: GeoResponse, c: GeoResponse)
    ensures
        same_place(a, b) ==> same_place(b, a),
        same_place(a, b) && same_place(b, c) ==> same_place(a, c),
{
}

/// Choosing a city puts it first among the recent cities; at most five are
/// kept where there were at most five; and where no place was listed twice,
/// none is listed twice afterwards.
pub proof fn law_recent_cities(list: Seq<GeoResponse>, city: GeoResponse)
    ensures
        remembered(list, city)[0] == city,
        list.len() <= MAX_RECENT_CITIES ==> remembered(list, city).len() <= MAX_RECENT_CITIES,
        no_repeated_places(list) ==> no_repeated_places(remembered(list, city)),
{
    lemma_same_place_index(list, city, 0);
    let j = same_place_index_from(list, city, 0);
    let rest = if j >= 0 {
        list.remove(j)
    } else {
        list
    };
    let front = seq![city] + rest;
    if no_repeated_places(list) {
        assert forall|k: int| 0 <= k < rest.len() implies !same_place(#[trigger] rest[k], city) by {
            if j >= 0 {
                let orig = if k < j {
                    k
                } else {
                    k + 1
                };
                assert(rest[k] == list[orig]);
                if same_place(list[orig], city) {
                    lemma_same_place_is_an_equivalence(list[orig], city, list[j]);
                    lemma_same_place_is_an_equivalence(list[j], city, city);
                    assert(same_place(list[orig], list[j]));
                }
            }
        }
        assert(no_repeated_places(rest)) by {
            assert forall|a: int, b: int|
                0 <= a < rest.len() && 0 <= b < rest.len() && a != b implies !same_place(
                #[trigger] rest[a],
                #[trigger] rest[b],
            ) by {
                if j >= 0 {
                    let oa = if a < j {
                        a
                    } else {
                        a + 1
                    };
                    let ob = if b < j {
                        b
                    } else {
                        b + 1
                    };
                    assert(rest[a] == list[oa]);
                    assert(rest[b] == list[ob]);
                }
            }
        }
        assert(no_repeated_places(front)) by {
            assert forall|a: int, b: int|
                0 <= a < front.len() && 0 <= b < front.len() && a != b implies !same_place(
                #[trigger] front[a],
                #[trigger] front[b],
            ) by {
                if a == 0 {
                    assert(front[b] == rest[b - 1]);
                    lemma_same_place_is_an_equivalence(city, rest[b - 1], city);
                } else if b == 0 {
                    assert(front[a] == rest[a - 1]);
                } else {
                    assert(front[a] == rest[a - 1]);
                    assert(front[b] == rest[b - 1]);
                }
            }
        }
        if front.len() > MAX_RECENT_CITIES {
            let kept = front.drop_last();
            assert forall|a: int, b: int|
                0 <= a < kept.len() && 0 <= b < kept.len() && a != b implies !same_place(
                #[trigger] kept[a],
                #[trigger] kept[b],
            ) by {
                assert(kept[a] == front[a]);
                assert(kept[b] == front[b]);
            }
        }
    }
}

/// Choosing a city that is already listed moves that entry to the front and
/// forgets no other: a list of at most five keeps its length, and every
/// other city keeps its order, one place further back where it stood before
/// the chosen one. Here `j` is the first entry for the same place as `city`.
pub proof fn law_choosing_a_listed_city_keeps_the_others(
    list: Seq<GeoResponse>,
    city: GeoResponse,
    j: int,
)
    requires
        0 <= j < list.len(),
        same_place(list[j], city),
        forall|i: int| 0 <= i < j ==> !same_place(#[trigger] list[i], city),
    ensures
        ({
            let after = remembered(list, city);
            &&& list.len() <= 5 ==> after.len() == list.len()
            &&& after[0] == city
            &&& forall|i: int|
                0 <= i < list.len() && i != j && (if i < j {
                    i + 1
                } else {
                    i
                }) < 5 ==> after[if i < j {
                    i + 1
                } else {
                    i
                }] == #[trigger] list[i]
        }),
{
    lemma_same_place_index(list, city, 0);
    let found = same_place_index_from(list, city, 0);
    assert(found == j) by {
        if found == -1 {
            assert(!same_place(list[j], city));
        } else if found < j {
            assert(!same_place(list[found], city));
        } else if found > j {
            assert(!same_place(list[j], city));
        }
    }
    let front = seq![city] + list.remove(j);
    let after = remembered(list, city);
    assert(after == if front.len() > 5 {
        front.drop_last()
    } else {
        front
    });
    assert(front.len() == list.len());
    assert(after[0] == front[0]);
    assert forall|i: int|
        0 <= i < list.len() && i != j && (if i < j {
            i + 1
        } else {
            i
        }) < 5 implies after[if i < j {
        i + 1
    } else {
        i
    }] == #[trigger] list[i] by {
        let p = if i < j {
            i + 1
        } else {
            i
        };
        assert(front[p] == list.remove(j)[p - 1]);
    }
}

/// Choosing a city that is not listed yet puts it in front of all the
/// others, in their order; only where that makes more than five is the last
/// one forgotten, so a list of at most five grows by one up to five.
pub proof fn law_choosing_a_new_city_keeps_the_others(list: Seq<GeoResponse>, city: GeoResponse)
    requires
        forall|i: int| 0 <= i < list.len() ==> !same_place(#[trigger] list[i], city),
    ensures
        ({
            let after = remembered(list, city);
            &&& list.len() <= 5 ==> after.len() == if list.len() < 5 {
                list.len() + 1
            } else {
                5
            }
            &&& after[0] == city
            &&& forall|i: int| 0 <= i < list.len() && i + 1 < 5 ==> after[i + 1] == #[trigger] list[i]
        }),
{
    lemma_same_place_index(list, city, 0);
    let found = same_place_index_from(list, city, 0);
    if found != -1 {
        assert(!same_place(list[found], city));
    }
    let front = seq![city] + list;
    let after = remembered(list, city);
    assert(after == if front.len() > 5 {
        front.drop_last()
    } else {
        front
    });
    assert(after[0] == front[0]);
    assert forall|i: int| 0 <= i < list.len() && i + 1 < 5 implies remembered(list, city)[i + 1]
        == #[trigger] list[i] by {
        assert(front[i + 1] == list[i]);
    }
}

/// While the weather of the current city is fetched, the window shows the
/// loading page; once the weather is set, it shows the weather.
pub proof fn law_pages_follow_fetching(
    pre: App,
    mid: App,
    post: App,
    hourly: Vec<HourlyEntry>,
    daily: Vec<DailyEntry>,
    current: CurrentWeather,
    timespan: Seq<char>,
    fetch: AppCommand,
    done: AppCommand,
)
    requires
        pre.current_city is Some,
        app_step(pre, mid, AppMsg::RefreshWeatherData, timespan, fetch),
        app_step(mid, post, AppMsg::SetWeatherData(hourly, daily, current), timespan, done),
    ensures
        page_of(mid.is_loading, mid.show_no_wifi_error_message, mid.current_city is Some)
            == AppPage::Loading,
        page_of(post.is_loading, post.show_no_wifi_error_message, post.current_city is Some)
            == AppPage::Weather,
        fetch == AppCommand::FetchWeather(pre.current_city->0),
{
}

/// What the main window keeps true: at most five recent cities, no place
/// listed twice, the current city the latest of them, and never loading and
/// showing the error at once.
pub open spec fn consistent_window(app: App) -> bool {
    &&& app.recent_cities@.len() <= MAX_RECENT_CITIES
    &&& no_repeated_places(app.recent_cities@)
    &&& app.current_city == (if app.recent_cities@.len() > 0 {
        Some(app.recent_cities@[0])
    } else {
        None
    })
    &&& !(app.is_loading && app.show_no_wifi_error_message)
}

/// Every message keeps the main window consistent; after the error page is
/// shown the window is not loading and shows the error, after the weather
/// is set it neither loads nor shows the error, and a refresh never shows
/// the error.
pub proof fn law_window_stays_consistent(
    pre: App,
    post: App,
    message: AppMsg,
    active_timespan: Seq<char>,
    command: AppCommand,
)
    requires
        consistent_window(pre),
        app_step(pre, post, message, active_timespan, command),
    ensures
        consistent_window(post),
        message is ShowErrorPage ==> !post.is_loading && post.show_no_wifi_error_message,
        message is SetWeatherData ==> !post.is_loading && !post.show_no_wifi_error_message,
        message is RefreshWeatherData ==> !post.show_no_wifi_error_message,
{
    match message {
        AppMsg::SelectCity(city) => {
            law_recent_cities(pre.recent_cities@, city);
        },
        _ => {},
    }
}

} // verus!
