//! The dialog that searches for a city.

use vstd::prelude::*;
use crate::text::{is_blank, is_blank_text};
use crate::weather_api::find_city::GeoResponse;

verus! {

/// The state of the city picker.
#[derive(Debug)]
pub struct CityPickerDialog {
    /// The text in the search entry.
    pub search_query: String,
    /// The cities listed under the entry.
    pub search_results: Vec<GeoResponse>,
    /// The cities chosen last, listed while the entry is blank.
    pub recent_cities_list: Vec<GeoResponse>,
}

/// The messages the city picker handles.
#[derive(Debug)]
pub enum CityPickerDialogMsg {
    SearchQueryChanged(String),
    SearchCities,
    SelectCity(GeoResponse),
    SetRecentCities(Vec<GeoResponse>),
}

/// What the city picker must do outside its state after a message.
#[derive(Debug)]
pub enum CityPickerCommand {
    /// Nothing.
    Nothing,
    /// Search the geocoding service for places with this name, then list
    /// what it finds (`show_search_results`).
    Search(String),
    /// Hand the city to the main window, empty the search entry and close.
    Choose(GeoResponse),
}

/// What a message does to the city picker and what it asks of the dialog.
pub open spec fn city_picker_step(
    pre: CityPickerDialog,
    post: CityPickerDialog,
    message: CityPickerDialogMsg,
    command: CityPickerCommand,
) -> bool {
    match message {
        CityPickerDialogMsg::SearchQueryChanged(search) => {
            &&& post.search_query@ == search@
            &&& post.recent_cities_list@ == pre.recent_cities_list@
            &&& post.search_results@ == (if is_blank_text(search@) {
                pre.recent_cities_list@
            } else {
                pre.search_results@
            })
            &&& command is Nothing
        },
        CityPickerDialogMsg::SearchCities => {
            &&& post.search_query@ == pre.search_query@
            &&& post.recent_cities_list@ == pre.recent_cities_list@
            &&& if is_blank_text(pre.search_query@) {
                post.search_results@.len() == 0 && command is Nothing
            } else {
                &&& post.search_results@ == pre.search_results@
                &&& command matches CityPickerCommand::Search(query)
                &&& query@ == pre.search_query@
            }
        },
        CityPickerDialogMsg::SelectCity(city) => {
            &&& post.search_query@ == pre.search_query@
            &&& post.recent_cities_list@ == pre.recent_cities_list@
            &&& post.search_results@ == pre.search_results@
            &&& command == CityPickerCommand::Choose(city)
        },
        CityPickerDialogMsg::SetRecentCities(cities) => {
            &&& post.search_query@ == pre.search_query@
            &&& post.recent_cities_list@ == cities@
            &&& post.search_results@ == (if is_blank_text(pre.search_query@) {
                cities@
            } else {
                pre.search_results@
            })
            &&& command is Nothing
        },
    }
}

impl CityPickerDialog {
    /// A city picker with an empty entry and nothing listed.
    pub fn new() -> (r: CityPickerDialog)
        ensures
            r.search_query@.len() == 0,
            r.search_results@.len() == 0,
            r.recent_cities_list@.len() == 0,
    {
        CityPickerDialog {
            search_query: String::new(),
            search_results: Vec::new(),
            recent_cities_list: Vec::new(),
        }
    }

    /// Handles one message; returns what the dialog must do outside.
    pub fn update(&mut self, message: CityPickerDialogMsg) -> (command: CityPickerCommand)
        ensures
            city_picker_step(*old(self), *final(self), message, command),
    {
        match message {
            CityPickerDialogMsg::SearchQueryChanged(search) => {
                self.search_query = search;
                if is_blank(self.search_query.as_str()) {
                    self.search_results = self.recent_cities_list.clone();
                }
                CityPickerCommand::Nothing
            },
            CityPickerDialogMsg::SearchCities => {
                if is_blank(self.search_query.as_str()) {
                    self.search_results = Vec::new();
                    return CityPickerCommand::Nothing;
                }
                CityPickerCommand::Search(self.search_query.clone())
            },
            CityPickerDialogMsg::SelectCity(city) => CityPickerCommand::Choose(city),
            CityPickerDialogMsg::SetRecentCities(recent_cities) => {
                self.recent_cities_list = recent_cities;
                if is_blank(self.search_query.as_str()) {
                    self.search_results = self.recent_cities_list.clone();
                }
                CityPickerCommand::Nothing
            },
        }
    }

    /// Lists the cities a search found, in place of what was listed.
    pub fn show_search_results(&mut self, cities: Vec<GeoResponse>)
        ensures
            final(self).search_results@ == cities@,
            final(self).search_query@ == old(self).search_query@,
            final(self).recent_cities_list@ == old(self).recent_cities_list@,
    {
        self.search_results = cities;
    }
}

} // verus!
