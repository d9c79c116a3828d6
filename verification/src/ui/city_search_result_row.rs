//! A row of the city picker's list: one city, with a button to choose it.

use vstd::prelude::*;
use crate::modals::city_picker::CityPickerDialogMsg;
use crate::weather_api::find_city::GeoResponse;

verus! {

/// A row that shows one city.
#[derive(Debug)]
pub struct CitySearchResultRow {
    pub city: GeoResponse,
}

/// The messages a row handles.
#[derive(Debug, Clone, Copy, PartialEq, Eq, Structural)]
pub enum CityRowMsg {
    Clicked,
}

impl CitySearchResultRow {
    /// A row for `city`.
    pub fn init_model(city: GeoResponse) -> (r: CitySearchResultRow)
        ensures
            r.city == city,
    {
        CitySearchResultRow { city }
    }

    /// Handles one message; returns the message for the city picker.
    pub fn update(&self, message: CityRowMsg) -> (r: CityPickerDialogMsg)
        ensures
            r == CityPickerDialogMsg::SelectCity(self.city),
    {
        match message {
            CityRowMsg::Clicked => CityPickerDialogMsg::SelectCity(self.city.clone()),
        }
    }
}

} // verus!
