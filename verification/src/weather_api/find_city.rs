//! Places from the Open-Meteo geocoding service.

use vstd::prelude::*;
use vstd::string::StringExecFns;
use crate::binary64::Binary64;

verus! {

/// The search endpoint of the Open-Meteo geocoding service.
pub const GEOCODING_BASE_URL: &'static str = "https://geocoding-api.open-meteo.com/v1/search";

/// How many places a search asks for, written in decimal.
pub const NUM_SEARCH_RESULTS_TO_RETURN: &'static str = "5";

/// A place found by the geocoding service.
#[derive(Debug)]
pub struct GeoResponse {
    pub name: String,
    pub country: String,
    /// The first-level administrative area (state, region, province).
    pub admin1: String,
    pub latitude: Binary64,
    pub longitude: Binary64,
}

/// The places found by one search.
#[derive(Debug)]
pub struct GeoResponseList {
    pub results: Vec<GeoResponse>,
}

/// Whether two places are equal: the same texts, and coordinates that are
/// equal as binary64 numbers (so a place with a NaN coordinate equals none).
pub open spec fn same_place(a: GeoResponse, b: GeoResponse) -> bool {
    &&& a.name@ == b.name@
    &&& a.country@ == b.country@
    &&& a.admin1@ == b.admin1@
    &&& a.latitude.is_equal(b.latitude)
    &&& a.longitude.is_equal(b.longitude)
}

impl Clone for GeoResponse {
    fn clone(&self) -> (r: Self)
        ensures
            r == *self,
    {
        GeoResponse {
            name: self.name.clone(),
            country: self.country.clone(),
            admin1: self.admin1.clone(),
            latitude: self.latitude,
            longitude: self.longitude,
        }
    }
}

impl PartialEq for GeoResponse {
    fn eq(&self, other: &Self) -> (r: bool) {
        self.name == other.name && self.country == other.country && self.admin1 == other.admin1
            && self.latitude.ieee_eq(&other.latitude) && self.longitude.ieee_eq(
            &other.longitude,
        )
    }
}

impl vstd::std_specs::cmp::PartialEqSpecImpl for GeoResponse {
    open spec fn obeys_eq_spec() -> bool {
        true
    }

    open spec fn eq_spec(&self, other: &GeoResponse) -> bool {
        same_place(*self, *other)
    }
}

/// The request URL of a search for places named `search_string`.
pub open spec fn city_search_url_text(search_string: Seq<char>) -> Seq<char> {
    GEOCODING_BASE_URL@ + "?name="@ + search_string + "&count="@ + NUM_SEARCH_RESULTS_TO_RETURN@
}

/// The request URL of a search for places named `search_string`; the text is
/// put into the query as it is.
pub fn city_search_url(search_string: &str) -> (r: String)
    ensures
        r@ == city_search_url_text(search_string@),
{
    let mut url = String::from_str(GEOCODING_BASE_URL);
    url.append("?name=");
    url.append(search_string);
    url.append("&count=");
    url.append(NUM_SEARCH_RESULTS_TO_RETURN);
    url
}

} // verus!
