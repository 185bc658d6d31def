//! The simpler client of the locations dump: airports and countries by code
//! and name.
use vstd::prelude::*;
use crate::data::locations::{JsonScalar, dump_params, dump_query_params, params_view, cursor_view, usable_cursor};

verus! {

#[derive(Clone, Debug)]
pub struct Location {
    pub code: String,
    pub name: String,
}

/// One page of the dump; `search_after` is the cursor of the next page.
pub struct LocationsResponse {
    pub locations: Vec<Location>,
    pub search_after: Option<Vec<JsonScalar>>,
}

#[derive(Clone, Copy, PartialEq, Eq, Debug)]
pub enum LocationType {
    Airport,
    Country,
}

impl LocationType {
    /// The API's name of this kind of location.
    pub open spec fn text(self) -> Seq<char> {
        match self {
            LocationType::Airport => "airport"@,
            LocationType::Country => "country"@,
        }
    }

    /// The API's name of this kind of location.
    pub fn to_string(&self) -> (s: String)
        ensures
            s@ == self.text(),
    {
        match self {
            LocationType::Airport => String::from_str("airport"),
            LocationType::Country => String::from_str("country"),
        }
    }
}

/// The parameters of the request that `fetch_locations` sends.
pub fn fetch_locations_params(location_type: &LocationType, search_after: &Option<Vec<JsonScalar>>) -> (p:
    Vec<(String, String)>)
    requires
        search_after matches Some(c) ==> usable_cursor(c@),
    ensures
        params_view(p@) == dump_params(location_type.text(), cursor_view(*search_after)),
{
    dump_query_params(location_type.to_string(), search_after)
}

} // verus!
