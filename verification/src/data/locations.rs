//! Locations as the locations API sends them, the parameters of a request
//! for one page of them, and the paging through their pages.
use vstd::prelude::*;
use crate::text::{signed_decimal, signed_decimal_string};

verus! {

#[derive(Clone, Debug)]
pub struct Continent {
    pub id: String,
    pub name: String,
}

#[derive(Clone, Debug)]
pub struct Region {
    pub id: String,
    pub name: String,
    pub continent: Option<Continent>,
}

#[derive(Clone, Debug)]
pub struct Country {
    pub id: String,
    pub name: String,
    pub region: Option<Region>,
    pub continent: Option<Continent>,
}

#[derive(Clone, Debug)]
pub struct Subdivision {
    pub id: String,
    pub name: String,
    pub continent: Option<Continent>,
    pub country: Option<Country>,
    pub region: Option<Region>,
}

#[derive(Clone, Debug)]
pub struct AutonomousTerritory {
    pub id: String,
    pub name: String,
    pub continent: Option<Continent>,
    pub country: Option<Country>,
    pub region: Option<Region>,
}

/// Coordinates of a place. The API sends them as floating-point numbers;
/// here each is the decimal text that Rust writes for that number, which
/// is also the text that the statements carry.
#[derive(Clone, Debug)]
pub struct Location {
    pub lat: String,
    pub lon: String,
}

#[derive(Clone, Debug)]
pub struct City {
    pub id: String,
    pub name: String,
    pub autonomous_territory: Option<AutonomousTerritory>,
    pub country: Option<Country>,
    pub continent: Option<Continent>,
    pub subdivision: Option<Subdivision>,
    pub region: Option<Region>,
    pub location: Option<Location>,
}

#[derive(Clone, Debug)]
pub struct Airport {
    pub id: String,
    pub name: String,
    pub autonomous_territory: Option<AutonomousTerritory>,
    pub country: Option<Country>,
    pub continent: Option<Continent>,
    pub subdivision: Option<Subdivision>,
    pub region: Option<Region>,
    pub city: Option<City>,
    pub location: Location,
}

/// A scalar of a JSON document, as far as paging reads it: an integer that
/// fits in `i64`, a string, or anything else.
#[derive(Clone, Debug)]
pub enum JsonScalar {
    Int(i64),
    Text(String),
    Other,
}

/// One page of locations. `search_after` is the cursor of the next page;
/// it is absent on the last page.
pub struct LocationResponse<T> {
    pub locations: Vec<T>,
    pub search_after: Option<Vec<JsonScalar>>,
}

/// The kinds of location that the API serves.
#[derive(Clone, Copy, PartialEq, Eq, Debug)]
pub enum LocationType {
    Airport,
    AutonomousTerritory,
    City,
    Country,
    Continent,
    Subdivision,
    Region,
}

impl LocationType {
    /// The API's name of this kind of location.
    pub open spec fn text(self) -> Seq<char> {
        match self {
            LocationType::Airport => "airport"@,
            LocationType::Country => "country"@,
            LocationType::AutonomousTerritory => "autonomous_territory"@,
            LocationType::City => "city"@,
            LocationType::Continent => "continent"@,
            LocationType::Region => "region"@,
            LocationType::Subdivision => "subdivision"@,
        }
    }

    /// The API's name of this kind of location (what `Display` writes).
    pub fn to_string(&self) -> (s: String)
        ensures
            s@ == self.text(),
    {
        let t: &str = match self {
            LocationType::Airport => "airport",
            LocationType::Country => "country",
            LocationType::AutonomousTerritory => "autonomous_territory",
            LocationType::City => "city",
            LocationType::Continent => "continent",
            LocationType::Region => "region",
            LocationType::Subdivision => "subdivision",
        };
        String::from_str(t)
    }
}

/// The view of a list of request parameters.
pub open spec fn params_view(p: Seq<(String, String)>) -> Seq<(Seq<char>, Seq<char>)> {
    p.map_values(|kv: (String, String)| (kv.0@, kv.1@))
}

/// A cursor that a request can carry: at least two scalars, the first an
/// integer and the second a string.
pub open spec fn usable_cursor(c: Seq<JsonScalar>) -> bool {
    &&& c.len() >= 2
    &&& c[0] is Int
    &&& c[1] is Text
}

/// The parameters of a request for the page after `cursor`, if any.
pub open spec fn dump_params(
    kind: Seq<char>,
    cursor: Option<Seq<JsonScalar>>,
) -> Seq<(Seq<char>, Seq<char>)> {
    let first = seq![
        ("location_types"@, kind),
        ("locale"@, "en-US"@),
        ("limit"@, "15000"@),
    ];
    match cursor {
        Some(c) => first + seq![
            ("search_after"@, signed_decimal(c[0]->Int_0 as int)),
            ("search_after"@, c[1]->Text_0@),
        ],
        None => first,
    }
}

pub open spec fn cursor_view(c: Option<Vec<JsonScalar>>) -> Option<Seq<JsonScalar>> {
    match c {
        Some(v) => Some(v@),
        None => None,
    }
}

/// The parameters of the request for a page of the locations dump: the
/// kind, the locale, the page size and, past the first page, the two parts
/// of the cursor.
pub fn dump_query_params(kind: String, search_after: &Option<Vec<JsonScalar>>) -> (p: Vec<
    (String, String),
>)
    requires
        search_after matches Some(c) ==> usable_cursor(c@),
    ensures
        params_view(p@) == dump_params(kind@, cursor_view(*search_after)),
{
    let mut p: Vec<(String, String)> = Vec::new();
    p.push((String::from_str("location_types"), kind));
    p.push((String::from_str("locale"), String::from_str("en-US")));
    p.push((String::from_str("limit"), String::from_str("15000")));
    match search_after {
        Some(c) => {
            let rank = match &c[0] {
                JsonScalar::Int(i) => signed_decimal_string(*i),
                _ => String::new(),
            };
            let id = match &c[1] {
                JsonScalar::Text(s) => s.clone(),
                _ => String::new(),
            };
            p.push((String::from_str("search_after"), rank));
            p.push((String::from_str("search_after"), id));
        },
        None => {},
    }
    assert(params_view(p@) =~= dump_params(kind@, cursor_view(*search_after)));
    p
}

/// The parameters of a request for a page of locations of one kind.
pub fn location_query_params(location_type: &LocationType, search_after: &Option<Vec<JsonScalar>>) -> (p:
    Vec<(String, String)>)
    requires
        search_after matches Some(c) ==> usable_cursor(c@),
    ensures
        params_view(p@) == dump_params(location_type.text(), cursor_view(*search_after)),
{
    dump_query_params(location_type.to_string(), search_after)
}

/// Takes in one page: its locations go to the end of `locations`, and the
/// cursor of the next page, if any, comes back.
pub fn absorb_page<T>(locations: &mut Vec<T>, page: LocationResponse<T>) -> (next: Option<
    Vec<JsonScalar>,
>)
    ensures
        final(locations)@ == old(locations)@ + page.locations@,
        next == page.search_after,
{
    let LocationResponse { locations: mut fresh, search_after } = page;
    locations.append(&mut fresh);
    search_after
}

} // verus!
