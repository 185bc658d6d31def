//! What the monitor asks the flight search API, and what it reads of the
//! answer.
use vstd::prelude::*;
use crate::data::locations::params_view;
use crate::text::{decimal, decimal_string};
use crate::time::{Timestamp, day_month_year, day_month_year_text};

verus! {

/// A search for round trips from `fly_from` to `fly_to`, leaving between
/// `date_from` and `date_to`, with a stay of `nights_in_dst_from` to
/// `nights_in_dst_to` nights and at most `max_stopovers` stopovers.
pub struct FlightsQuery {
    pub fly_from: String,
    pub fly_to: String,
    pub date_from: Timestamp,
    pub date_to: Timestamp,
    pub nights_in_dst_from: usize,
    pub nights_in_dst_to: usize,
    pub max_stopovers: usize,
}

/// The answer to a search: the trips found and how many there are.
pub struct FlightsResponse {
    pub data: Vec<Trip>,
    pub results: i32,
}

/// One flight of a trip.
#[derive(Clone, Debug)]
pub struct TripRouteFlight {
    pub fly_from: String,
    pub fly_to: String,
    pub airline: String,
    pub flight_no: i64,
    pub utc_arrival: Timestamp,
    pub utc_departure: Timestamp,
}

#[derive(Clone, Debug)]
pub struct Country {
    pub code: String,
    pub name: String,
}

/// A round trip found by a search. The API gives its price as a
/// floating-point number; here it is that number converted to `u16` as
/// `as` converts it (saturating, the fraction dropped).
#[derive(Clone, Debug)]
pub struct Trip {
    pub fly_from: String,
    pub fly_to: String,
    pub city_from: String,
    pub city_to: String,
    pub city_code_to: String,
    pub country_to: Country,
    pub price: u16,
    pub route: Vec<TripRouteFlight>,
    pub length_in_nights: usize,
    pub deep_link: String,
}

impl Trip {
    /// When the first flight of the trip leaves.
    pub fn utc_departure(&self) -> (t: Timestamp)
        requires
            self.route@.len() > 0,
        ensures
            t == self.route@[0].utc_departure,
    {
        self.route[0].utc_departure
    }

    /// When the last flight of the trip leaves.
    pub fn utc_return(&self) -> (t: Timestamp)
        requires
            self.route@.len() > 0,
        ensures
            t == self.route@[self.route@.len() - 1].utc_departure,
    {
        self.route[self.route.len() - 1].utc_departure
    }
}

/// The parameters of a search, with both dates written by chrono as
/// `dd/mm/yyyy`; `None` where chrono has no such date.
pub open spec fn search_params(q: FlightsQuery) -> Option<Seq<(Seq<char>, Seq<char>)>> {
    match (day_month_year_text(q.date_from.secs, q.date_from.nanos), day_month_year_text(q.date_to.secs, q.date_to.nanos)) {
        (Some(from), Some(to)) => Some(seq![
            ("date_from"@, from),
            ("date_to"@, to),
            ("fly_from"@, q.fly_from@),
            ("fly_to"@, q.fly_to@),
            ("max_stopovers"@, decimal(q.max_stopovers as nat)),
            ("nights_in_dst_from"@, decimal(q.nights_in_dst_from as nat)),
            ("nights_in_dst_to"@, decimal(q.nights_in_dst_to as nat)),
            ("limit"@, "1000"@),
            ("sort"@, "price"@),
        ]),
        _ => None,
    }
}

pub open spec fn opt_params_view(p: Option<Vec<(String, String)>>) -> Option<Seq<(Seq<char>, Seq<char>)>> {
    match p {
        Some(v) => Some(params_view(v@)),
        None => None,
    }
}

/// The parameters that `search_flights` sends, at most 1000 trips sorted
/// by price.
pub fn search_query_params(query: &FlightsQuery) -> (p: Option<Vec<(String, String)>>)
    ensures
        opt_params_view(p) == search_params(*query),
{
    let from = day_month_year(query.date_from);
    let to = day_month_year(query.date_to);
    match (from, to) {
        (Some(from), Some(to)) => {
            let p = vec![
                (String::from_str("date_from"), from),
                (String::from_str("date_to"), to),
                (String::from_str("fly_from"), query.fly_from.clone()),
                (String::from_str("fly_to"), query.fly_to.clone()),
                (String::from_str("max_stopovers"), decimal_string(query.max_stopovers as u64)),
                (String::from_str("nights_in_dst_from"), decimal_string(query.nights_in_dst_from as u64)),
                (String::from_str("nights_in_dst_to"), decimal_string(query.nights_in_dst_to as u64)),
                (String::from_str("limit"), String::from_str("1000")),
                (String::from_str("sort"), String::from_str("price")),
            ];
            assert(params_view(p@) =~= search_params(*query)->Some_0);
            Some(p)
        },
        _ => None,
    }
}

} // verus!
