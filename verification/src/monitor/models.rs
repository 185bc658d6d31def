//! Rows of the monitor's tables: users, airports, countries, routes and the
//! trips found for them.
use vstd::prelude::*;
use crate::time::Timestamp;

verus! {

pub struct User {
    pub id: i32,
    pub email: String,
    pub name: String,
}

pub struct NewUser<'a> {
    pub email: &'a str,
    pub name: &'a str,
}

pub struct Airport {
    pub code: String,
    pub name: String,
}

pub struct Country {
    pub code: String,
    pub name: String,
}

/// A route from an airport to a country.
pub struct Route {
    pub airport_code: String,
    pub country_code: String,
}

/// A route that a user watches, within a budget.
pub struct UserRoute {
    pub user_id: i32,
    pub airport_code: String,
    pub country_code: String,
    pub budget: i16,
    pub trip_type: i16,
}

/// A stored trip. Its dates are the instants at midnight UTC of the days
/// the table holds.
pub struct Trip {
    pub trip_id: i32,
    pub airport_code: String,
    pub country_code: String,
    pub city_code: String,
    pub city_name: String,
    pub depart_at: Timestamp,
    pub arrive_at: Timestamp,
    pub price: i16,
    pub airline: String,
    pub trip_type: i16,
    pub inserted_at: Timestamp,
}

/// A trip to store.
pub struct NewTrip {
    pub airport_code: String,
    pub country_code: String,
    pub city_code: String,
    pub city_name: String,
    pub depart_at: Timestamp,
    pub arrive_at: Timestamp,
    pub price: i16,
    pub airline: String,
    pub trip_type: i16,
    pub inserted_at: Timestamp,
}

} // verus!
