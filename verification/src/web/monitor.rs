//! Routes that a user asks to watch.
use vstd::prelude::*;

verus! {

/// A route to watch: from an airport to a country, within a budget.
pub struct MonitoredRoute {
    pub from_airport_code: String,
    pub to_country_code: String,
    pub budget: i16,
    pub trip_type: i16,
}

/// The statement that stores a watched route, its values bound in order:
/// the airport, the country, the budget, the trip type and the user, 1.
pub open spec fn spec_monitored_route_insert() -> Seq<char> {
    "INSERT INTO monitored_routes (airport_code, country_code, budget, trip_type, monitored_by) VALUES ($1, $2, $3, $4, $5)"@
}

/// The statement that stores a watched route.
pub fn monitored_route_insert() -> (s: &'static str)
    ensures
        s@ == spec_monitored_route_insert(),
{
    "INSERT INTO monitored_routes (airport_code, country_code, budget, trip_type, monitored_by) VALUES ($1, $2, $3, $4, $5)"
}

/// What storing the watched routes does next.
pub enum RoutesStep {
    /// Insert the route at this index.
    Insert(usize),
    /// All routes went in: answer OK.
    Done,
    /// An insert failed: answer with an error, and insert no more.
    Failed,
}

/// The next step of storing `count` routes, after the first `inserted`
/// went in and the last insert succeeded (`last_ok`) or not. Start with
/// `next_routes_step(0, count, true)`.
pub fn next_routes_step(inserted: usize, count: usize, last_ok: bool) -> (step: RoutesStep)
    requires
        inserted <= count,
    ensures
        !last_ok ==> step is Failed,
        last_ok && inserted < count ==> step == RoutesStep::Insert(inserted),
        last_ok && inserted == count ==> step is Done,
{
    if !last_ok {
        RoutesStep::Failed
    } else if inserted < count {
        RoutesStep::Insert(inserted)
    } else {
        RoutesStep::Done
    }
}

} // verus!
