//! Registering a trip to monitor: the airports at both ends, the routes
//! between them, the trip and its name.
use vstd::prelude::*;
use crate::data::db_schema::{DistanceKmFunction, Locations, LocationTypeEnum, MonitoredTrips, Routes, TripRoutes};
use crate::sql::model::{
    BinOp, InsertQuery, InsertQueryView, SelectQuery, SelectQueryView, SqlExpr,
    SqlExprView, SqlValue, SqlValueView, TableRef, TableRefView, Term, TermView, rows_view,
    texts_view, values_view, pairs_view,
};
use crate::sql::parts::{bin, bin_v, col, col_v, cref, cref_v, integer, int_v, item, item_v, text, text_v};
use crate::sql::render::{
    insert_sql, insert_text, postgres_select, postgres_select_where_equal, postgres_select_where_equal_in, rows_fit,
    sea_select_where_equal_in_sql, sea_select_where_equal_sql, select_sql,
};
use crate::sql::meaning::{after_insert, column_value, selects, truth, value_of};
use crate::text::{decimal, decimal_string};

verus! {

/// A request to monitor trips from around a city to around a city, or to a
/// country (all of it, or some of its subdivisions).
pub struct NewTripRequest {
    pub destination_type: String,
    pub departure_city_id: String,
    pub departure_radius: u16,
    pub destination_city_id: Option<String>,
    pub destination_city_radius: Option<u16>,
    pub destination_country_id: Option<String>,
    pub destination_country_subdivisions: Vec<String>,
}

/// Coordinates of a city, each the decimal text that Rust writes for the
/// floating-point number the database gave.
pub struct Coordinates {
    pub latitude: String,
    pub longitude: String,
}

/// Where a trip goes.
pub enum Destination {
    /// The airports of a city and those within `radius` km of it.
    AroundCity { city_id: String, radius: u16 },
    /// The airports of a country, or of some of its subdivisions.
    InCountry { country_id: String, subdivisions: Vec<String> },
}

/// A request can be served: a city destination names its city and radius;
/// any other names its country.
pub open spec fn destination_given(r: NewTripRequest) -> bool {
    if r.destination_type@ == "city"@ {
        r.destination_city_id is Some && r.destination_city_radius is Some
    } else {
        r.destination_country_id is Some
    }
}

/// Where a request sends its trips.
pub fn destination_of(request: &NewTripRequest) -> (d: Destination)
    requires
        destination_given(*request),
    ensures
        request.destination_type@ == "city"@ ==> (d matches Destination::AroundCity { city_id, radius }
            && city_id@ == request.destination_city_id->Some_0@
            && radius == request.destination_city_radius->Some_0),
        request.destination_type@ != "city"@ ==> (d matches Destination::InCountry { country_id, subdivisions }
            && country_id@ == request.destination_country_id->Some_0@
            && texts_view(subdivisions@) == texts_view(request.destination_country_subdivisions@)),
{
    let city = String::from_str("city");
    if request.destination_type == city {
        let id = match &request.destination_city_id {
            Some(id) => id.clone(),
            None => String::new(),
        };
        let radius = match request.destination_city_radius {
            Some(r) => r,
            None => 0,
        };
        Destination::AroundCity { city_id: id, radius }
    } else {
        let id = match &request.destination_country_id {
            Some(id) => id.clone(),
            None => String::new(),
        };
        let subdivisions = request.destination_country_subdivisions.clone();
        proof {
            assert(subdivisions@ == request.destination_country_subdivisions@);
        }
        Destination::InCountry { country_id: id, subdivisions }
    }
}

/// The distance in km from the point of a location to the given point.
pub open spec fn distance_v(latitude: Seq<char>, longitude: Seq<char>) -> SqlExprView {
    SqlExprView::Function(
        DistanceKmFunction::spec_name(),
        seq![
            TermView::Column(cref_v(None, Locations::Latitude.spec_name())),
            TermView::Column(cref_v(None, Locations::Longitude.spec_name())),
            TermView::Raw(latitude),
            TermView::Raw(longitude),
        ],
    )
}

/// The airports of a city, and those within `radius` km of its coordinates.
pub open spec fn airports_in_range_view(city_id: Seq<char>, radius: u16, latitude: Seq<char>, longitude: Seq<char>) -> SelectQueryView {
    SelectQueryView {
        items: seq![item_v(col_v(Locations::Id.spec_name()))],
        from: TableRefView { table: Locations::Table.spec_name(), alias: None },
        joins: seq![],
        conditions: seq![
            bin_v(col_v(Locations::LocationType.spec_name()), BinOp::Eq, text_v(LocationTypeEnum::Airport.text())),
            bin_v(
                bin_v(col_v(Locations::CityId.spec_name()), BinOp::Eq, text_v(city_id)),
                BinOp::Or,
                bin_v(distance_v(latitude, longitude), BinOp::Lte, int_v(radius as i64)),
            ),
        ],
        group_by: seq![],
        order_by: seq![],
        limit: None,
    }
}

/// The statement that lists the airports around a city.
pub fn airports_in_range_query(city_id: &String, radius: u16, coordinates: &Coordinates) -> (q: SelectQuery)
    ensures
        q@ == airports_in_range_view(city_id@, radius, coordinates.latitude@, coordinates.longitude@),
{
    let ghost v = airports_in_range_view(city_id@, radius, coordinates.latitude@, coordinates.longitude@);
    let args = vec![
        Term::Column(cref(None, Locations::Latitude.name())),
        Term::Column(cref(None, Locations::Longitude.name())),
        Term::Raw(coordinates.latitude.clone()),
        Term::Raw(coordinates.longitude.clone()),
    ];
    let distance = SqlExpr::Function(String::from_str(DistanceKmFunction::name()), args);
    assert(distance@ == distance_v(coordinates.latitude@, coordinates.longitude@)) by {
        assert(args@.map_values(|t: Term| t@) =~= distance_v(coordinates.latitude@, coordinates.longitude@)->Function_1);
    }
    let near = bin(
        bin(col(Locations::CityId.name()), BinOp::Eq, text(city_id.clone())),
        BinOp::Or,
        bin(distance, BinOp::Lte, integer(radius as i64)),
    );
    let q = SelectQuery {
        items: vec![item(col(Locations::Id.name()))],
        from: TableRef { table: String::from_str(Locations::Table.name()), alias: None },
        joins: Vec::new(),
        conditions: vec![
            bin(col(Locations::LocationType.name()), BinOp::Eq, text(LocationTypeEnum::Airport.to_string())),
            near,
        ],
        group_by: Vec::new(),
        order_by: Vec::new(),
        limit: None,
    };
    assert(q@.items =~= v.items);
    assert(q@.joins =~= v.joins);
    assert(q@.conditions =~= v.conditions);
    assert(q@.group_by =~= v.group_by);
    assert(q@.order_by =~= v.order_by);
    q
}

/// Every pair of a departure and a destination airport: for each departure
/// in order, each destination in order.
pub open spec fn route_pairs(departures: Seq<Seq<char>>, destinations: Seq<Seq<char>>) -> Seq<(Seq<char>, Seq<char>)>
    decreases departures.len(),
{
    if departures.len() == 0 {
        seq![]
    } else {
        route_pairs(departures.drop_last(), destinations)
            + destinations.map_values(|a: Seq<char>| (departures.last(), a))
    }
}

/// The pairs are exactly the departures times the destinations.
pub proof fn lemma_route_pairs(departures: Seq<Seq<char>>, destinations: Seq<Seq<char>>)
    ensures
        route_pairs(departures, destinations).len() == departures.len() * destinations.len(),
        forall|d: Seq<char>, a: Seq<char>|
            route_pairs(departures, destinations).contains((d, a))
                <==> departures.contains(d) && destinations.contains(a),
    decreases departures.len(),
{
    if departures.len() > 0 {
        let init = departures.drop_last();
        let last = departures.last();
        let tail = destinations.map_values(|a: Seq<char>| (last, a));
        lemma_route_pairs(init, destinations);
        assert(departures.len() * destinations.len() == init.len() * destinations.len() + destinations.len()) by (nonlinear_arith)
            requires departures.len() == init.len() + 1;
        assert forall|d: Seq<char>, a: Seq<char>|
            route_pairs(departures, destinations).contains((d, a))
                <==> departures.contains(d) && destinations.contains(a) by {
            let all = route_pairs(departures, destinations);
            let front = route_pairs(init, destinations);
            assert(all == front + tail);
            if all.contains((d, a)) {
                let k = choose|k: int| 0 <= k < all.len() && all[k] == (d, a);
                if k < front.len() {
                    assert(front[k] == (d, a));
                    assert(front.contains((d, a)));
                    let j = choose|j: int| 0 <= j < init.len() && init[j] == d;
                    assert(departures[j] == d);
                } else {
                    assert(tail[k - front.len()] == (d, a));
                    assert(destinations[k - front.len()] == a);
                    assert(departures[departures.len() - 1] == d);
                }
            }
            if departures.contains(d) && destinations.contains(a) {
                let j = choose|j: int| 0 <= j < departures.len() && departures[j] == d;
                let i = choose|i: int| 0 <= i < destinations.len() && destinations[i] == a;
                if j < departures.len() - 1 {
                    assert(init[j] == d);
                    assert(init.contains(d));
                    assert(front.contains((d, a)));
                    let k = choose|k: int| 0 <= k < front.len() && front[k] == (d, a);
                    assert(all[k] == (d, a));
                } else {
                    assert(tail[i] == (d, a));
                    assert(all[front.len() + i] == (d, a));
                }
            }
        }
    }
}

pub open spec fn pair_rows(pairs: Seq<(Seq<char>, Seq<char>)>) -> Seq<Seq<SqlValueView>> {
    pairs.map_values(|p: (Seq<char>, Seq<char>)| seq![SqlValueView::Text(p.0), SqlValueView::Text(p.1)])
}

/// The insert of the routes between the airports, skipping those already
/// there.
pub open spec fn missing_routes_view(departures: Seq<Seq<char>>, destinations: Seq<Seq<char>>) -> InsertQueryView {
    InsertQueryView {
        table: Routes::Table.spec_name(),
        columns: seq![Routes::FromLocationId.spec_name(), Routes::ToLocationId.spec_name()],
        rows: pair_rows(route_pairs(departures, destinations)),
        ignore_conflicts: true,
        returning: None,
    }
}

/// The rows `(prefix, first, second)` of some pairs.
pub open spec fn prefixed_rows(prefix: SqlValueView, pairs: Seq<(Seq<char>, Seq<char>)>) -> Seq<Seq<SqlValueView>> {
    pairs.map_values(|p: (Seq<char>, Seq<char>)| seq![prefix, SqlValueView::Text(p.0), SqlValueView::Text(p.1)])
}

/// Builds the rows of all pairs, each behind the values of `prefix`.
fn pair_rows_of(departures: &Vec<String>, destinations: &Vec<String>, prefix: &Option<i32>) -> (rows: Vec<Vec<SqlValue>>)
    ensures
        prefix is None ==> rows_view(rows@) == pair_rows(route_pairs(texts_view(departures@), texts_view(destinations@))),
        prefix matches Some(p) ==> rows_view(rows@) == prefixed_rows(SqlValueView::Int(p as i64), route_pairs(texts_view(departures@), texts_view(destinations@))),
{
    let ghost deps = texts_view(departures@);
    let ghost dests = texts_view(destinations@);
    let mut rows: Vec<Vec<SqlValue>> = Vec::new();
    for i in 0..departures.len()
        invariant
            deps == texts_view(departures@),
            dests == texts_view(destinations@),
            prefix is None ==> rows_view(rows@) == pair_rows(route_pairs(deps.take(i as int), dests)),
            prefix matches Some(p) ==> rows_view(rows@) == prefixed_rows(SqlValueView::Int(p as i64), route_pairs(deps.take(i as int), dests)),
    {
        let ghost front = rows@;
        assert(deps.take(i + 1).drop_last() =~= deps.take(i as int));
        assert(deps.take(i + 1).last() == departures@[i as int]@);
        for j in 0..destinations.len()
            invariant
                deps == texts_view(departures@),
                dests == texts_view(destinations@),
                0 <= i < departures@.len(),
                rows@.len() == front.len() + j,
                forall|k: int| 0 <= k < front.len() ==> #[trigger] rows@[k] == front[k],
                forall|k: int| 0 <= k < j ==> {
                    &&& prefix is None ==> values_view((#[trigger] rows@[front.len() + k])@) == seq![
                        SqlValueView::Text(departures@[i as int]@),
                        SqlValueView::Text(destinations@[k]@),
                    ]
                    &&& prefix matches Some(p) ==> values_view(rows@[front.len() + k]@) == seq![
                        SqlValueView::Int(p as i64),
                        SqlValueView::Text(departures@[i as int]@),
                        SqlValueView::Text(destinations@[k]@),
                    ]
                },
        {
            let row = match prefix {
                Some(p) => vec![
                    SqlValue::Int(*p as i64),
                    SqlValue::Text(departures[i].clone()),
                    SqlValue::Text(destinations[j].clone()),
                ],
                None => vec![SqlValue::Text(departures[i].clone()), SqlValue::Text(destinations[j].clone())],
            };
            assert(prefix is None ==> values_view(row@) =~= seq![
                SqlValueView::Text(departures@[i as int]@),
                SqlValueView::Text(destinations@[j as int]@),
            ]);
            assert(prefix matches Some(p) ==> values_view(row@) =~= seq![
                SqlValueView::Int(p as i64),
                SqlValueView::Text(departures@[i as int]@),
                SqlValueView::Text(destinations@[j as int]@),
            ]);
            rows.push(row);
        }
        let ghost tail = dests.map_values(|a: Seq<char>| (deps.take(i + 1).last(), a));
        proof {
        assert(route_pairs(deps.take(i + 1), dests) == route_pairs(deps.take(i as int), dests) + tail);
        assert(rows@.len() == front.len() + dests.len());
        assert forall|k: int| 0 <= k < dests.len() implies tail[k] == (departures@[i as int]@, #[trigger] destinations@[k]@) by {
            assert(dests[k] == destinations@[k]@);
        }
        if prefix is None {
            assert forall|k: int| 0 <= k < rows@.len() implies #[trigger] rows_view(rows@)[k] == (pair_rows(route_pairs(deps.take(i as int), dests)) + pair_rows(tail))[k] by {
                if k < front.len() {
                    assert(rows@[k] == front[k]);
                } else {
                    let m = k - front.len();
                    assert(rows@[front.len() + m] == rows@[k]);
                    assert(tail[m] == (departures@[i as int]@, destinations@[m]@));
                }
            }
            assert(rows_view(rows@) =~= pair_rows(route_pairs(deps.take(i as int), dests)) + pair_rows(tail));
            assert(pair_rows(route_pairs(deps.take(i as int), dests) + tail) =~= pair_rows(route_pairs(deps.take(i as int), dests)) + pair_rows(tail));
        } else {
            let p = prefix->Some_0;
            assert forall|k: int| 0 <= k < rows@.len() implies #[trigger] rows_view(rows@)[k] == (prefixed_rows(SqlValueView::Int(p as i64), route_pairs(deps.take(i as int), dests)) + prefixed_rows(SqlValueView::Int(p as i64), tail))[k] by {
                if k < front.len() {
                    assert(rows@[k] == front[k]);
                } else {
                    let m = k - front.len();
                    assert(rows@[front.len() + m] == rows@[k]);
                    assert(tail[m] == (departures@[i as int]@, destinations@[m]@));
                }
            }
            assert(rows_view(rows@) =~= prefixed_rows(SqlValueView::Int(p as i64), route_pairs(deps.take(i as int), dests)) + prefixed_rows(SqlValueView::Int(p as i64), tail));
            assert(prefixed_rows(SqlValueView::Int(p as i64), route_pairs(deps.take(i as int), dests) + tail) =~= prefixed_rows(SqlValueView::Int(p as i64), route_pairs(deps.take(i as int), dests)) + prefixed_rows(SqlValueView::Int(p as i64), tail));
        }
        }
    }
    assert(deps.take(departures@.len() as int) =~= deps);
    rows
}

/// The statement that adds the missing routes between the airports.
pub fn missing_routes_insert(departures: &Vec<String>, destinations: &Vec<String>) -> (q: InsertQuery)
    ensures
        q@ == missing_routes_view(texts_view(departures@), texts_view(destinations@)),
{
    let columns = vec![String::from_str(Routes::FromLocationId.name()), String::from_str(Routes::ToLocationId.name())];
    assert(texts_view(columns@) =~= seq![Routes::FromLocationId.spec_name(), Routes::ToLocationId.spec_name()]);
    InsertQuery {
        table: String::from_str(Routes::Table.name()),
        columns,
        rows: pair_rows_of(departures, destinations, &None),
        ignore_conflicts: true,
        returning: None,
    }
}

/// The insert of the routes of a trip.
pub open spec fn trip_routes_view(departures: Seq<Seq<char>>, destinations: Seq<Seq<char>>, trip_id: i32) -> InsertQueryView {
    InsertQueryView {
        table: TripRoutes::Table.spec_name(),
        columns: seq![
            TripRoutes::MonitoredTripId.spec_name(),
            TripRoutes::FromAirportId.spec_name(),
            TripRoutes::ToAirportId.spec_name(),
        ],
        rows: prefixed_rows(SqlValueView::Int(trip_id as i64), route_pairs(departures, destinations)),
        ignore_conflicts: false,
        returning: None,
    }
}

/// The statement that ties every route between the airports to a trip.
pub fn trip_routes_insert(departures: &Vec<String>, destinations: &Vec<String>, trip_id: i32) -> (q: InsertQuery)
    ensures
        q@ == trip_routes_view(texts_view(departures@), texts_view(destinations@), trip_id),
{
    let columns = vec![
        String::from_str(TripRoutes::MonitoredTripId.name()),
        String::from_str(TripRoutes::FromAirportId.name()),
        String::from_str(TripRoutes::ToAirportId.name()),
    ];
    assert(texts_view(columns@) =~= trip_routes_view(texts_view(departures@), texts_view(destinations@), trip_id).columns);
    InsertQuery {
        table: String::from_str(TripRoutes::Table.name()),
        columns,
        rows: pair_rows_of(departures, destinations, &Some(trip_id)),
        ignore_conflicts: false,
        returning: None,
    }
}

/// The insert of a trip of the single user, returning its id.
pub open spec fn monitored_trip_view(name: Seq<char>) -> InsertQueryView {
    InsertQueryView {
        table: MonitoredTrips::Table.spec_name(),
        columns: seq![MonitoredTrips::UserId.spec_name(), MonitoredTrips::Name.spec_name()],
        rows: seq![seq![SqlValueView::Int(1), SqlValueView::Text(name)]],
        ignore_conflicts: false,
        returning: Some(MonitoredTrips::Id.spec_name()),
    }
}

/// The statement that stores a trip under its name.
pub fn monitored_trip_insert(name: String) -> (q: InsertQuery)
    ensures
        q@ == monitored_trip_view(name@),
{
    let ghost v = monitored_trip_view(name@);
    let columns = vec![String::from_str(MonitoredTrips::UserId.name()), String::from_str(MonitoredTrips::Name.name())];
    let row = vec![SqlValue::Int(1), SqlValue::Text(name)];
    assert(values_view(row@) =~= v.rows[0]);
    let rows = vec![row];
    assert(rows_view(rows@) =~= v.rows);
    assert(texts_view(columns@) =~= v.columns);
    InsertQuery {
        table: String::from_str(MonitoredTrips::Table.name()),
        columns,
        rows,
        ignore_conflicts: false,
        returning: Some(String::from_str(MonitoredTrips::Id.name())),
    }
}

/// The location that a trip's name gives as its destination: the city if
/// there is one, else the country.
pub open spec fn destination_id_view(r: NewTripRequest) -> Seq<char> {
    match r.destination_city_id {
        Some(c) => c@,
        None => r.destination_country_id->Some_0@,
    }
}

/// The id of the destination that the trip's name reads.
pub fn destination_id(request: &NewTripRequest) -> (id: String)
    requires
        request.destination_city_id is Some || request.destination_country_id is Some,
    ensures
        id@ == destination_id_view(*request),
{
    match &request.destination_city_id {
        Some(c) => c.clone(),
        None => match &request.destination_country_id {
            Some(c) => c.clone(),
            None => String::new(),
        },
    }
}

/// `{departure}(+{radius}km) to {destination}{options}`, where the options
/// are `(+{radius}km)` for a destination radius, else `({n} regions)`.
pub open spec fn trip_name_view(departure: Seq<char>, destination: Seq<char>, r: NewTripRequest) -> Seq<char> {
    let options = match r.destination_city_radius {
        Some(radius) => "(+"@ + decimal(radius as nat) + "km)"@,
        None => "("@ + decimal(r.destination_country_subdivisions@.len()) + " regions)"@,
    };
    departure + "(+"@ + decimal(r.departure_radius as nat) + "km) to "@ + destination + options
}

/// The name of a trip, from the names of its departure city and its
/// destination.
pub fn trip_name(departure_city: &String, destination: &String, request: &NewTripRequest) -> (name: String)
    ensures
        name@ == trip_name_view(departure_city@, destination@, *request),
{
    let options = match request.destination_city_radius {
        Some(radius) => {
            let mut o = String::from_str("(+");
            let digits = decimal_string(radius as u64);
            o.append(digits.as_str());
            o.append("km)");
            o
        },
        None => {
            let mut o = String::from_str("(");
            let digits = decimal_string(request.destination_country_subdivisions.len() as u64);
            o.append(digits.as_str());
            o.append(" regions)");
            o
        },
    };
    let mut name = departure_city.clone();
    name.append("(+");
    let digits = decimal_string(request.departure_radius as u64);
    name.append(digits.as_str());
    name.append("km) to ");
    name.append(destination.as_str());
    name.append(options.as_str());
    name
}

/// Registration ties a trip to exactly the routes that it adds to the
/// monitored routes, in the same order: row `k` of the trip's routes is
/// the trip's id before row `k` of the routes.
pub proof fn lemma_trip_routes_follow_routes(departures: Seq<Seq<char>>, destinations: Seq<Seq<char>>, trip_id: i32)
    ensures
        trip_routes_view(departures, destinations, trip_id).rows.len()
            == missing_routes_view(departures, destinations).rows.len(),
        forall|k: int| 0 <= k < missing_routes_view(departures, destinations).rows.len() ==>
            #[trigger] trip_routes_view(departures, destinations, trip_id).rows[k]
                == seq![SqlValueView::Int(trip_id as i64)] + missing_routes_view(departures, destinations).rows[k],
{
    let pairs = route_pairs(departures, destinations);
    assert forall|k: int| 0 <= k < pairs.len() implies
        #[trigger] prefixed_rows(SqlValueView::Int(trip_id as i64), pairs)[k]
            == seq![SqlValueView::Int(trip_id as i64)] + pair_rows(pairs)[k] by {
        assert(prefixed_rows(SqlValueView::Int(trip_id as i64), pairs)[k] =~= seq![SqlValueView::Int(trip_id as i64)] + pair_rows(pairs)[k]);
    }
}

/// The SQL that reads the coordinates of a city:
/// `SELECT latitude, longitude FROM locations WHERE id = city_id`.
pub fn city_coordinates_sql(city_id: &String) -> (s: String)
    ensures
        s@ == postgres_select_where_equal(
            Locations::Table.spec_name(),
            seq![Locations::Latitude.spec_name(), Locations::Longitude.spec_name()],
            seq![(Locations::Id.spec_name(), city_id@)],
        ),
{
    let columns = vec![String::from_str(Locations::Latitude.name()), String::from_str(Locations::Longitude.name())];
    let conditions = vec![(String::from_str(Locations::Id.name()), city_id.clone())];
    assert(texts_view(columns@) =~= seq![Locations::Latitude.spec_name(), Locations::Longitude.spec_name()]);
    assert(pairs_view(conditions@) =~= seq![(Locations::Id.spec_name(), city_id@)]);
    sea_select_where_equal_sql(Locations::Table.name(), &columns, &conditions)
}

/// The SQL that lists the airports around a city.
pub fn airports_in_range_sql(city_id: &String, radius: u16, coordinates: &Coordinates) -> (s: String)
    ensures
        s@ == postgres_select(airports_in_range_view(city_id@, radius, coordinates.latitude@, coordinates.longitude@)),
{
    select_sql(&airports_in_range_query(city_id, radius, coordinates))
}

/// The condition that a location is an airport.
pub open spec fn airport_condition() -> (Seq<char>, Seq<char>) {
    (Locations::LocationType.spec_name(), LocationTypeEnum::Airport.text())
}

/// The SQL that lists the airports of a country or, where subdivisions are
/// given, of those subdivisions (whatever their country).
pub fn airports_for_sql(country_id: &String, subdivisions: &Vec<String>) -> (s: String)
    ensures
        subdivisions@.len() == 0 ==> s@ == postgres_select_where_equal(
            Locations::Table.spec_name(),
            seq![Locations::Id.spec_name()],
            seq![airport_condition(), (Locations::CountryId.spec_name(), country_id@)],
        ),
        subdivisions@.len() > 0 ==> s@ == postgres_select_where_equal_in(
            Locations::Table.spec_name(),
            seq![Locations::Id.spec_name()],
            seq![airport_condition()],
            Locations::SubdivisionId.spec_name(),
            texts_view(subdivisions@),
        ),
{
    let columns = vec![String::from_str(Locations::Id.name())];
    assert(texts_view(columns@) =~= seq![Locations::Id.spec_name()]);
    let airport = (String::from_str(Locations::LocationType.name()), LocationTypeEnum::Airport.to_string());
    if subdivisions.len() == 0 {
        let conditions = vec![airport, (String::from_str(Locations::CountryId.name()), country_id.clone())];
        assert(pairs_view(conditions@) =~= seq![airport_condition(), (Locations::CountryId.spec_name(), country_id@)]);
        sea_select_where_equal_sql(Locations::Table.name(), &columns, &conditions)
    } else {
        let conditions = vec![airport];
        assert(pairs_view(conditions@) =~= seq![airport_condition()]);
        sea_select_where_equal_in_sql(
            Locations::Table.name(),
            &columns,
            &conditions,
            Locations::SubdivisionId.name(),
            subdivisions,
        )
    }
}

/// The SQL that adds the missing routes between the airports.
pub fn insert_missing_routes_sql(departures: &Vec<String>, destinations: &Vec<String>) -> (s: String)
    ensures
        s@ == insert_text(missing_routes_view(texts_view(departures@), texts_view(destinations@))),
{
    let q = missing_routes_insert(departures, destinations);
    assert(rows_fit(q@));
    insert_sql(&q)
}

/// The SQL that ties the routes between the airports to a trip.
pub fn insert_trip_routes_sql(departures: &Vec<String>, destinations: &Vec<String>, trip_id: i32) -> (s: String)
    ensures
        s@ == insert_text(trip_routes_view(texts_view(departures@), texts_view(destinations@), trip_id)),
{
    let q = trip_routes_insert(departures, destinations, trip_id);
    assert(rows_fit(q@));
    insert_sql(&q)
}

/// The SQL that stores a trip and returns its id.
pub fn insert_monitored_trip_sql(name: String) -> (s: String)
    ensures
        s@ == insert_text(monitored_trip_view(name@)),
{
    let q = monitored_trip_insert(name);
    assert(rows_fit(q@));
    insert_sql(&q)
}

/// The SQL that reads the name of a location:
/// `SELECT name FROM locations WHERE id = location_id`.
pub fn location_name_sql(location_id: &String) -> (s: String)
    ensures
        s@ == postgres_select_where_equal(
            Locations::Table.spec_name(),
            seq![Locations::Name.spec_name()],
            seq![(Locations::Id.spec_name(), location_id@)],
        ),
{
    let columns = vec![String::from_str(Locations::Name.name())];
    let conditions = vec![(String::from_str(Locations::Id.name()), location_id.clone())];
    assert(texts_view(columns@) =~= seq![Locations::Name.spec_name()]);
    assert(pairs_view(conditions@) =~= seq![(Locations::Id.spec_name(), location_id@)]);
    sea_select_where_equal_sql(Locations::Table.name(), &columns, &conditions)
}

/// A wider radius finds every airport that a narrower one finds: on any
/// row of `locations`, whatever the distance function gives.
pub proof fn lemma_wider_radius_finds_more(
    city_id: Seq<char>,
    r1: u16,
    r2: u16,
    latitude: Seq<char>,
    longitude: Seq<char>,
    row: Map<Seq<char>, SqlValueView>,
    functions: spec_fn(Seq<char>, Seq<TermView>, Map<Seq<char>, SqlValueView>) -> SqlValueView,
)
    requires
        r1 <= r2,
        selects(airports_in_range_view(city_id, r1, latitude, longitude), row, functions),
    ensures
        selects(airports_in_range_view(city_id, r2, latitude, longitude), row, functions),
{
    reveal_with_fuel(truth, 3);
    let q1 = airports_in_range_view(city_id, r1, latitude, longitude);
    let q2 = airports_in_range_view(city_id, r2, latitude, longitude);
    assert(truth(q1.conditions[0], row, functions) == Some(true));
    assert(truth(q1.conditions[1], row, functions) == Some(true));
    assert(q2.conditions[0] == q1.conditions[0]);
    assert(truth(q2.conditions[1], row, functions) == Some(true));
    assert forall|i: int| 0 <= i < q2.conditions.len() implies truth(#[trigger] q2.conditions[i], row, functions) == Some(true) by {}
}

/// The airports of the city itself are found at any radius, 0 too,
/// whatever the distance function gives.
pub proof fn lemma_city_airports_found_at_any_radius(
    city_id: Seq<char>,
    radius: u16,
    latitude: Seq<char>,
    longitude: Seq<char>,
    row: Map<Seq<char>, SqlValueView>,
    functions: spec_fn(Seq<char>, Seq<TermView>, Map<Seq<char>, SqlValueView>) -> SqlValueView,
)
    requires
        column_value(row, cref_v(None, Locations::LocationType.spec_name())) == SqlValueView::Text(LocationTypeEnum::Airport.text()),
        column_value(row, cref_v(None, Locations::CityId.spec_name())) == SqlValueView::Text(city_id),
    ensures
        selects(airports_in_range_view(city_id, radius, latitude, longitude), row, functions),
{
    reveal_with_fuel(truth, 3);
    let q = airports_in_range_view(city_id, radius, latitude, longitude);
    assert(truth(q.conditions[0], row, functions) == Some(true));
    assert(truth(q.conditions[1], row, functions) == Some(true));
    assert forall|i: int| 0 <= i < q.conditions.len() implies truth(#[trigger] q.conditions[i], row, functions) == Some(true) by {}
}

/// The pair of a departure and a destination as a row of `routes`.
pub open spec fn route_row(departure: Seq<char>, destination: Seq<char>) -> Seq<SqlValueView> {
    seq![SqlValueView::Text(departure), SqlValueView::Text(destination)]
}

/// Adding the missing routes leaves in `routes` (told apart by departure
/// and destination, as `ON CONFLICT DO NOTHING` there relies on) the
/// routes before and every route from a departure to a destination, and
/// nothing else; adding them again changes nothing.
pub proof fn lemma_missing_routes_complete_the_table(
    before: Set<Seq<SqlValueView>>,
    departures: Seq<Seq<char>>,
    destinations: Seq<Seq<char>>,
)
    ensures
        after_insert(before, missing_routes_view(departures, destinations)) matches Some(after)
            && (forall|r: Seq<SqlValueView>| after.contains(r) <==> (before.contains(r)
                || exists|d: Seq<char>, a: Seq<char>| departures.contains(d) && destinations.contains(a) && r == #[trigger] route_row(d, a)))
            && after_insert(after, missing_routes_view(departures, destinations)) == Some(after),
{
    let q = missing_routes_view(departures, destinations);
    let pairs = route_pairs(departures, destinations);
    lemma_route_pairs(departures, destinations);
    let after = before.union(q.rows.to_set());
    assert forall|r: Seq<SqlValueView>| after.contains(r) <==> (before.contains(r)
        || exists|d: Seq<char>, a: Seq<char>| departures.contains(d) && destinations.contains(a) && r == #[trigger] route_row(d, a)) by {
        if q.rows.to_set().contains(r) {
            let k = choose|k: int| 0 <= k < q.rows.len() && q.rows[k] == r;
            let p = pairs[k];
            assert(pairs.contains(p));
            assert(r == route_row(p.0, p.1));
        }
        if exists|d: Seq<char>, a: Seq<char>| departures.contains(d) && destinations.contains(a) && r == #[trigger] route_row(d, a) {
            let (d, a) = choose|d: Seq<char>, a: Seq<char>| departures.contains(d) && destinations.contains(a) && r == #[trigger] route_row(d, a);
            assert(pairs.contains((d, a)));
            let k = choose|k: int| 0 <= k < pairs.len() && pairs[k] == (d, a);
            assert(q.rows[k] == r);
            assert(q.rows.to_set().contains(r));
        }
    }
    assert(after.union(q.rows.to_set()) =~= after);
}

/// The airport search keeps exactly the airports of the city and those
/// whose distance to it is at most the requested radius: on a row where
/// the distance function gives `d` km, the row is selected if and only if
/// it is an airport and either belongs to the city or `d <= radius`.
pub proof fn lemma_airports_in_range_exactly(
    city_id: Seq<char>,
    radius: u16,
    latitude: Seq<char>,
    longitude: Seq<char>,
    row: Map<Seq<char>, SqlValueView>,
    functions: spec_fn(Seq<char>, Seq<TermView>, Map<Seq<char>, SqlValueView>) -> SqlValueView,
    d: i64,
)
    requires
        forall|args: Seq<TermView>| #[trigger] functions(DistanceKmFunction::spec_name(), args, row) == SqlValueView::Int(d),
    ensures
        selects(airports_in_range_view(city_id, radius, latitude, longitude), row, functions) <==> (
            column_value(row, cref_v(None, Locations::LocationType.spec_name())) == SqlValueView::Text(LocationTypeEnum::Airport.text())
            && (column_value(row, cref_v(None, Locations::CityId.spec_name())) == SqlValueView::Text(city_id) || d <= radius)),
{
    reveal_with_fuel(truth, 3);
    let q = airports_in_range_view(city_id, radius, latitude, longitude);
    let distance = distance_v(latitude, longitude);
    assert(value_of(distance, row, functions) == functions(DistanceKmFunction::spec_name(), distance->Function_1, row));
    assert(value_of(distance, row, functions) == SqlValueView::Int(d));
    if selects(q, row, functions) {
        assert(truth(q.conditions[0], row, functions) == Some(true));
        assert(truth(q.conditions[1], row, functions) == Some(true));
    }
}

} // verus!
