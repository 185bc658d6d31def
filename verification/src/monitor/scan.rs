//! The monitor's decisions: which routes to scan, what to search for each,
//! which flights of a trip are its departure and its return, and the
//! statements that store what was found.
use vstd::prelude::*;
use crate::data::db_schema::{Flights, Itineraries, Route, Routes};
use crate::monitor::api_client::{FlightsQuery, Trip, TripRouteFlight};
use crate::sql::model::{
    BinOp, ColumnRef, ColumnRefView, DeleteQuery, DeleteQueryView, InsertQuery, InsertQueryView,
    SelectItem, SelectItemView, SelectQuery, SelectQueryView, SqlExpr, SqlExprView, SqlValue,
    SqlValueView, TableRef, TableRefView, UpdateQuery, UpdateQueryView, Assignment,
    AssignmentView, rows_view, texts_view, values_view,
};
use crate::text::{decimal, decimal_string};
use crate::sql::parts::{col, col_v, text, text_v};
use crate::sql::render::{insert_text, postgres_delete, postgres_select, postgres_update};
use crate::time::{Timestamp, add_days, in_chrono_range, not_after, is_not_after, rfc3339, rfc3339_text, sub_hours};

verus! {

/// What chrono writes for an instant in RFC 3339, if it has the instant.
pub open spec fn ts_text(t: Timestamp) -> Option<Seq<char>> {
    rfc3339_text(t.secs, t.nanos)
}

/// `SELECT from_location_id, to_location_id, last_scan FROM routes
/// WHERE last_scan IS NULL OR last_scan < threshold`.
pub open spec fn routes_to_scan_view(threshold: Seq<char>) -> SelectQueryView {
    SelectQueryView {
        items: seq![
            SelectItemView { expr: col_v(Routes::FromLocationId.spec_name()), alias: None },
            SelectItemView { expr: col_v(Routes::ToLocationId.spec_name()), alias: None },
            SelectItemView { expr: col_v(Routes::LastScan.spec_name()), alias: None },
        ],
        from: TableRefView { table: Routes::Table.spec_name(), alias: None },
        joins: seq![],
        conditions: seq![
            SqlExprView::Binary(
                Box::new(SqlExprView::IsNull(Box::new(col_v(Routes::LastScan.spec_name())))),
                BinOp::Or,
                Box::new(SqlExprView::Binary(
                    Box::new(col_v(Routes::LastScan.spec_name())),
                    BinOp::Lt,
                    Box::new(text_v(threshold)),
                )),
            ),
        ],
        group_by: seq![],
        order_by: seq![],
        limit: None,
    }
}

/// The routes never scanned, or last scanned before `threshold` (an
/// instant in RFC 3339).
pub fn routes_to_scan_query(threshold: String) -> (q: SelectQuery)
    ensures
        q@ == routes_to_scan_view(threshold@),
{
    let ghost th = threshold@;
    let c1 = col(Routes::LastScan.name());
    let c2 = col(Routes::LastScan.name());
    let is_null = SqlExpr::IsNull(Box::new(c1));
    assert(is_null@ == SqlExprView::IsNull(Box::new(col_v(Routes::LastScan.spec_name()))));
    let t = text(threshold);
    let before = SqlExpr::Binary(Box::new(c2), BinOp::Lt, Box::new(t));
    assert(before@ == SqlExprView::Binary(
        Box::new(col_v(Routes::LastScan.spec_name())),
        BinOp::Lt,
        Box::new(text_v(th)),
    ));
    let cond = SqlExpr::Binary(Box::new(is_null), BinOp::Or, Box::new(before));
    assert(cond@ == routes_to_scan_view(th).conditions[0]);
    let items = vec![
        SelectItem { expr: col(Routes::FromLocationId.name()), alias: None },
        SelectItem { expr: col(Routes::ToLocationId.name()), alias: None },
        SelectItem { expr: col(Routes::LastScan.name()), alias: None },
    ];
    let q = SelectQuery {
        items,
        from: TableRef { table: String::from_str(Routes::Table.name()), alias: None },
        joins: Vec::new(),
        conditions: vec![cond],
        group_by: Vec::new(),
        order_by: Vec::new(),
        limit: None,
    };
    assert(q@.items =~= routes_to_scan_view(th).items);
    assert(q@.conditions =~= routes_to_scan_view(th).conditions);
    assert(q@.joins =~= routes_to_scan_view(th).joins);
    assert(q@.group_by =~= routes_to_scan_view(th).group_by);
    assert(q@.order_by =~= routes_to_scan_view(th).order_by);
    q
}

/// The routes to scan at `now`: those not scanned in the last
/// `hours_between_scans` hours. `None` where chrono cannot compute the
/// threshold or write it.
pub fn fetch_routes_to_scan_query(now: Timestamp, hours_between_scans: i64) -> (q: Option<SelectQuery>)
    ensures
        in_chrono_range(now.secs as int, now.nanos)
            && in_chrono_range(now.secs - 3600 * hours_between_scans, now.nanos) ==> q is Some,
        q matches Some(q) ==> exists|t: Timestamp|
            (now.nanos < 1_000_000_000 ==> t.secs == now.secs - 3600 * hours_between_scans && t.nanos == now.nanos)
            && ts_text(t) is Some && q@ == routes_to_scan_view(ts_text(t)->Some_0),
{
    match sub_hours(now, hours_between_scans) {
        Some(t) => match rfc3339(t) {
            Some(th) => {
                let q = routes_to_scan_query(th);
                assert(ts_text(t) is Some);
                Some(q)
            },
            None => None,
        },
        None => None,
    }
}

/// The search for a route: leaving from `now` to 160 days later, staying
/// 2 to 14 nights, with at most one stopover.
pub fn scan_query(route: &Route, now: Timestamp) -> (q: Option<FlightsQuery>)
    ensures
        in_chrono_range(now.secs as int, now.nanos) && in_chrono_range(now.secs + 86400 * 160, now.nanos)
            ==> q is Some,
        q matches Some(q) ==> {
            &&& q.fly_from@ == route.from_location_id@
            &&& q.fly_to@ == route.to_location_id@
            &&& q.date_from == now
            &&& q.date_to.secs == now.secs + 86400 * 160 && q.date_to.nanos == now.nanos
            &&& q.nights_in_dst_from == 2
            &&& q.nights_in_dst_to == 14
            &&& q.max_stopovers == 1
        },
{
    match add_days(now, 160) {
        Some(date_to) => Some(FlightsQuery {
            fly_from: route.from_location_id.clone(),
            fly_to: route.to_location_id.clone(),
            date_from: now,
            date_to,
            nights_in_dst_from: 2,
            nights_in_dst_to: 14,
            max_stopovers: 1,
        }),
        None => None,
    }
}

/// The place of the flight that leaves first; of several that leave at the
/// same instant, the first (what `Iterator::min_by` picks).
pub open spec fn earliest_index(route: Seq<TripRouteFlight>) -> int
    decreases route.len(),
{
    if route.len() <= 1 {
        0
    } else {
        let k = earliest_index(route.drop_last());
        if not_after(route[k].utc_departure, route.last().utc_departure) {
            k
        } else {
            route.len() - 1
        }
    }
}

/// The place of the flight that leaves last; of several that leave at the
/// same instant, the last (what `Iterator::max_by` picks).
pub open spec fn latest_index(route: Seq<TripRouteFlight>) -> int
    decreases route.len(),
{
    if route.len() <= 1 {
        0
    } else {
        let k = latest_index(route.drop_last());
        if not_after(route[k].utc_departure, route.last().utc_departure) {
            route.len() - 1
        } else {
            k
        }
    }
}

/// The flight at `earliest_index` leaves no later than any other, and
/// strictly before every flight ahead of it.
pub proof fn lemma_earliest_index(route: Seq<TripRouteFlight>)
    requires
        route.len() > 0,
    ensures
        0 <= earliest_index(route) < route.len(),
        forall|j: int| 0 <= j < route.len() ==> not_after(
            route[earliest_index(route)].utc_departure,
            #[trigger] route[j].utc_departure,
        ),
        forall|j: int| 0 <= j < earliest_index(route) ==> !not_after(
            #[trigger] route[j].utc_departure,
            route[earliest_index(route)].utc_departure,
        ),
    decreases route.len(),
{
    if route.len() > 1 {
        let init = route.drop_last();
        lemma_earliest_index(init);
        let k = earliest_index(init);
        let e = earliest_index(route);
        let last = route.len() - 1;
        assert(init[k] == route[k]);
        assert forall|j: int| 0 <= j < route.len() implies not_after(
            route[e].utc_departure,
            #[trigger] route[j].utc_departure,
        ) by {
            if j < last {
                assert(init[j] == route[j]);
                assert(not_after(init[k].utc_departure, init[j].utc_departure));
            }
        }
        assert forall|j: int| 0 <= j < e implies !not_after(
            #[trigger] route[j].utc_departure,
            route[e].utc_departure,
        ) by {
            assert(init[j] == route[j]);
            if e == k {
                assert(!not_after(init[j].utc_departure, init[k].utc_departure));
            } else {
                assert(not_after(init[k].utc_departure, init[j].utc_departure));
            }
        }
    }
}

/// The flight at `latest_index` leaves no earlier than any other, and
/// strictly after every flight behind it in the route.
pub proof fn lemma_latest_index(route: Seq<TripRouteFlight>)
    requires
        route.len() > 0,
    ensures
        0 <= latest_index(route) < route.len(),
        forall|j: int| 0 <= j < route.len() ==> not_after(
            #[trigger] route[j].utc_departure,
            route[latest_index(route)].utc_departure,
        ),
        forall|j: int| latest_index(route) < j < route.len() ==> !not_after(
            route[latest_index(route)].utc_departure,
            #[trigger] route[j].utc_departure,
        ),
    decreases route.len(),
{
    if route.len() > 1 {
        let init = route.drop_last();
        lemma_latest_index(init);
        let k = latest_index(init);
        let e = latest_index(route);
        let last = route.len() - 1;
        assert(init[k] == route[k]);
        assert forall|j: int| 0 <= j < route.len() implies not_after(
            #[trigger] route[j].utc_departure,
            route[e].utc_departure,
        ) by {
            if j < last {
                assert(init[j] == route[j]);
                assert(not_after(init[j].utc_departure, init[k].utc_departure));
            }
        }
        assert forall|j: int| e < j < route.len() implies !not_after(
            route[e].utc_departure,
            #[trigger] route[j].utc_departure,
        ) by {
            if j < last {
                assert(init[j] == route[j]);
                assert(!not_after(init[k].utc_departure, init[j].utc_departure));
            }
        }
    }
}

/// Where the departure flight of a trip stands in its route.
pub fn departure_flight_index(route: &Vec<TripRouteFlight>) -> (i: usize)
    requires
        route@.len() > 0,
    ensures
        i == earliest_index(route@),
{
    let mut best: usize = 0;
    let mut k: usize = 1;
    while k < route.len()
        invariant
            1 <= k <= route@.len(),
            best == earliest_index(route@.take(k as int)),
            best < k,
        decreases route@.len() - k,
    {
        assert(route@.take(k + 1).drop_last() =~= route@.take(k as int));
        if !is_not_after(route[best].utc_departure, route[k].utc_departure) {
            best = k;
        }
        k = k + 1;
    }
    assert(route@.take(route@.len() as int) =~= route@);
    best
}

/// Where the return flight of a trip stands in its route.
pub fn return_flight_index(route: &Vec<TripRouteFlight>) -> (i: usize)
    requires
        route@.len() > 0,
    ensures
        i == latest_index(route@),
{
    let mut best: usize = 0;
    let mut k: usize = 1;
    while k < route.len()
        invariant
            1 <= k <= route@.len(),
            best == latest_index(route@.take(k as int)),
            best < k,
        decreases route@.len() - k,
    {
        assert(route@.take(k + 1).drop_last() =~= route@.take(k as int));
        if is_not_after(route[best].utc_departure, route[k].utc_departure) {
            best = k;
        }
        k = k + 1;
    }
    assert(route@.take(route@.len() as int) =~= route@);
    best
}

pub open spec fn itinerary_columns() -> Seq<Seq<char>> {
    seq![
        Itineraries::FromAirportId.spec_name(),
        Itineraries::ToAirportId.spec_name(),
        Itineraries::Price.spec_name(),
        Itineraries::BookingLink.spec_name(),
        Itineraries::DepartureDepartAtUtc.spec_name(),
        Itineraries::DepartureArriveAtUtc.spec_name(),
        Itineraries::ReturnDepartAtUtc.spec_name(),
        Itineraries::ReturnArriveAtUtc.spec_name(),
        Itineraries::Stopovers.spec_name(),
        Itineraries::InsertedAt.spec_name(),
        Itineraries::ItineraryType.spec_name(),
    ]
}

/// The insert of one itinerary, returning its id: the departure flight is
/// the one that leaves first, the return flight the one that leaves last,
/// the stopovers are the flights beyond those two, and `now` is when it
/// was stored. `None` where chrono cannot write one of the instants.
pub open spec fn itinerary_insert_view(trip: Trip, now: Timestamp) -> Option<InsertQueryView> {
    let dep = trip.route@[earliest_index(trip.route@)];
    let ret = trip.route@[latest_index(trip.route@)];
    match (ts_text(dep.utc_departure), ts_text(dep.utc_arrival), ts_text(ret.utc_departure), ts_text(ret.utc_arrival), ts_text(now)) {
        (Some(dd), Some(da), Some(rd), Some(ra), Some(n)) => Some(InsertQueryView {
            table: Itineraries::Table.spec_name(),
            columns: itinerary_columns(),
            rows: seq![seq![
                SqlValueView::Text(trip.fly_from@),
                SqlValueView::Text(trip.fly_to@),
                SqlValueView::Int(trip.price as i64),
                SqlValueView::Text(trip.deep_link@),
                SqlValueView::Text(dd),
                SqlValueView::Text(da),
                SqlValueView::Text(rd),
                SqlValueView::Text(ra),
                SqlValueView::Text(decimal((trip.route@.len() - 2) as nat)),
                SqlValueView::Text(n),
                SqlValueView::Text("weekly"@),
            ]],
            ignore_conflicts: false,
            returning: Some(Itineraries::Id.spec_name()),
        }),
        _ => None,
    }
}

pub open spec fn opt_insert_view(q: Option<InsertQuery>) -> Option<InsertQueryView> {
    match q {
        Some(q) => Some(q@),
        None => None,
    }
}

fn names(columns: Vec<&'static str>) -> (r: Vec<String>)
    ensures
        texts_view(r@) == columns@.map_values(|c: &'static str| c@),
{
    let mut r: Vec<String> = Vec::new();
    for i in 0..columns.len()
        invariant
            r@.len() == i,
            forall|k: int| 0 <= k < i ==> (#[trigger] r@[k])@ == columns@[k]@,
    {
        r.push(String::from_str(columns[i]));
    }
    assert(texts_view(r@) =~= columns@.map_values(|c: &'static str| c@));
    r
}

/// The statement that stores a trip as an itinerary.
pub fn itinerary_insert(trip: &Trip, now: Timestamp) -> (q: Option<InsertQuery>)
    requires
        trip.route@.len() >= 2,
    ensures
        opt_insert_view(q) == itinerary_insert_view(*trip, now),
{
    proof {
        lemma_earliest_index(trip.route@);
        lemma_latest_index(trip.route@);
    }
    let dep = &trip.route[departure_flight_index(&trip.route)];
    let ret = &trip.route[return_flight_index(&trip.route)];
    let dd = rfc3339(dep.utc_departure);
    let da = rfc3339(dep.utc_arrival);
    let rd = rfc3339(ret.utc_departure);
    let ra = rfc3339(ret.utc_arrival);
    let n = rfc3339(now);
    match (dd, da, rd, ra, n) {
        (Some(dd), Some(da), Some(rd), Some(ra), Some(n)) => {
            let row = vec![
                SqlValue::Text(trip.fly_from.clone()),
                SqlValue::Text(trip.fly_to.clone()),
                SqlValue::Int(trip.price as i64),
                SqlValue::Text(trip.deep_link.clone()),
                SqlValue::Text(dd),
                SqlValue::Text(da),
                SqlValue::Text(rd),
                SqlValue::Text(ra),
                SqlValue::Text(decimal_string((trip.route.len() - 2) as u64)),
                SqlValue::Text(n),
                SqlValue::Text(String::from_str("weekly")),
            ];
            let columns = names(vec![
                Itineraries::FromAirportId.name(),
                Itineraries::ToAirportId.name(),
                Itineraries::Price.name(),
                Itineraries::BookingLink.name(),
                Itineraries::DepartureDepartAtUtc.name(),
                Itineraries::DepartureArriveAtUtc.name(),
                Itineraries::ReturnDepartAtUtc.name(),
                Itineraries::ReturnArriveAtUtc.name(),
                Itineraries::Stopovers.name(),
                Itineraries::InsertedAt.name(),
                Itineraries::ItineraryType.name(),
            ]);
            let ghost spec_q = itinerary_insert_view(*trip, now)->Some_0;
            assert(texts_view(columns@) =~= itinerary_columns());
            assert(values_view(row@) =~= spec_q.rows[0]);
            let rows = vec![row];
            assert(rows_view(rows@) =~= spec_q.rows);
            Some(InsertQuery {
                table: String::from_str(Itineraries::Table.name()),
                columns,
                rows,
                ignore_conflicts: false,
                returning: Some(String::from_str(Itineraries::Id.name())),
            })
        },
        _ => None,
    }
}


pub open spec fn flight_columns() -> Seq<Seq<char>> {
    seq![
        Flights::ItineraryId.spec_name(),
        Flights::FromAirportId.spec_name(),
        Flights::ToAirportId.spec_name(),
        Flights::DepartAtUtc.spec_name(),
        Flights::ArriveAtUtc.spec_name(),
        Flights::Airline.spec_name(),
        Flights::FlightNumber.spec_name(),
    ]
}

/// The row of one flight of an itinerary, if chrono can write its instants.
pub open spec fn flight_row(f: TripRouteFlight, itinerary_id: i32) -> Option<Seq<SqlValueView>> {
    match (ts_text(f.utc_departure), ts_text(f.utc_arrival)) {
        (Some(d), Some(a)) => Some(seq![
            SqlValueView::Int(itinerary_id as i64),
            SqlValueView::Text(f.fly_from@),
            SqlValueView::Text(f.fly_to@),
            SqlValueView::Text(d),
            SqlValueView::Text(a),
            SqlValueView::Text(f.airline@),
            SqlValueView::Int(f.flight_no),
        ]),
        _ => None,
    }
}

/// The rows of all flights, if chrono can write all their instants.
pub open spec fn flight_rows(fs: Seq<TripRouteFlight>, itinerary_id: i32) -> Option<Seq<Seq<SqlValueView>>>
    decreases fs.len(),
{
    if fs.len() == 0 {
        Some(seq![])
    } else {
        match (flight_rows(fs.drop_last(), itinerary_id), flight_row(fs.last(), itinerary_id)) {
            (Some(rows), Some(row)) => Some(rows.push(row)),
            _ => None,
        }
    }
}

/// The insert of the flights of an itinerary.
pub open spec fn flights_insert_view(fs: Seq<TripRouteFlight>, itinerary_id: i32) -> Option<InsertQueryView> {
    match flight_rows(fs, itinerary_id) {
        Some(rows) => Some(InsertQueryView {
            table: Flights::Table.spec_name(),
            columns: flight_columns(),
            rows,
            ignore_conflicts: false,
            returning: None,
        }),
        None => None,
    }
}

/// The statement that stores the flights of a trip under its itinerary.
pub fn flights_insert(flights: &Vec<TripRouteFlight>, itinerary_id: i32) -> (q: Option<InsertQuery>)
    ensures
        opt_insert_view(q) == flights_insert_view(flights@, itinerary_id),
{
    let mut rows: Vec<Vec<SqlValue>> = Vec::new();
    for i in 0..flights.len()
        invariant
            flight_rows(flights@.take(i as int), itinerary_id) == Some(rows_view(rows@)),
    {
        let f = &flights[i];
        assert(flights@.take(i + 1).drop_last() =~= flights@.take(i as int));
        match (rfc3339(f.utc_departure), rfc3339(f.utc_arrival)) {
            (Some(d), Some(a)) => {
                let row = vec![
                    SqlValue::Int(itinerary_id as i64),
                    SqlValue::Text(f.fly_from.clone()),
                    SqlValue::Text(f.fly_to.clone()),
                    SqlValue::Text(d),
                    SqlValue::Text(a),
                    SqlValue::Text(f.airline.clone()),
                    SqlValue::Int(f.flight_no),
                ];
                assert(values_view(row@) =~= flight_row(*f, itinerary_id)->Some_0);
                rows.push(row);
                assert(rows_view(rows@) =~= flight_rows(flights@.take(i + 1), itinerary_id)->Some_0);
            },
            _ => {
                proof {
                    lemma_flight_rows_none(flights@, itinerary_id, i as int);
                }
                return None;
            },
        }
    }
    assert(flights@.take(flights.len() as int) =~= flights@);
    let columns = names(vec![
        Flights::ItineraryId.name(),
        Flights::FromAirportId.name(),
        Flights::ToAirportId.name(),
        Flights::DepartAtUtc.name(),
        Flights::ArriveAtUtc.name(),
        Flights::Airline.name(),
        Flights::FlightNumber.name(),
    ]);
    assert(texts_view(columns@) =~= flight_columns());
    Some(InsertQuery {
        table: String::from_str(Flights::Table.name()),
        columns,
        rows,
        ignore_conflicts: false,
        returning: None,
    })
}

/// One flight whose instants chrono cannot write spoils the rows of every
/// list of flights that holds it.
proof fn lemma_flight_rows_none(fs: Seq<TripRouteFlight>, itinerary_id: i32, i: int)
    requires
        0 <= i < fs.len(),
        flight_row(fs[i], itinerary_id) is None,
    ensures
        flight_rows(fs, itinerary_id) is None,
    decreases fs.len(),
{
    if i < fs.len() - 1 {
        lemma_flight_rows_none(fs.drop_last(), itinerary_id, i);
    }
}

/// `DELETE FROM itineraries WHERE inserted_at < instant`.
pub open spec fn delete_before_view(instant: Seq<char>) -> DeleteQueryView {
    DeleteQueryView {
        table: Itineraries::Table.spec_name(),
        conditions: seq![
            SqlExprView::Binary(
                Box::new(col_v(Itineraries::InsertedAt.spec_name())),
                BinOp::Lt,
                Box::new(text_v(instant)),
            ),
        ],
    }
}

/// The statement that removes the itineraries stored before `date_time`;
/// `None` where chrono cannot write the instant.
pub fn delete_itineraries_before(date_time: Timestamp) -> (q: Option<DeleteQuery>)
    ensures
        q matches Some(q) ==> ts_text(date_time) matches Some(t) && q@ == delete_before_view(t),
        q is None ==> ts_text(date_time) is None,
{
    match rfc3339(date_time) {
        Some(t) => {
            let ghost tv = t@;
            let cond = SqlExpr::Binary(
                Box::new(col(Itineraries::InsertedAt.name())),
                BinOp::Lt,
                Box::new(text(t)),
            );
            assert(cond@ == delete_before_view(tv).conditions[0]);
            let q = DeleteQuery {
                table: String::from_str(Itineraries::Table.name()),
                conditions: vec![cond],
            };
            assert(q@.conditions =~= delete_before_view(tv).conditions);
            Some(q)
        },
        None => None,
    }
}

/// The view of the pairs of airports of some routes.
pub open spec fn route_pairs(routes: Seq<Route>) -> Seq<Seq<SqlValueView>> {
    routes.map_values(|r: Route| seq![SqlValueView::Text(r.from_location_id@), SqlValueView::Text(r.to_location_id@)])
}

/// `UPDATE routes SET last_scan = instant WHERE (from_location_id,
/// to_location_id) IN (the pairs of `routes`)`.
pub open spec fn last_scan_update_view(routes: Seq<Route>, instant: Seq<char>) -> UpdateQueryView {
    UpdateQueryView {
        table: Routes::Table.spec_name(),
        assignments: seq![AssignmentView { column: Routes::LastScan.spec_name(), value: text_v(instant) }],
        conditions: seq![
            SqlExprView::TupleIn(
                seq![
                    ColumnRefView { table: None, column: Routes::FromLocationId.spec_name() },
                    ColumnRefView { table: None, column: Routes::ToLocationId.spec_name() },
                ],
                route_pairs(routes),
            ),
        ],
    }
}

/// The statement that records `date_time` as the last scan of `routes`;
/// `None` where chrono cannot write the instant.
pub fn update_routes_last_scan_date(routes: &Vec<Route>, date_time: Timestamp) -> (q: Option<UpdateQuery>)
    ensures
        q matches Some(q) ==> ts_text(date_time) matches Some(t) && q@ == last_scan_update_view(routes@, t),
        q is None ==> ts_text(date_time) is None,
{
    match rfc3339(date_time) {
        Some(t) => {
            let ghost tv = t@;
            let mut pairs: Vec<Vec<SqlValue>> = Vec::new();
            for i in 0..routes.len()
                invariant
                    rows_view(pairs@) == route_pairs(routes@.take(i as int)),
            {
                let pair = vec![
                    SqlValue::Text(routes[i].from_location_id.clone()),
                    SqlValue::Text(routes[i].to_location_id.clone()),
                ];
                assert(values_view(pair@) =~= seq![SqlValueView::Text(routes@[i as int].from_location_id@), SqlValueView::Text(routes@[i as int].to_location_id@)]);
                let ghost before = pairs@;
                let ghost pv = values_view(pair@);
                pairs.push(pair);
                assert(rows_view(pairs@) =~= rows_view(before).push(pv));
                assert(routes@.take(i + 1) =~= routes@.take(i as int).push(routes@[i as int]));
                assert(route_pairs(routes@.take(i + 1)) =~= route_pairs(routes@.take(i as int)).push(pv));
                assert(rows_view(pairs@) =~= route_pairs(routes@.take(i + 1)));
            }
            assert(routes@.take(routes.len() as int) =~= routes@);
            let columns = vec![
                ColumnRef { table: None, column: String::from_str(Routes::FromLocationId.name()) },
                ColumnRef { table: None, column: String::from_str(Routes::ToLocationId.name()) },
            ];
            assert(crate::sql::model::columns_view(columns@) =~= seq![
                ColumnRefView { table: None, column: Routes::FromLocationId.spec_name() },
                ColumnRefView { table: None, column: Routes::ToLocationId.spec_name() },
            ]);
            let cond = SqlExpr::TupleIn(columns, pairs);
            assert(cond@ == last_scan_update_view(routes@, tv).conditions[0]);
            let q = UpdateQuery {
                table: String::from_str(Routes::Table.name()),
                assignments: vec![Assignment { column: String::from_str(Routes::LastScan.name()), value: text(t) }],
                conditions: vec![cond],
            };
            assert(q@.conditions =~= last_scan_update_view(routes@, tv).conditions);
            assert(q@.assignments =~= last_scan_update_view(routes@, tv).assignments);
            Some(q)
        },
        None => None,
    }
}


proof fn lemma_flight_rows_width(fs: Seq<TripRouteFlight>, itinerary_id: i32)
    requires
        flight_rows(fs, itinerary_id) is Some,
    ensures
        forall|k: int| 0 <= k < flight_rows(fs, itinerary_id)->Some_0.len()
            ==> (#[trigger] flight_rows(fs, itinerary_id)->Some_0[k]).len() == 7,
    decreases fs.len(),
{
    if fs.len() > 0 {
        lemma_flight_rows_width(fs.drop_last(), itinerary_id);
    }
}

/// The SQL that stores a trip as an itinerary and returns its id; `None`
/// where chrono cannot write one of its instants.
pub fn store_itinerary_query(trip: &Trip, now: Timestamp) -> (s: Option<String>)
    requires
        trip.route@.len() >= 2,
    ensures
        s is Some <==> itinerary_insert_view(*trip, now) is Some,
        s matches Some(t) ==> t@ == insert_text(itinerary_insert_view(*trip, now)->Some_0),
{
    match itinerary_insert(trip, now) {
        Some(q) => {
            assert(crate::sql::render::rows_fit(q@));
            Some(crate::sql::render::insert_sql(&q))
        },
        None => None,
    }
}

/// The SQL that stores the flights of a trip; `None` where chrono cannot
/// write one of their instants.
pub fn store_flights_query(flights: &Vec<TripRouteFlight>, itinerary_id: i32) -> (s: Option<String>)
    ensures
        s is Some <==> flights_insert_view(flights@, itinerary_id) is Some,
        s matches Some(t) ==> t@ == insert_text(flights_insert_view(flights@, itinerary_id)->Some_0),
{
    match flights_insert(flights, itinerary_id) {
        Some(q) => {
            proof {
                lemma_flight_rows_width(flights@, itinerary_id);
            }
            assert(crate::sql::render::rows_fit(q@));
            Some(crate::sql::render::insert_sql(&q))
        },
        None => None,
    }
}

/// The SQL that removes the itineraries stored before `date_time`.
pub fn delete_itineraries_query(date_time: Timestamp) -> (s: Option<String>)
    ensures
        s is Some <==> ts_text(date_time) is Some,
        s matches Some(t) ==> t@ == postgres_delete(delete_before_view(ts_text(date_time)->Some_0)),
{
    match delete_itineraries_before(date_time) {
        Some(q) => Some(crate::sql::render::delete_sql(&q)),
        None => None,
    }
}

/// The SQL that records `date_time` as the last scan of `routes`.
pub fn update_routes_last_scan_query(routes: &Vec<Route>, date_time: Timestamp) -> (s: Option<String>)
    ensures
        s is Some <==> ts_text(date_time) is Some,
        s matches Some(t) ==> t@ == postgres_update(last_scan_update_view(routes@, ts_text(date_time)->Some_0)),
{
    match update_routes_last_scan_date(routes, date_time) {
        Some(q) => Some(crate::sql::render::update_sql(&q)),
        None => None,
    }
}

/// The SQL that lists the routes to scan at `now`; `None` where chrono
/// cannot compute the threshold or write it.
pub fn routes_to_scan_sql(now: Timestamp, hours_between_scans: i64) -> (s: Option<String>)
    ensures
        in_chrono_range(now.secs as int, now.nanos)
            && in_chrono_range(now.secs - 3600 * hours_between_scans, now.nanos) ==> s is Some,
        s matches Some(t) ==> exists|u: Timestamp|
            (now.nanos < 1_000_000_000 ==> u.secs == now.secs - 3600 * hours_between_scans && u.nanos == now.nanos)
            && ts_text(u) is Some && t@ == postgres_select(routes_to_scan_view(ts_text(u)->Some_0)),
{
    match fetch_routes_to_scan_query(now, hours_between_scans) {
        Some(q) => Some(crate::sql::render::select_sql(&q)),
        None => None,
    }
}

/// The stored itinerary counts as stopovers the flights of its route
/// beyond the departure and the return: it is one row, with a `stopovers`
/// column, and that column holds the decimal text of the number of flights
/// less two.
pub proof fn lemma_itinerary_stopovers(trip: Trip, now: Timestamp)
    requires
        trip.route@.len() >= 2,
        itinerary_insert_view(trip, now) is Some,
    ensures
        itinerary_insert_view(trip, now)->Some_0.rows.len() == 1,
        itinerary_insert_view(trip, now)->Some_0.columns.contains(Itineraries::Stopovers.spec_name()),
        forall|k: int| 0 <= k < itinerary_insert_view(trip, now)->Some_0.columns.len()
            && #[trigger] itinerary_insert_view(trip, now)->Some_0.columns[k] == Itineraries::Stopovers.spec_name()
            ==> itinerary_insert_view(trip, now)->Some_0.rows[0][k] == SqlValueView::Text(decimal((trip.route@.len() - 2) as nat)),
{
    reveal_strlit("from_airport_id");
    reveal_strlit("to_airport_id");
    reveal_strlit("price");
    reveal_strlit("booking_link");
    reveal_strlit("departure_depart_at_utc");
    reveal_strlit("departure_arrive_at_utc");
    reveal_strlit("return_depart_at_utc");
    reveal_strlit("return_arrive_at_utc");
    reveal_strlit("stopovers");
    reveal_strlit("inserted_at");
    reveal_strlit("itinerary_type");
    let q = itinerary_insert_view(trip, now)->Some_0;
    assert(q.columns[8] == Itineraries::Stopovers.spec_name());
    assert forall|k: int| 0 <= k < q.columns.len() && #[trigger] q.columns[k] == Itineraries::Stopovers.spec_name()
        implies k == 8 by {
        assert(q.columns[k].len() == 9);
    }
}

} // verus!
