//! The page of monitored trips: each trip with the cheapest price found.
use vstd::prelude::*;
use crate::data::db_schema::{Itineraries, MonitoredTrips, TripRoutes};
use crate::sql::model::{BinOp, JoinKind, Join, JoinView, SelectQuery, SelectQueryView, SqlExpr, SqlExprView, TableRef, TableRefView};
use crate::sql::parts::{bin, bin_v, cref, cref_v, integer, int_v, item, item_as, item_as_v, item_v, qcol, qcol_v};
use crate::sql::render::{postgres_select, select_sql};

verus! {

/// One trip on the page.
pub struct TripListing {
    pub id: i32,
    pub name: String,
    pub min_price: i16,
}

/// The trips of the single user, each with the least price of the
/// itineraries on its routes (none where it has none).
pub open spec fn trips_view() -> SelectQueryView {
    SelectQueryView {
        items: seq![
            item_v(qcol_v("m"@, MonitoredTrips::Id.spec_name())),
            item_v(qcol_v("m"@, MonitoredTrips::Name.spec_name())),
            item_as_v(SqlExprView::Min(cref_v(Some("i"@), Itineraries::Price.spec_name())), "min_price"@),
        ],
        from: TableRefView { table: MonitoredTrips::Table.spec_name(), alias: Some("m"@) },
        joins: seq![
            JoinView {
                kind: JoinKind::Plain,
                table: TripRoutes::Table.spec_name(),
                alias: "r"@,
                on: bin_v(
                    qcol_v("m"@, MonitoredTrips::Id.spec_name()),
                    BinOp::Eq,
                    qcol_v("r"@, TripRoutes::MonitoredTripId.spec_name()),
                ),
            },
            JoinView {
                kind: JoinKind::Left,
                table: Itineraries::Table.spec_name(),
                alias: "i"@,
                on: bin_v(
                    bin_v(qcol_v("r"@, TripRoutes::FromAirportId.spec_name()), BinOp::Eq, qcol_v("i"@, Itineraries::FromAirportId.spec_name())),
                    BinOp::And,
                    bin_v(qcol_v("r"@, TripRoutes::ToAirportId.spec_name()), BinOp::Eq, qcol_v("i"@, Itineraries::ToAirportId.spec_name())),
                ),
            },
        ],
        conditions: seq![bin_v(qcol_v("m"@, MonitoredTrips::UserId.spec_name()), BinOp::Eq, int_v(1))],
        group_by: seq![cref_v(Some("m"@), MonitoredTrips::Id.spec_name())],
        order_by: seq![],
        limit: None,
    }
}

/// The statement of the page of trips.
pub fn trips_query() -> (q: SelectQuery)
    ensures
        q@ == trips_view(),
{
    let ghost v = trips_view();
    let min_price = SqlExpr::Min(cref(Some("i"), Itineraries::Price.name()));
    let q = SelectQuery {
        items: vec![
            item(qcol("m", MonitoredTrips::Id.name())),
            item(qcol("m", MonitoredTrips::Name.name())),
            item_as(min_price, "min_price"),
        ],
        from: TableRef { table: String::from_str(MonitoredTrips::Table.name()), alias: Some(String::from_str("m")) },
        joins: vec![
            Join {
                kind: JoinKind::Plain,
                table: String::from_str(TripRoutes::Table.name()),
                alias: String::from_str("r"),
                on: bin(qcol("m", MonitoredTrips::Id.name()), BinOp::Eq, qcol("r", TripRoutes::MonitoredTripId.name())),
            },
            Join {
                kind: JoinKind::Left,
                table: String::from_str(Itineraries::Table.name()),
                alias: String::from_str("i"),
                on: bin(
                    bin(qcol("r", TripRoutes::FromAirportId.name()), BinOp::Eq, qcol("i", Itineraries::FromAirportId.name())),
                    BinOp::And,
                    bin(qcol("r", TripRoutes::ToAirportId.name()), BinOp::Eq, qcol("i", Itineraries::ToAirportId.name())),
                ),
            },
        ],
        conditions: vec![bin(qcol("m", MonitoredTrips::UserId.name()), BinOp::Eq, integer(1))],
        group_by: vec![cref(Some("m"), MonitoredTrips::Id.name())],
        order_by: Vec::new(),
        limit: None,
    };
    assert(q@.items =~= v.items);
    assert(q@.joins =~= v.joins);
    assert(q@.conditions =~= v.conditions);
    assert(q@.group_by =~= v.group_by);
    assert(q@.order_by =~= v.order_by);
    q
}

/// The SQL of the page of trips.
pub fn get_trips() -> (s: String)
    ensures
        s@ == postgres_select(trips_view()),
{
    select_sql(&trips_query())
}

} // verus!
