//! The page of one monitored trip: its itineraries, cheapest first,
//! filtered by the length of the stay and by stopovers.
use vstd::prelude::*;
use crate::data::db_schema::{Itineraries, OverWeekendFunction, TripRoutes};
use crate::sql::model::{
    BinOp, ColumnRefView, JoinKind, Join, JoinView, SelectQuery, SqlValueView, SelectQueryView, SqlExpr, SqlExprView,
    TableRef, TableRefView, Term, TermView,
};
use crate::sql::parts::{bin, bin_v, cref, cref_v, integer, int_v, item, item_as, item_as_v, item_v, qcol, qcol_v, raw, raw_v};
use crate::sql::render::{postgres_select, select_sql};
use crate::text::{decimal, decimal_string};
use crate::time::Timestamp;

verus! {

/// The trip of the page.
pub struct TripPath {
    pub trip_id: i32,
}

/// Filters of the page: the least and the most nights of the stay, and
/// whether itineraries with stopovers are shown.
pub struct TripQuery {
    pub min_nights: Option<usize>,
    pub max_nights: Option<usize>,
    pub stopovers: Option<bool>,
}

/// One itinerary on the page.
pub struct ItineraryListing {
    pub from_airport_id: String,
    pub to_airport_id: String,
    pub departure_depart_at_utc: Timestamp,
    pub return_depart_at_utc: Timestamp,
    pub price: i16,
    pub stopovers: i16,
    pub over_wk: bool,
}

/// `interval 'n days'`.
pub open spec fn interval_days(n: nat) -> Seq<char> {
    "interval '"@ + decimal(n) + " days'"@
}

fn interval_days_of(n: usize) -> (s: String)
    ensures
        s@ == interval_days(n as nat),
{
    let mut s = String::from_str("interval '");
    let digits = decimal_string(n as u64);
    s.append(digits.as_str());
    s.append(" days'");
    s
}

pub open spec fn icol(c: Itineraries) -> SqlExprView {
    qcol_v("i"@, c.spec_name())
}

pub open spec fn rcol(c: TripRoutes) -> SqlExprView {
    qcol_v("r"@, c.spec_name())
}

/// The stay is longer, or shorter, than `n` days: the return leaves after,
/// or before, the arrival plus `n` days.
pub open spec fn stay_bound(op: BinOp, n: nat) -> SqlExprView {
    bin_v(
        icol(Itineraries::ReturnDepartAtUtc),
        op,
        bin_v(icol(Itineraries::DepartureArriveAtUtc), BinOp::Add, raw_v(interval_days(n))),
    )
}

/// The conditions of the page: the trip's routes, then each filter given.
pub open spec fn itinerary_conditions(trip_id: i32, q: TripQuery) -> Seq<SqlExprView> {
    let base = seq![bin_v(rcol(TripRoutes::MonitoredTripId), BinOp::Eq, int_v(trip_id as i64))];
    let with_min = match q.min_nights {
        Some(n) => base.push(stay_bound(BinOp::Gt, n as nat)),
        None => base,
    };
    let with_max = match q.max_nights {
        Some(n) => with_min.push(stay_bound(BinOp::Lt, n as nat)),
        None => with_min,
    };
    match q.stopovers {
        Some(false) => with_max.push(bin_v(icol(Itineraries::Stopovers), BinOp::Eq, int_v(0))),
        _ => with_max,
    }
}

/// The itineraries of a trip's routes, cheapest first, then earliest.
pub open spec fn itineraries_view(trip_id: i32, q: TripQuery) -> SelectQueryView {
    SelectQueryView {
        items: seq![
            item_v(icol(Itineraries::FromAirportId)),
            item_v(icol(Itineraries::ToAirportId)),
            item_v(icol(Itineraries::DepartureDepartAtUtc)),
            item_v(icol(Itineraries::ReturnDepartAtUtc)),
            item_v(icol(Itineraries::Price)),
            item_v(icol(Itineraries::Stopovers)),
            item_as_v(
                SqlExprView::Function(
                    OverWeekendFunction::spec_name(),
                    seq![
                        TermView::Column(cref_v(Some("i"@), Itineraries::DepartureArriveAtUtc.spec_name())),
                        TermView::Column(cref_v(Some("i"@), Itineraries::ReturnDepartAtUtc.spec_name())),
                    ],
                ),
                "over_wk"@,
            ),
        ],
        from: TableRefView { table: TripRoutes::Table.spec_name(), alias: Some("r"@) },
        joins: seq![
            JoinView {
                kind: JoinKind::Inner,
                table: Itineraries::Table.spec_name(),
                alias: "i"@,
                on: bin_v(
                    bin_v(rcol(TripRoutes::FromAirportId), BinOp::Eq, icol(Itineraries::FromAirportId)),
                    BinOp::And,
                    bin_v(rcol(TripRoutes::ToAirportId), BinOp::Eq, icol(Itineraries::ToAirportId)),
                ),
            },
        ],
        conditions: itinerary_conditions(trip_id, q),
        group_by: seq![],
        order_by: seq![
            cref_v(Some("i"@), Itineraries::Price.spec_name()),
            cref_v(Some("i"@), Itineraries::DepartureDepartAtUtc.spec_name()),
        ],
        limit: None,
    }
}

fn icol_e(c: Itineraries) -> (e: SqlExpr)
    ensures
        e@ == icol(c),
{
    qcol("i", c.name())
}

fn rcol_e(c: TripRoutes) -> (e: SqlExpr)
    ensures
        e@ == rcol(c),
{
    qcol("r", c.name())
}

fn stay_bound_e(op: BinOp, n: usize) -> (e: SqlExpr)
    ensures
        e@ == stay_bound(op, n as nat),
{
    bin(
        icol_e(Itineraries::ReturnDepartAtUtc),
        op,
        bin(icol_e(Itineraries::DepartureArriveAtUtc), BinOp::Add, raw(interval_days_of(n))),
    )
}

/// The statement of the page of a trip.
pub fn itineraries_query(trip_id: i32, query: &TripQuery) -> (q: SelectQuery)
    ensures
        q@ == itineraries_view(trip_id, *query),
{
    let ghost v = itineraries_view(trip_id, *query);
    let args = vec![
        Term::Column(cref(Some("i"), Itineraries::DepartureArriveAtUtc.name())),
        Term::Column(cref(Some("i"), Itineraries::ReturnDepartAtUtc.name())),
    ];
    let over_weekend = SqlExpr::Function(String::from_str(OverWeekendFunction::name()), args);
    assert(over_weekend@ == v.items[6].expr) by {
        assert(args@.map_values(|t: Term| t@) =~= v.items[6].expr->Function_1);
    }
    let items = vec![
        item(icol_e(Itineraries::FromAirportId)),
        item(icol_e(Itineraries::ToAirportId)),
        item(icol_e(Itineraries::DepartureDepartAtUtc)),
        item(icol_e(Itineraries::ReturnDepartAtUtc)),
        item(icol_e(Itineraries::Price)),
        item(icol_e(Itineraries::Stopovers)),
        item_as(over_weekend, "over_wk"),
    ];
    let joins = vec![
        Join {
            kind: JoinKind::Inner,
            table: String::from_str(Itineraries::Table.name()),
            alias: String::from_str("i"),
            on: bin(
                bin(rcol_e(TripRoutes::FromAirportId), BinOp::Eq, icol_e(Itineraries::FromAirportId)),
                BinOp::And,
                bin(rcol_e(TripRoutes::ToAirportId), BinOp::Eq, icol_e(Itineraries::ToAirportId)),
            ),
        },
    ];
    let mut conditions = vec![bin(rcol_e(TripRoutes::MonitoredTripId), BinOp::Eq, integer(trip_id as i64))];
    let ghost c0 = crate::sql::model::exprs_view(conditions@);
    match query.min_nights {
        Some(n) => conditions.push(stay_bound_e(BinOp::Gt, n)),
        None => {},
    }
    match query.max_nights {
        Some(n) => conditions.push(stay_bound_e(BinOp::Lt, n)),
        None => {},
    }
    match query.stopovers {
        Some(false) => conditions.push(bin(icol_e(Itineraries::Stopovers), BinOp::Eq, integer(0))),
        _ => {},
    }
    assert(crate::sql::model::exprs_view(conditions@) =~= v.conditions);
    let q = SelectQuery {
        items,
        from: TableRef { table: String::from_str(TripRoutes::Table.name()), alias: Some(String::from_str("r")) },
        joins,
        conditions,
        group_by: Vec::new(),
        order_by: vec![
            cref(Some("i"), Itineraries::Price.name()),
            cref(Some("i"), Itineraries::DepartureDepartAtUtc.name()),
        ],
        limit: None,
    };
    assert(q@.items =~= v.items);
    assert(q@.joins =~= v.joins);
    assert(q@.group_by =~= v.group_by);
    assert(q@.order_by =~= v.order_by);
    q
}

/// The SQL of the page of a trip.
pub fn get_itineraries(trip_id: i32, query: &TripQuery) -> (s: String)
    ensures
        s@ == postgres_select(itineraries_view(trip_id, *query)),
{
    select_sql(&itineraries_query(trip_id, query))
}

/// The condition `i.stopovers = 0`, over the itineraries joined as `i`.
pub open spec fn no_stopovers_condition() -> SqlExprView {
    SqlExprView::Binary(
        Box::new(SqlExprView::Term(TermView::Column(ColumnRefView { table: Some("i"@), column: Itineraries::Stopovers.spec_name() }))),
        BinOp::Eq,
        Box::new(SqlExprView::Term(TermView::Value(SqlValueView::Int(0)))),
    )
}

/// The page shows only itineraries without stopovers exactly when asked
/// to (`stopovers: Some(false)`), whatever the bounds on the nights: the
/// itineraries are joined as `i`, and `i.stopovers = 0` is one of the
/// page's conditions then and only then.
pub proof fn lemma_stopovers_filter(trip_id: i32, q: TripQuery)
    ensures
        itineraries_view(trip_id, q).joins.len() == 1,
        itineraries_view(trip_id, q).joins[0].table == Itineraries::Table.spec_name(),
        itineraries_view(trip_id, q).joins[0].alias == "i"@,
        q.stopovers == Some(false) <==> itineraries_view(trip_id, q).conditions.contains(no_stopovers_condition()),
{
    reveal_strlit("r");
    reveal_strlit("i");
    let c = itineraries_view(trip_id, q).conditions;
    if q.stopovers == Some(false) {
        assert(c[c.len() - 1] == no_stopovers_condition());
    } else {
        assert forall|k: int| 0 <= k < c.len() implies c[k] != no_stopovers_condition() by {
            if k == 0 {
                assert(c[k]->Binary_0 == Box::new(rcol(TripRoutes::MonitoredTripId)));
                assert("r"@[0] != "i"@[0]);
            }
        }
    }
}

} // verus!
