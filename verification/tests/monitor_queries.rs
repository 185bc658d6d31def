use flights::data::db_schema::Route;
use flights::monitor::api_client::{search_query_params, Country, FlightsQuery, Trip, TripRouteFlight};
use flights::monitor::scan::{
    delete_itineraries_query, departure_flight_index, flights_insert, itinerary_insert,
    return_flight_index, routes_to_scan_sql, scan_query, store_flights_query,
    store_itinerary_query, update_routes_last_scan_query,
};
use flights::time::Timestamp;
use sea_query::{Alias, Expr, PostgresQueryBuilder, Query, SimpleExpr};

fn s(x: &str) -> String {
    x.to_string()
}

fn at(secs: i64) -> Timestamp {
    Timestamp { secs, nanos: 0 }
}

fn rfc(secs: i64) -> String {
    chrono::DateTime::from_timestamp(secs, 0).unwrap().to_rfc3339()
}

fn flight(from: &str, to: &str, dep: i64, arr: i64) -> TripRouteFlight {
    TripRouteFlight {
        fly_from: s(from),
        fly_to: s(to),
        airline: s("W6"),
        flight_no: 3211,
        utc_arrival: at(arr),
        utc_departure: at(dep),
    }
}

fn trip(route: Vec<TripRouteFlight>) -> Trip {
    Trip {
        fly_from: s("OTP"),
        fly_to: s("FCO"),
        city_from: s("Bucharest"),
        city_to: s("Rome"),
        city_code_to: s("ROM"),
        country_to: Country { code: s("IT"), name: s("Italy") },
        price: 87,
        route,
        length_in_nights: 3,
        deep_link: s("https://example.test/book"),
    }
}

const DAY: i64 = 86400;
const T0: i64 = 1_704_067_200;

#[test]
fn utc_departure_and_return() {
    let tr = trip(vec![flight("OTP", "VIE", T0 + 10, T0 + 20), flight("VIE", "FCO", T0 + 30, T0 + 40), flight("FCO", "OTP", T0 + 3 * DAY, T0 + 3 * DAY + 9)]);
    assert_eq!(tr.utc_departure(), at(T0 + 10));
    assert_eq!(tr.utc_return(), at(T0 + 3 * DAY));
}

#[test]
fn search_query_params_as_the_api_wants() {
    let q = FlightsQuery {
        fly_from: s("OTP"),
        fly_to: s("FCO"),
        date_from: at(T0),
        date_to: at(T0 + 160 * DAY),
        nights_in_dst_from: 2,
        nights_in_dst_to: 14,
        max_stopovers: 1,
    };
    let p = search_query_params(&q).unwrap();
    assert_eq!(
        p,
        vec![
            (s("date_from"), s("01/01/2024")),
            (s("date_to"), s("09/06/2024")),
            (s("fly_from"), s("OTP")),
            (s("fly_to"), s("FCO")),
            (s("max_stopovers"), s("1")),
            (s("nights_in_dst_from"), s("2")),
            (s("nights_in_dst_to"), s("14")),
            (s("limit"), s("1000")),
            (s("sort"), s("price")),
        ]
    );
    let far = FlightsQuery { date_to: Timestamp { secs: i64::MAX, nanos: 0 }, ..q };
    assert!(search_query_params(&far).is_none());
}

#[test]
fn scan_query_covers_160_days() {
    let route = Route { from_location_id: s("OTP"), to_location_id: s("FCO"), last_scan: None };
    let q = scan_query(&route, at(T0)).unwrap();
    assert_eq!(q.fly_from, "OTP");
    assert_eq!(q.fly_to, "FCO");
    assert_eq!(q.date_from, at(T0));
    assert_eq!(q.date_to, at(T0 + 160 * DAY));
    assert_eq!((q.nights_in_dst_from, q.nights_in_dst_to, q.max_stopovers), (2, 14, 1));
}

#[test]
fn departure_is_first_earliest_and_return_is_last_latest() {
    let route = vec![
        flight("A", "B", T0 + 50, T0 + 60),
        flight("B", "C", T0 + 10, T0 + 20),
        flight("C", "D", T0 + 10, T0 + 30),
        flight("D", "E", T0 + 90, T0 + 95),
        flight("E", "F", T0 + 90, T0 + 99),
        flight("F", "G", T0 + 70, T0 + 80),
    ];
    assert_eq!(departure_flight_index(&route), 1);
    assert_eq!(return_flight_index(&route), 4);
    let ours = route.iter().enumerate().min_by(|x, y| (x.1.utc_departure.secs, x.1.utc_departure.nanos).cmp(&(y.1.utc_departure.secs, y.1.utc_departure.nanos))).unwrap().0;
    let theirs = route.iter().enumerate().max_by(|x, y| (x.1.utc_departure.secs, x.1.utc_departure.nanos).cmp(&(y.1.utc_departure.secs, y.1.utc_departure.nanos))).unwrap().0;
    assert_eq!((ours, theirs), (1, 4));
    assert_eq!(departure_flight_index(&vec![flight("A", "B", T0, T0 + 1)]), 0);
    assert_eq!(return_flight_index(&vec![flight("A", "B", T0, T0 + 1)]), 0);
}

fn v(x: &str) -> SimpleExpr {
    x.to_string().into()
}

#[test]
fn store_itinerary_query_text() {
    let now = T0 + 5;
    let tr = trip(vec![
        flight("OTP", "VIE", T0 + 100, T0 + 200),
        flight("VIE", "FCO", T0 + 300, T0 + 400),
        flight("FCO", "OTP", T0 + 3 * DAY, T0 + 3 * DAY + 500),
    ]);
    let expected = Query::insert()
        .into_table(Alias::new("itineraries"))
        .columns([
            Alias::new("from_airport_id"),
            Alias::new("to_airport_id"),
            Alias::new("price"),
            Alias::new("booking_link"),
            Alias::new("departure_depart_at_utc"),
            Alias::new("departure_arrive_at_utc"),
            Alias::new("return_depart_at_utc"),
            Alias::new("return_arrive_at_utc"),
            Alias::new("stopovers"),
            Alias::new("inserted_at"),
            Alias::new("itinerary_type"),
        ])
        .values_panic([
            v("OTP"),
            v("FCO"),
            (87u16).into(),
            v("https://example.test/book"),
            v(&rfc(T0 + 100)),
            v(&rfc(T0 + 200)),
            v(&rfc(T0 + 3 * DAY)),
            v(&rfc(T0 + 3 * DAY + 500)),
            v("1"),
            v(&rfc(now)),
            v("weekly"),
        ])
        .returning_col(Alias::new("id"))
        .to_string(PostgresQueryBuilder);
    assert_eq!(store_itinerary_query(&tr, at(now)).unwrap(), expected);
    let model = itinerary_insert(&tr, at(now)).unwrap();
    assert_eq!(model.rows[0].len(), 11);
    let bad = trip(vec![flight("A", "B", i64::MAX, 0), flight("B", "A", 0, 0)]);
    assert!(store_itinerary_query(&bad, at(now)).is_none());
}

#[test]
fn store_flights_query_text() {
    let fs = vec![flight("OTP", "VIE", T0 + 100, T0 + 200), flight("VIE", "FCO", T0 + 300, T0 + 400)];
    let mut expected = Query::insert()
        .into_table(Alias::new("flights"))
        .columns([
            Alias::new("itinerary_id"),
            Alias::new("from_airport_id"),
            Alias::new("to_airport_id"),
            Alias::new("depart_at_utc"),
            Alias::new("arrive_at_utc"),
            Alias::new("airline"),
            Alias::new("flight_number"),
        ])
        .to_owned();
    for f in &fs {
        expected.values_panic([
            42i32.into(),
            v(&f.fly_from),
            v(&f.fly_to),
            v(&rfc(f.utc_departure.secs)),
            v(&rfc(f.utc_arrival.secs)),
            v(&f.airline),
            f.flight_no.into(),
        ]);
    }
    assert_eq!(store_flights_query(&fs, 42).unwrap(), expected.to_string(PostgresQueryBuilder));
    assert_eq!(flights_insert(&fs, 42).unwrap().rows.len(), 2);
    let mut bad = fs.clone();
    bad.push(flight("FCO", "OTP", T0, i64::MIN));
    assert!(store_flights_query(&bad, 42).is_none());
}

#[test]
fn delete_and_update_queries_text() {
    let when = T0 + 77;
    let expected_delete = Query::delete()
        .from_table(Alias::new("itineraries"))
        .and_where(Expr::col(Alias::new("inserted_at")).lt(rfc(when)))
        .to_string(PostgresQueryBuilder);
    assert_eq!(delete_itineraries_query(at(when)).unwrap(), expected_delete);
    assert!(delete_itineraries_query(Timestamp { secs: i64::MAX, nanos: 0 }).is_none());

    let routes = vec![
        Route { from_location_id: s("OTP"), to_location_id: s("FCO"), last_scan: None },
        Route { from_location_id: s("CLJ"), to_location_id: s("BGY"), last_scan: Some(at(T0)) },
    ];
    let pairs: Vec<(&String, &String)> = routes.iter().map(|r| (&r.from_location_id, &r.to_location_id)).collect();
    let expected_update = Query::update()
        .table(Alias::new("routes"))
        .values([(Alias::new("last_scan"), rfc(when).into())])
        .and_where(
            Expr::tuple([Expr::col(Alias::new("from_location_id")).into(), Expr::col(Alias::new("to_location_id")).into()])
                .in_tuples(pairs.iter().map(|(a, b)| ((*a).clone(), (*b).clone()))),
        )
        .to_string(PostgresQueryBuilder);
    assert_eq!(update_routes_last_scan_query(&routes, at(when)).unwrap(), expected_update);
}

#[test]
fn routes_to_scan_text() {
    let hours = 12;
    let threshold = rfc(T0 - hours * 3600);
    let expected = Query::select()
        .columns([Alias::new("from_location_id"), Alias::new("to_location_id"), Alias::new("last_scan")])
        .from(Alias::new("routes"))
        .and_where(
            Expr::col(Alias::new("last_scan")).is_null().or(Expr::col(Alias::new("last_scan")).lt(threshold)),
        )
        .to_string(PostgresQueryBuilder);
    assert_eq!(routes_to_scan_sql(at(T0), hours).unwrap(), expected);
    assert!(routes_to_scan_sql(at(T0), i64::MAX).is_none());
}
