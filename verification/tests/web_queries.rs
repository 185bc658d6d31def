use flights::web::locations::{cities_query, fetch_cities, fetch_countries, fetch_subdivisions, CityQuery, CountryQuery, SubdivisionQuery};
use flights::web::register_trip::{
    airports_for_sql, airports_in_range_sql, city_coordinates_sql, destination_id, destination_of,
    insert_missing_routes_sql, insert_monitored_trip_sql, insert_trip_routes_sql,
    location_name_sql, missing_routes_insert, trip_name, trip_routes_insert, Coordinates,
    Destination, NewTripRequest,
};
use flights::web::trip_details::{get_itineraries, TripQuery};
use flights::web::trips::get_trips;
use flights::sql::model::SqlValue;
use sea_query::extension::postgres::PgExpr;
use sea_query::{
    Alias, CaseStatement, Expr, Func, JoinType, OnConflict, Order, PostgresQueryBuilder, Query,
};

fn s(x: &str) -> String {
    x.to_string()
}

fn a(x: &str) -> Alias {
    Alias::new(x)
}

#[test]
fn fetch_cities_text() {
    let term = s("buc");
    let order_case = CaseStatement::new()
        .case(Expr::col((a("l"), a("name"))).ilike(term.clone()), 1)
        .case(Expr::col((a("l"), a("name"))).ilike(format!("{}%", term)), 2)
        .finally(3);
    let expected = Query::select()
        .from_as(a("locations"), a("l"))
        .join_as(
            JoinType::InnerJoin,
            a("locations"),
            a("c"),
            Expr::col((a("l"), a("country_id"))).equals((a("c"), a("id"))),
        )
        .columns(vec![(a("l"), a("id")), (a("l"), a("name")), (a("l"), a("country_id"))])
        .expr_as(Expr::col((a("c"), a("name"))), a("country_name"))
        .expr_as(order_case, a("order_column"))
        .and_where(Expr::col((a("l"), a("location_type"))).eq(s("city")))
        .and_where(Expr::col((a("l"), a("name"))).ilike(format!("%{}%", term)))
        .order_by(a("order_column"), Order::Asc)
        .limit(25)
        .to_string(PostgresQueryBuilder);
    assert_eq!(fetch_cities(&CityQuery { term }), expected);
    assert_eq!(cities_query(&s("x")).limit, Some(25));
}

#[test]
fn fetch_countries_text() {
    let term = s("rom");
    let order_case = CaseStatement::new()
        .case(Expr::col(a("name")).ilike(term.clone()), 1)
        .case(Expr::col(a("name")).ilike(format!("{}%", term)), 2)
        .finally(3);
    let expected = Query::select()
        .columns(vec![a("id"), a("name")])
        .from(a("locations"))
        .expr_as(order_case, a("order_column"))
        .and_where(Expr::col(a("location_type")).eq(s("country")))
        .and_where(Expr::col(a("name")).ilike(format!("%{}%", term)))
        .order_by(a("order_column"), Order::Asc)
        .limit(25)
        .to_string(PostgresQueryBuilder);
    assert_eq!(fetch_countries(&CountryQuery { term }), expected);
}

#[test]
fn fetch_subdivisions_text() {
    let expected = Query::select()
        .columns(vec![a("id"), a("name")])
        .from(a("locations"))
        .and_where(Expr::col(a("location_type")).eq(s("subdivision")))
        .and_where(Expr::col(a("country_id")).eq(s("RO")))
        .to_string(PostgresQueryBuilder);
    assert_eq!(fetch_subdivisions(&SubdivisionQuery { country_id: s("RO") }), expected);
}

#[test]
fn airports_in_range_text() {
    let lat: f64 = 44.43;
    let lon: f64 = 26.1;
    let expected_city = Query::select()
        .from(a("locations"))
        .columns([a("latitude"), a("longitude")])
        .and_where(Expr::col(a("id")).eq("bucharest_ro"))
        .to_string(PostgresQueryBuilder);
    assert_eq!(city_coordinates_sql(&s("bucharest_ro")), expected_city);
    let distance = Func::cust(a("distance_km_function")).args([
        Expr::col(a("latitude")).into(),
        Expr::col(a("longitude")).into(),
        lat.into(),
        lon.into(),
    ]);
    let radius: u16 = 150;
    let expected = Query::select()
        .from(a("locations"))
        .columns(vec![a("id")])
        .and_where(Expr::col(a("location_type")).eq(s("airport")))
        .and_where(Expr::col(a("city_id")).eq("bucharest_ro").or(Expr::expr(distance).lte(radius)))
        .to_string(PostgresQueryBuilder);
    let coords = Coordinates { latitude: lat.to_string(), longitude: lon.to_string() };
    assert_eq!(airports_in_range_sql(&s("bucharest_ro"), radius, &coords), expected);
}

#[test]
fn airports_for_text() {
    let by_country = Query::select()
        .columns(vec![a("id")])
        .from(a("locations"))
        .and_where(Expr::col(a("location_type")).eq(s("airport")))
        .and_where(Expr::col(a("country_id")).eq(s("IT")))
        .to_string(PostgresQueryBuilder);
    assert_eq!(airports_for_sql(&s("IT"), &vec![]), by_country);
    let subs = vec![s("IT-62"), s("IT-25")];
    let by_subdivision = Query::select()
        .columns(vec![a("id")])
        .from(a("locations"))
        .and_where(Expr::col(a("location_type")).eq(s("airport")))
        .and_where(Expr::col(a("subdivision_id")).is_in(subs.clone()))
        .to_string(PostgresQueryBuilder);
    assert_eq!(airports_for_sql(&s("IT"), &subs), by_subdivision);
}

#[test]
fn route_inserts_cover_every_pair() {
    let deps = vec![s("OTP"), s("BBU")];
    let dests = vec![s("FCO"), s("CIA"), s("NAP")];
    let mut expected = Query::insert()
        .into_table(a("routes"))
        .columns([a("from_location_id"), a("to_location_id")])
        .on_conflict(OnConflict::new().do_nothing().to_owned())
        .to_owned();
    for d in &deps {
        for t in &dests {
            expected.values_panic([d.into(), t.into()]);
        }
    }
    assert_eq!(insert_missing_routes_sql(&deps, &dests), expected.to_string(PostgresQueryBuilder));
    let q = missing_routes_insert(&deps, &dests);
    assert_eq!(q.rows.len(), 6);
    assert!(matches!((&q.rows[4][0], &q.rows[4][1]), (SqlValue::Text(d), SqlValue::Text(t)) if d == "BBU" && t == "CIA"));

    let mut expected_trip = Query::insert()
        .into_table(a("trip_routes"))
        .columns([a("monitored_trip_id"), a("from_airport_id"), a("to_airport_id")])
        .to_owned();
    for d in &deps {
        for t in &dests {
            expected_trip.values_panic([7i32.into(), d.into(), t.into()]);
        }
    }
    assert_eq!(insert_trip_routes_sql(&deps, &dests, 7), expected_trip.to_string(PostgresQueryBuilder));
    assert_eq!(trip_routes_insert(&deps, &vec![], 7).rows.len(), 0);
}

#[test]
fn monitored_trip_and_names_text() {
    let expected = Query::insert()
        .into_table(a("monitored_trips"))
        .columns([a("user_id"), a("name")])
        .values_panic([1.into(), s("trip").into()])
        .returning(Query::returning().columns([a("id")]))
        .to_string(PostgresQueryBuilder);
    assert_eq!(insert_monitored_trip_sql(s("trip")), expected);
    let expected_name = Query::select()
        .from(a("locations"))
        .columns([a("name")])
        .and_where(Expr::col(a("id")).eq("RO"))
        .to_string(PostgresQueryBuilder);
    assert_eq!(location_name_sql(&s("RO")), expected_name);
}

fn request(kind: &str, city: Option<&str>, radius: Option<u16>, country: Option<&str>, subs: Vec<String>) -> NewTripRequest {
    NewTripRequest {
        destination_type: s(kind),
        departure_city_id: s("bucharest_ro"),
        departure_radius: 100,
        destination_city_id: city.map(s),
        destination_city_radius: radius,
        destination_country_id: country.map(s),
        destination_country_subdivisions: subs,
    }
}

#[test]
fn trip_name_for_city_and_country() {
    let to_city = request("city", Some("rome_it"), Some(50), None, vec![]);
    assert_eq!(trip_name(&s("Bucharest"), &s("Rome"), &to_city), "Bucharest(+100km) to Rome(+50km)");
    let to_country = request("country", None, None, Some("IT"), vec![s("a"), s("b")]);
    assert_eq!(trip_name(&s("Bucharest"), &s("Italy"), &to_country), "Bucharest(+100km) to Italy(2 regions)");
    assert_eq!(destination_id(&to_city), "rome_it");
    assert_eq!(destination_id(&to_country), "IT");
}

#[test]
fn destination_of_requests() {
    match destination_of(&request("city", Some("rome_it"), Some(50), None, vec![])) {
        Destination::AroundCity { city_id, radius } => {
            assert_eq!(city_id, "rome_it");
            assert_eq!(radius, 50);
        },
        _ => panic!("expected a city"),
    }
    match destination_of(&request("country", None, None, Some("IT"), vec![s("IT-62")])) {
        Destination::InCountry { country_id, subdivisions } => {
            assert_eq!(country_id, "IT");
            assert_eq!(subdivisions, vec![s("IT-62")]);
        },
        _ => panic!("expected a country"),
    }
}

fn itineraries_expected(trip_id: i32, q: &TripQuery) -> String {
    let r = a("r");
    let i = a("i");
    let mut statement = Query::select()
        .columns(vec![
            (i.clone(), a("from_airport_id")),
            (i.clone(), a("to_airport_id")),
            (i.clone(), a("departure_depart_at_utc")),
            (i.clone(), a("return_depart_at_utc")),
            (i.clone(), a("price")),
            (i.clone(), a("stopovers")),
        ])
        .expr_as(
            Func::cust(a("over_weekend_function")).args([
                Expr::col((i.clone(), a("departure_arrive_at_utc"))).into(),
                Expr::col((i.clone(), a("return_depart_at_utc"))).into(),
            ]),
            a("over_wk"),
        )
        .from_as(a("trip_routes"), r.clone())
        .join_as(
            JoinType::InnerJoin,
            a("itineraries"),
            i.clone(),
            Expr::col((r.clone(), a("from_airport_id")))
                .equals((i.clone(), a("from_airport_id")))
                .and(Expr::col((r.clone(), a("to_airport_id"))).equals((i.clone(), a("to_airport_id")))),
        )
        .and_where(Expr::col((r.clone(), a("monitored_trip_id"))).eq(trip_id))
        .order_by((i.clone(), a("price")), Order::Asc)
        .order_by((i.clone(), a("departure_depart_at_utc")), Order::Asc)
        .to_owned();
    if let Some(n) = q.min_nights {
        statement.and_where(
            Expr::col((i.clone(), a("return_depart_at_utc")))
                .gt(Expr::col((i.clone(), a("departure_arrive_at_utc"))).add(Expr::cust(format!("interval '{} days'", n)))),
        );
    }
    if let Some(n) = q.max_nights {
        statement.and_where(
            Expr::col((i.clone(), a("return_depart_at_utc")))
                .lt(Expr::col((i.clone(), a("departure_arrive_at_utc"))).add(Expr::cust(format!("interval '{} days'", n)))),
        );
    }
    if let Some(stopovers) = q.stopovers {
        if !stopovers {
            statement.and_where(Expr::col((i.clone(), a("stopovers"))).eq(0));
        }
    }
    statement.to_string(PostgresQueryBuilder)
}

#[test]
fn get_itineraries_text_with_each_filter() {
    let cases = [
        TripQuery { min_nights: None, max_nights: None, stopovers: None },
        TripQuery { min_nights: Some(2), max_nights: None, stopovers: None },
        TripQuery { min_nights: None, max_nights: Some(10), stopovers: Some(true) },
        TripQuery { min_nights: Some(3), max_nights: Some(7), stopovers: Some(false) },
    ];
    for q in cases.iter() {
        assert_eq!(get_itineraries(5, q), itineraries_expected(5, q));
    }
}

#[test]
fn get_trips_text() {
    let m = a("m");
    let r = a("r");
    let i = a("i");
    let expected = Query::select()
        .columns(vec![(m.clone(), a("id")), (m.clone(), a("name"))])
        .expr_as(Func::min(Expr::col((i.clone(), a("price")))), a("min_price"))
        .from_as(a("monitored_trips"), m.clone())
        .join_as(JoinType::Join, a("trip_routes"), r.clone(), Expr::col((m.clone(), a("id"))).equals((r.clone(), a("monitored_trip_id"))))
        .join_as(
            JoinType::LeftJoin,
            a("itineraries"),
            i.clone(),
            Expr::col((r.clone(), a("from_airport_id")))
                .equals((i.clone(), a("from_airport_id")))
                .and(Expr::col((r.clone(), a("to_airport_id"))).equals((i.clone(), a("to_airport_id")))),
        )
        .and_where(Expr::col((m.clone(), a("user_id"))).eq(1))
        .group_by_col((m.clone(), a("id")))
        .to_string(PostgresQueryBuilder);
    assert_eq!(get_trips(), expected);
}

#[test]
fn trip_routes_are_the_added_routes_behind_the_trip_id() {
    let deps = vec![s("OTP"), s("CLJ")];
    let dests = vec![s("BGY"), s("CIA")];
    let routes = missing_routes_insert(&deps, &dests);
    let tied = trip_routes_insert(&deps, &dests, 11);
    assert_eq!(routes.rows.len(), tied.rows.len());
    for (r, t) in routes.rows.iter().zip(tied.rows.iter()) {
        assert!(matches!(t[0], SqlValue::Int(11)));
        assert_eq!(t.len(), r.len() + 1);
        for (x, y) in r.iter().zip(t[1..].iter()) {
            match (x, y) {
                (SqlValue::Text(a), SqlValue::Text(b)) => assert_eq!(a, b),
                _ => panic!("airport ids are text"),
            }
        }
    }
}

#[test]
fn radii_differ_only_in_the_bound_and_keep_the_city() {
    let coords = Coordinates { latitude: s("44.43"), longitude: s("26.1") };
    let at0 = airports_in_range_sql(&s("bucharest_ro"), 0, &coords);
    let at50 = airports_in_range_sql(&s("bucharest_ro"), 50, &coords);
    assert!(at0.contains("\"city_id\" = 'bucharest_ro' OR"));
    assert!(at0.contains("<= 0"));
    assert_eq!(at0.replace("<= 0", "<= 50"), at50);
}

#[test]
fn adding_missing_routes_again_sends_the_same_skipping_insert() {
    let deps = vec![s("OTP")];
    let dests = vec![s("FCO"), s("CIA")];
    let first = insert_missing_routes_sql(&deps, &dests);
    assert_eq!(first, insert_missing_routes_sql(&deps, &dests));
    assert!(first.contains("ON CONFLICT"));
    assert!(first.contains("('OTP', 'FCO'), ('OTP', 'CIA')"));
}
