use flights::data::db_schema::{Locations, LocationTypeEnum, MonitoredRoutes, Trips};
use flights::data::harvest::{
    build_insert_airports_query, build_insert_autonomous_territories_query,
    build_insert_cities_query, build_insert_continents_query, build_insert_countries_query,
    build_insert_regions_query, build_insert_subdivisions_query, cities_insert, get_name_if_sql,
};
use flights::data::harvest_api::{fetch_locations_params, LocationType as DumpType};
use flights::data::locations::{
    absorb_page, location_query_params, Airport, AutonomousTerritory, City, Continent, Country,
    JsonScalar, Location, LocationResponse, LocationType, Region, Subdivision,
};
use flights::data::migration::{pending_migrations, update_coordinates_statement, PopulateLocationsMigration};
use flights::sql::model::SqlValue;
use sea_query::{Alias, Expr, PostgresQueryBuilder, Query, SimpleExpr};

fn s(x: &str) -> String {
    x.to_string()
}

fn continent(id: &str) -> Continent {
    Continent { id: s(id), name: format!("{} name", id) }
}

fn region(id: &str) -> Region {
    Region { id: s(id), name: format!("{} name", id), continent: Some(continent("europe")) }
}

fn country(id: &str) -> Country {
    Country { id: s(id), name: format!("{} name", id), region: Some(region("eastern_europe")), continent: Some(continent("europe")) }
}

fn city(id: &str, country_id: Option<&str>) -> City {
    City {
        id: s(id),
        name: format!("{} name", id),
        autonomous_territory: None,
        country: country_id.map(country),
        continent: Some(continent("europe")),
        subdivision: Some(Subdivision {
            id: s("B"),
            name: s("Bucharest"),
            continent: None,
            country: None,
            region: None,
        }),
        region: None,
        location: Some(Location { lat: s("44.43"), lon: s("26.1") }),
    }
}

fn insert_text(columns: &[&str], rows: Vec<Vec<SimpleExpr>>) -> String {
    let mut q = Query::insert();
    q.into_table(Alias::new("locations")).columns(columns.iter().map(|c| Alias::new(*c)));
    for row in rows {
        q.values_panic(row);
    }
    q.to_string(PostgresQueryBuilder) + ";"
}

fn t(x: &str) -> SimpleExpr {
    x.to_string().into()
}

fn null() -> SimpleExpr {
    Option::<String>::None.into()
}

#[test]
fn location_type_enum_text() {
    assert_eq!(LocationTypeEnum::Airport.to_string(), "airport");
    assert_eq!(LocationTypeEnum::AutonomousTerritory.to_string(), "autonomous");
    assert_eq!(LocationTypeEnum::City.to_string(), "city");
    assert_eq!(LocationTypeEnum::Country.to_string(), "country");
    assert_eq!(LocationTypeEnum::Continent.to_string(), "continent");
    assert_eq!(LocationTypeEnum::Subdivision.to_string(), "subdivision");
    assert_eq!(LocationTypeEnum::Region.to_string(), "region");
}

#[test]
fn location_type_text() {
    assert_eq!(LocationType::Airport.to_string(), "airport");
    assert_eq!(LocationType::AutonomousTerritory.to_string(), "autonomous_territory");
    assert_eq!(LocationType::City.to_string(), "city");
    assert_eq!(LocationType::Country.to_string(), "country");
    assert_eq!(LocationType::Continent.to_string(), "continent");
    assert_eq!(LocationType::Subdivision.to_string(), "subdivision");
    assert_eq!(LocationType::Region.to_string(), "region");
    assert_eq!(DumpType::Airport.to_string(), "airport");
    assert_eq!(DumpType::Country.to_string(), "country");
}

#[test]
fn schema_names_are_snake_case() {
    assert_eq!(Locations::Table.name(), "locations");
    assert_eq!(Locations::All.name(), "all");
    assert_eq!(Locations::ContinentId.name(), "continent_id");
    assert_eq!(Locations::AutonomousId.name(), "autonomous_id");
    assert_eq!(Locations::LocationType.name(), "location_type");
    assert_eq!(MonitoredRoutes::Table.name(), "monitored_routes");
    assert_eq!(MonitoredRoutes::MonitoredBy.name(), "monitored_by");
    assert_eq!(Trips::Table.name(), "trips");
    assert_eq!(Trips::CityName.name(), "city_name");
}

#[test]
fn continents_insert_text() {
    let rows = vec![continent("europe"), continent("asia")];
    let expected = insert_text(
        &["id", "name", "location_type"],
        vec![
            vec![t("europe"), t("europe name"), t("continent")],
            vec![t("asia"), t("asia name"), t("continent")],
        ],
    );
    assert_eq!(build_insert_continents_query(&rows), expected);
    assert_eq!(
        expected,
        r#"INSERT INTO "locations" ("id", "name", "location_type") VALUES ('europe', 'europe name', 'continent'), ('asia', 'asia name', 'continent');"#
    );
}

#[test]
fn regions_and_countries_insert_text() {
    let mut no_continent = region("x");
    no_continent.continent = None;
    let regions = vec![region("eastern_europe"), no_continent];
    assert_eq!(
        build_insert_regions_query(&regions),
        insert_text(
            &["id", "name", "continent_id", "location_type"],
            vec![
                vec![t("eastern_europe"), t("eastern_europe name"), t("europe"), t("region")],
                vec![t("x"), t("x name"), null(), t("region")],
            ],
        )
    );
    let countries = vec![country("RO")];
    assert_eq!(
        build_insert_countries_query(&countries),
        insert_text(
            &["id", "name", "continent_id", "region_id", "location_type"],
            vec![vec![t("RO"), t("RO name"), t("europe"), t("eastern_europe"), t("country")]],
        )
    );
}

#[test]
fn territories_and_subdivisions_insert_text() {
    let territory = AutonomousTerritory {
        id: s("GL"),
        name: s("Greenland"),
        continent: None,
        country: Some(country("DK")),
        region: None,
    };
    assert_eq!(
        build_insert_autonomous_territories_query(&vec![territory]),
        insert_text(
            &["id", "name", "continent_id", "region_id", "country_id", "location_type"],
            vec![vec![t("GL"), t("Greenland"), null(), null(), t("DK"), t("autonomous")]],
        )
    );
    let sub = Subdivision { id: s("CJ"), name: s("Cluj"), continent: Some(continent("europe")), country: Some(country("RO")), region: Some(region("eastern_europe")) };
    assert_eq!(
        build_insert_subdivisions_query(&vec![sub]),
        insert_text(
            &["id", "name", "continent_id", "region_id", "country_id", "location_type"],
            vec![vec![t("CJ"), t("Cluj"), t("europe"), t("eastern_europe"), t("RO"), t("subdivision")]],
        )
    );
}

#[test]
fn cities_insert_drops_unknown_country() {
    let cities = vec![city("bucharest_ro", Some("RO")), city("nowhere", Some("ZZ")), city("void", None)];
    assert_eq!(
        build_insert_cities_query(&cities),
        insert_text(
            &["id", "name", "continent_id", "region_id", "country_id", "subdivision_id", "location_type"],
            vec![
                vec![t("bucharest_ro"), t("bucharest_ro name"), t("europe"), null(), t("RO"), t("B"), t("city")],
                vec![t("nowhere"), t("nowhere name"), t("europe"), null(), null(), t("B"), t("city")],
                vec![t("void"), t("void name"), t("europe"), null(), null(), t("B"), t("city")],
            ],
        )
    );
    let q = cities_insert(&cities);
    assert!(matches!(q.rows[1][4], SqlValue::Null));
    assert!(matches!(&q.rows[0][4], SqlValue::Text(c) if c == "RO"));
}

#[test]
fn airports_insert_reads_the_city() {
    let with_city = Airport {
        id: s("OTP"),
        name: s("Henri Coanda"),
        autonomous_territory: None,
        country: Some(country("XX")),
        continent: Some(continent("ignored")),
        subdivision: None,
        region: Some(region("ignored")),
        city: Some(city("bucharest_ro", Some("RO"))),
        location: Location { lat: s("44.57"), lon: s("26.08") },
    };
    let without_city = Airport { id: s("XXX"), name: s("Lone"), city: None, ..with_city.clone() };
    let unknown_country = Airport { id: s("ZZA"), name: s("Disputed"), city: Some(city("c", Some("ZZ"))), ..with_city.clone() };
    assert_eq!(
        build_insert_airports_query(&vec![with_city, without_city, unknown_country]),
        insert_text(
            &["id", "name", "continent_id", "region_id", "country_id", "subdivision_id", "city_id", "location_type"],
            vec![
                vec![t("OTP"), t("Henri Coanda"), t("europe"), null(), t("RO"), t("B"), t("bucharest_ro"), t("airport")],
                vec![t("XXX"), t("Lone"), null(), null(), null(), null(), null(), t("airport")],
                vec![t("ZZA"), t("Disputed"), t("europe"), null(), null(), t("B"), t("c"), t("airport")],
            ],
        )
    );
}

#[test]
fn empty_insert_matches_sea_query() {
    assert_eq!(build_insert_continents_query(&vec![]), insert_text(&["id", "name", "location_type"], vec![]));
}

#[test]
fn get_name_if_sql_keeps_sql_files_only() {
    assert_eq!(get_name_if_sql(true, Some(s("001_init.sql"))), Some(s("001_init.sql")));
    assert_eq!(get_name_if_sql(false, Some(s("001_init.sql"))), None);
    assert_eq!(get_name_if_sql(true, Some(s("notes.txt"))), None);
    assert_eq!(get_name_if_sql(true, None), None);
}

#[test]
fn location_query_params_first_page() {
    let p = location_query_params(&LocationType::City, &None);
    assert_eq!(
        p,
        vec![(s("location_types"), s("city")), (s("locale"), s("en-US")), (s("limit"), s("15000"))]
    );
}

#[test]
fn location_query_params_next_page() {
    let cursor = vec![JsonScalar::Int(-17), JsonScalar::Text(s("abc")), JsonScalar::Other];
    let p = location_query_params(&LocationType::AutonomousTerritory, &Some(cursor));
    assert_eq!(
        p,
        vec![
            (s("location_types"), s("autonomous_territory")),
            (s("locale"), s("en-US")),
            (s("limit"), s("15000")),
            (s("search_after"), s("-17")),
            (s("search_after"), s("abc")),
        ]
    );
    let q = fetch_locations_params(&DumpType::Country, &Some(vec![JsonScalar::Int(5), JsonScalar::Text(s("RO"))]));
    assert_eq!(q[0], (s("location_types"), s("country")));
    assert_eq!(q[3], (s("search_after"), s("5")));
}

#[test]
fn absorb_page_appends_and_hands_back_the_cursor() {
    let mut all = vec![1, 2];
    let next = absorb_page(&mut all, LocationResponse { locations: vec![3, 4], search_after: Some(vec![JsonScalar::Int(9)]) });
    assert_eq!(all, vec![1, 2, 3, 4]);
    assert!(matches!(next.as_deref(), Some([JsonScalar::Int(9)])));
    let last = absorb_page(&mut all, LocationResponse { locations: vec![], search_after: None });
    assert_eq!(all, vec![1, 2, 3, 4]);
    assert!(last.is_none());
}

#[test]
fn pending_migrations_sorted_stably_without_existing() {
    let names = vec![s("010_b.sql"), s("002_a.sql"), s("005_c.sql"), s("002_a.sql"), s("001_done.sql")];
    let existing = vec![s("001_done.sql"), s("other.sql")];
    assert_eq!(pending_migrations(&names, &existing), vec![1, 3, 2, 0]);
    assert_eq!(pending_migrations(&names, &names), Vec::<usize>::new());
    assert_eq!(pending_migrations(&vec![], &existing), Vec::<usize>::new());
}

#[test]
fn coordinates_migration_file_name() {
    assert_eq!(PopulateLocationsMigration {}.output_file_name(), "010_populate_coordinates_columns.sql");
}

#[test]
fn update_coordinates_statement_matches_float_values() {
    let lat: f64 = 44.4268;
    let lon: f64 = -26.1025;
    let expected = Query::update()
        .table(Alias::new("locations"))
        .values([(Alias::new("latitude"), lat.into()), (Alias::new("longitude"), lon.into())])
        .and_where(Expr::col(Alias::new("id")).eq(s("bucharest_ro")))
        .to_string(PostgresQueryBuilder);
    let got = update_coordinates_statement(&s("bucharest_ro"), &Location { lat: lat.to_string(), lon: lon.to_string() });
    assert_eq!(got, expected);
    assert_eq!(
        got,
        r#"UPDATE "locations" SET "latitude" = 44.4268, "longitude" = -26.1025 WHERE "id" = 'bucharest_ro'"#
    );
}
