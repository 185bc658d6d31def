use flights::data::locations::{Airport, City, Location};
use flights::data::migration::{airport_coordinates_text, city_coordinates_text, update_coordinates_statement};
use flights::web::monitor::{monitored_route_insert, next_routes_step, RoutesStep};

fn s(x: &str) -> String {
    x.to_string()
}

fn at(lat: &str, lon: &str) -> Location {
    Location { lat: s(lat), lon: s(lon) }
}

fn city(id: &str, location: Option<Location>) -> City {
    City {
        id: s(id),
        name: s(id),
        autonomous_territory: None,
        country: None,
        continent: None,
        subdivision: None,
        region: None,
        location,
    }
}

fn airport(id: &str, location: Location) -> Airport {
    Airport {
        id: s(id),
        name: s(id),
        autonomous_territory: None,
        country: None,
        continent: None,
        subdivision: None,
        region: None,
        city: None,
        location,
    }
}

#[test]
fn coordinates_file_has_one_line_per_location_in_order() {
    let cities = vec![city("bucharest_ro", Some(at("44.43", "26.1"))), city("cluj_ro", Some(at("46.77", "23.6")))];
    let text = city_coordinates_text(&cities);
    let expected = format!(
        "{};\n{};\n",
        update_coordinates_statement(&s("bucharest_ro"), &at("44.43", "26.1")),
        update_coordinates_statement(&s("cluj_ro"), &at("46.77", "23.6")),
    );
    assert_eq!(text, expected);
    assert_eq!(
        text.lines().next().unwrap(),
        r#"UPDATE "locations" SET "latitude" = 44.43, "longitude" = 26.1 WHERE "id" = 'bucharest_ro';"#
    );
    assert_eq!(city_coordinates_text(&vec![]), "");
    let airports = vec![airport("OTP", at("44.57", "26.08"))];
    assert_eq!(
        airport_coordinates_text(&airports),
        r#"UPDATE "locations" SET "latitude" = 44.57, "longitude" = 26.08 WHERE "id" = 'OTP';"#.to_string() + "\n"
    );
}

#[test]
fn routes_are_stored_until_the_first_failure() {
    assert!(matches!(next_routes_step(0, 2, true), RoutesStep::Insert(0)));
    assert!(matches!(next_routes_step(1, 2, true), RoutesStep::Insert(1)));
    assert!(matches!(next_routes_step(2, 2, true), RoutesStep::Done));
    assert!(matches!(next_routes_step(1, 2, false), RoutesStep::Failed));
    assert!(matches!(next_routes_step(0, 0, true), RoutesStep::Done));
    assert!(monitored_route_insert().starts_with("INSERT INTO monitored_routes (airport_code, country_code, budget, trip_type, monitored_by)"));
}
