//! Names of the tables, columns and functions of the database, as the
//! statements write them: a table by its snake-case name, a column by the
//! snake-case name of its variant.
use vstd::prelude::*;
use crate::time::Timestamp;

verus! {

/// The `locations` table and its columns.
#[derive(Clone, Copy, PartialEq, Eq, Debug)]
pub enum Locations {
    Table,
    All,
    Id,
    Name,
    ContinentId,
    RegionId,
    CountryId,
    SubdivisionId,
    AutonomousId,
    CityId,
    LocationType,
    Latitude,
    Longitude,
}

impl Locations {
    /// The name under which the database knows this table or column.
    pub open spec fn spec_name(self) -> Seq<char> {
        match self {
            Locations::Table => "locations"@,
            Locations::All => "all"@,
            Locations::Id => "id"@,
            Locations::Name => "name"@,
            Locations::ContinentId => "continent_id"@,
            Locations::RegionId => "region_id"@,
            Locations::CountryId => "country_id"@,
            Locations::SubdivisionId => "subdivision_id"@,
            Locations::AutonomousId => "autonomous_id"@,
            Locations::CityId => "city_id"@,
            Locations::LocationType => "location_type"@,
            Locations::Latitude => "latitude"@,
            Locations::Longitude => "longitude"@,
        }
    }

    /// The name under which the database knows this table or column.
    pub fn name(&self) -> (s: &'static str)
        ensures
            s@ == self.spec_name(),
    {
        match self {
            Locations::Table => "locations",
            Locations::All => "all",
            Locations::Id => "id",
            Locations::Name => "name",
            Locations::ContinentId => "continent_id",
            Locations::RegionId => "region_id",
            Locations::CountryId => "country_id",
            Locations::SubdivisionId => "subdivision_id",
            Locations::AutonomousId => "autonomous_id",
            Locations::CityId => "city_id",
            Locations::LocationType => "location_type",
            Locations::Latitude => "latitude",
            Locations::Longitude => "longitude",
        }
    }
}

/// The `monitored_routes` table and its columns.
#[derive(Clone, Copy, PartialEq, Eq, Debug)]
pub enum MonitoredRoutes {
    Table,
    All,
    MonitoredBy,
    AirportCode,
    CountryCode,
    Budget,
    TripType,
}

impl MonitoredRoutes {
    /// The name under which the database knows this table or column.
    pub open spec fn spec_name(self) -> Seq<char> {
        match self {
            MonitoredRoutes::Table => "monitored_routes"@,
            MonitoredRoutes::All => "all"@,
            MonitoredRoutes::MonitoredBy => "monitored_by"@,
            MonitoredRoutes::AirportCode => "airport_code"@,
            MonitoredRoutes::CountryCode => "country_code"@,
            MonitoredRoutes::Budget => "budget"@,
            MonitoredRoutes::TripType => "trip_type"@,
        }
    }

    /// The name under which the database knows this table or column.
    pub fn name(&self) -> (s: &'static str)
        ensures
            s@ == self.spec_name(),
    {
        match self {
            MonitoredRoutes::Table => "monitored_routes",
            MonitoredRoutes::All => "all",
            MonitoredRoutes::MonitoredBy => "monitored_by",
            MonitoredRoutes::AirportCode => "airport_code",
            MonitoredRoutes::CountryCode => "country_code",
            MonitoredRoutes::Budget => "budget",
            MonitoredRoutes::TripType => "trip_type",
        }
    }
}

/// The `trips` table and its columns.
#[derive(Clone, Copy, PartialEq, Eq, Debug)]
pub enum Trips {
    Table,
    All,
    TripId,
    AirportCode,
    CountryCode,
    DepartAt,
    ReturnAt,
    Price,
    TripType,
    InsertedAt,
    CityCode,
    CityName,
}

impl Trips {
    /// The name under which the database knows this table or column.
    pub open spec fn spec_name(self) -> Seq<char> {
        match self {
            Trips::Table => "trips"@,
            Trips::All => "all"@,
            Trips::TripId => "trip_id"@,
            Trips::AirportCode => "airport_code"@,
            Trips::CountryCode => "country_code"@,
            Trips::DepartAt => "depart_at"@,
            Trips::ReturnAt => "return_at"@,
            Trips::Price => "price"@,
            Trips::TripType => "trip_type"@,
            Trips::InsertedAt => "inserted_at"@,
            Trips::CityCode => "city_code"@,
            Trips::CityName => "city_name"@,
        }
    }

    /// The name under which the database knows this table or column.
    pub fn name(&self) -> (s: &'static str)
        ensures
            s@ == self.spec_name(),
    {
        match self {
            Trips::Table => "trips",
            Trips::All => "all",
            Trips::TripId => "trip_id",
            Trips::AirportCode => "airport_code",
            Trips::CountryCode => "country_code",
            Trips::DepartAt => "depart_at",
            Trips::ReturnAt => "return_at",
            Trips::Price => "price",
            Trips::TripType => "trip_type",
            Trips::InsertedAt => "inserted_at",
            Trips::CityCode => "city_code",
            Trips::CityName => "city_name",
        }
    }
}

/// The `itineraries` table and its columns.
#[derive(Clone, Copy, PartialEq, Eq, Debug)]
pub enum Itineraries {
    Table,
    Id,
    FromAirportId,
    ToAirportId,
    Price,
    BookingLink,
    DepartureDepartAtUtc,
    DepartureArriveAtUtc,
    ReturnDepartAtUtc,
    ReturnArriveAtUtc,
    Stopovers,
    InsertedAt,
    ItineraryType,
}

impl Itineraries {
    /// The name under which the database knows this table or column.
    pub open spec fn spec_name(self) -> Seq<char> {
        match self {
            Itineraries::Table => "itineraries"@,
            Itineraries::Id => "id"@,
            Itineraries::FromAirportId => "from_airport_id"@,
            Itineraries::ToAirportId => "to_airport_id"@,
            Itineraries::Price => "price"@,
            Itineraries::BookingLink => "booking_link"@,
            Itineraries::DepartureDepartAtUtc => "departure_depart_at_utc"@,
            Itineraries::DepartureArriveAtUtc => "departure_arrive_at_utc"@,
            Itineraries::ReturnDepartAtUtc => "return_depart_at_utc"@,
            Itineraries::ReturnArriveAtUtc => "return_arrive_at_utc"@,
            Itineraries::Stopovers => "stopovers"@,
            Itineraries::InsertedAt => "inserted_at"@,
            Itineraries::ItineraryType => "itinerary_type"@,
        }
    }

    /// The name under which the database knows this table or column.
    pub fn name(&self) -> (s: &'static str)
        ensures
            s@ == self.spec_name(),
    {
        match self {
            Itineraries::Table => "itineraries",
            Itineraries::Id => "id",
            Itineraries::FromAirportId => "from_airport_id",
            Itineraries::ToAirportId => "to_airport_id",
            Itineraries::Price => "price",
            Itineraries::BookingLink => "booking_link",
            Itineraries::DepartureDepartAtUtc => "departure_depart_at_utc",
            Itineraries::DepartureArriveAtUtc => "departure_arrive_at_utc",
            Itineraries::ReturnDepartAtUtc => "return_depart_at_utc",
            Itineraries::ReturnArriveAtUtc => "return_arrive_at_utc",
            Itineraries::Stopovers => "stopovers",
            Itineraries::InsertedAt => "inserted_at",
            Itineraries::ItineraryType => "itinerary_type",
        }
    }
}

/// The `flights` table and its columns.
#[derive(Clone, Copy, PartialEq, Eq, Debug)]
pub enum Flights {
    Table,
    ItineraryId,
    FromAirportId,
    ToAirportId,
    DepartAtUtc,
    ArriveAtUtc,
    Airline,
    FlightNumber,
}

impl Flights {
    /// The name under which the database knows this table or column.
    pub open spec fn spec_name(self) -> Seq<char> {
        match self {
            Flights::Table => "flights"@,
            Flights::ItineraryId => "itinerary_id"@,
            Flights::FromAirportId => "from_airport_id"@,
            Flights::ToAirportId => "to_airport_id"@,
            Flights::DepartAtUtc => "depart_at_utc"@,
            Flights::ArriveAtUtc => "arrive_at_utc"@,
            Flights::Airline => "airline"@,
            Flights::FlightNumber => "flight_number"@,
        }
    }

    /// The name under which the database knows this table or column.
    pub fn name(&self) -> (s: &'static str)
        ensures
            s@ == self.spec_name(),
    {
        match self {
            Flights::Table => "flights",
            Flights::ItineraryId => "itinerary_id",
            Flights::FromAirportId => "from_airport_id",
            Flights::ToAirportId => "to_airport_id",
            Flights::DepartAtUtc => "depart_at_utc",
            Flights::ArriveAtUtc => "arrive_at_utc",
            Flights::Airline => "airline",
            Flights::FlightNumber => "flight_number",
        }
    }
}

/// The `routes` table and its columns.
#[derive(Clone, Copy, PartialEq, Eq, Debug)]
pub enum Routes {
    Table,
    FromLocationId,
    ToLocationId,
    LastScan,
}

impl Routes {
    /// The name under which the database knows this table or column.
    pub open spec fn spec_name(self) -> Seq<char> {
        match self {
            Routes::Table => "routes"@,
            Routes::FromLocationId => "from_location_id"@,
            Routes::ToLocationId => "to_location_id"@,
            Routes::LastScan => "last_scan"@,
        }
    }

    /// The name under which the database knows this table or column.
    pub fn name(&self) -> (s: &'static str)
        ensures
            s@ == self.spec_name(),
    {
        match self {
            Routes::Table => "routes",
            Routes::FromLocationId => "from_location_id",
            Routes::ToLocationId => "to_location_id",
            Routes::LastScan => "last_scan",
        }
    }
}

/// The `monitored_trips` table and its columns.
#[derive(Clone, Copy, PartialEq, Eq, Debug)]
pub enum MonitoredTrips {
    Table,
    Id,
    UserId,
    Name,
}

impl MonitoredTrips {
    /// The name under which the database knows this table or column.
    pub open spec fn spec_name(self) -> Seq<char> {
        match self {
            MonitoredTrips::Table => "monitored_trips"@,
            MonitoredTrips::Id => "id"@,
            MonitoredTrips::UserId => "user_id"@,
            MonitoredTrips::Name => "name"@,
        }
    }

    /// The name under which the database knows this table or column.
    pub fn name(&self) -> (s: &'static str)
        ensures
            s@ == self.spec_name(),
    {
        match self {
            MonitoredTrips::Table => "monitored_trips",
            MonitoredTrips::Id => "id",
            MonitoredTrips::UserId => "user_id",
            MonitoredTrips::Name => "name",
        }
    }
}

/// The `trip_routes` table and its columns.
#[derive(Clone, Copy, PartialEq, Eq, Debug)]
pub enum TripRoutes {
    Table,
    MonitoredTripId,
    FromAirportId,
    ToAirportId,
}

impl TripRoutes {
    /// The name under which the database knows this table or column.
    pub open spec fn spec_name(self) -> Seq<char> {
        match self {
            TripRoutes::Table => "trip_routes"@,
            TripRoutes::MonitoredTripId => "monitored_trip_id"@,
            TripRoutes::FromAirportId => "from_airport_id"@,
            TripRoutes::ToAirportId => "to_airport_id"@,
        }
    }

    /// The name under which the database knows this table or column.
    pub fn name(&self) -> (s: &'static str)
        ensures
            s@ == self.spec_name(),
    {
        match self {
            TripRoutes::Table => "trip_routes",
            TripRoutes::MonitoredTripId => "monitored_trip_id",
            TripRoutes::FromAirportId => "from_airport_id",
            TripRoutes::ToAirportId => "to_airport_id",
        }
    }
}

/// The database function that gives the distance in kilometres between
/// two points given by latitude and longitude.
pub struct DistanceKmFunction;

impl DistanceKmFunction {
    pub open spec fn spec_name() -> Seq<char> {
        "distance_km_function"@
    }

    pub fn name() -> (s: &'static str)
        ensures
            s@ == Self::spec_name(),
    {
        "distance_km_function"
    }
}

/// The database function that tells whether the stay between an arrival
/// and a departure spans a weekend.
pub struct OverWeekendFunction;

impl OverWeekendFunction {
    pub open spec fn spec_name() -> Seq<char> {
        "over_weekend_function"@
    }

    pub fn name() -> (s: &'static str)
        ensures
            s@ == Self::spec_name(),
    {
        "over_weekend_function"
    }
}

/// What a location is, as the `location_type` column stores it.
#[derive(Clone, Copy, PartialEq, Eq, Debug)]
pub enum LocationTypeEnum {
    Airport,
    AutonomousTerritory,
    City,
    Country,
    Continent,
    Subdivision,
    Region,
}

impl LocationTypeEnum {
    /// The text stored for this kind of location.
    pub open spec fn text(self) -> Seq<char> {
        match self {
            LocationTypeEnum::Airport => "airport"@,
            LocationTypeEnum::Country => "country"@,
            LocationTypeEnum::AutonomousTerritory => "autonomous"@,
            LocationTypeEnum::City => "city"@,
            LocationTypeEnum::Continent => "continent"@,
            LocationTypeEnum::Region => "region"@,
            LocationTypeEnum::Subdivision => "subdivision"@,
        }
    }

    /// The text stored for this kind of location (what `Display` writes).
    pub fn to_string(&self) -> (s: String)
        ensures
            s@ == self.text(),
    {
        let t: &str = match self {
            LocationTypeEnum::Airport => "airport",
            LocationTypeEnum::Country => "country",
            LocationTypeEnum::AutonomousTerritory => "autonomous",
            LocationTypeEnum::City => "city",
            LocationTypeEnum::Continent => "continent",
            LocationTypeEnum::Region => "region",
            LocationTypeEnum::Subdivision => "subdivision",
        };
        String::from_str(t)
    }
}

/// A row of the `trips` table.
pub struct Trip {
    pub airport_code: String,
    pub country_code: String,
    pub price: i16,
    pub depart_at: Timestamp,
    pub return_at: Timestamp,
    pub trip_type: i16,
    pub inserted_at: Timestamp,
    pub city_code: String,
    pub city_name: String,
}

/// A row of the `routes` table: a pair of airports that the monitor
/// searches flights for, and when it last did.
pub struct Route {
    pub from_location_id: String,
    pub to_location_id: String,
    pub last_scan: Option<Timestamp>,
}

} // verus!
