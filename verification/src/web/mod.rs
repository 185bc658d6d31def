//! The web service: location search, trip registration and the pages of
//! monitored trips.
pub mod configuration;
pub mod locations;
pub mod monitor;
pub mod register_trip;
pub mod trip_details;
pub mod trips;
