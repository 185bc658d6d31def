//! The monitor: flight searches for the routes it watches, and the
//! itineraries it stores from their results.
pub mod api_client;
pub mod configuration;
pub mod models;
pub mod scan;
