//! The data service: configuration, database schema names, location data
//! harvested from the locations API and the migrations built from it.
pub mod configuration;
pub mod db_schema;
pub mod locations;
pub mod harvest;
pub mod harvest_api;
pub mod migration;
