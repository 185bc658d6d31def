//! Logic of the flights monitoring project: configuration, location data,
//! flight searches and the SQL statements that the services send to the
//! database, with the statements described by plain models.
#![allow(unused_imports)]

pub mod text;
pub mod data;
pub mod sql;
pub mod time;
pub mod monitor;
pub mod web;
