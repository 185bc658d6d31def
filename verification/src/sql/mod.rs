//! SQL statements as plain values (`model`), their PostgreSQL text,
//! written by sea-query (`render`), and what they mean for rows and tables
//! (`meaning`).
pub mod model;
pub mod render;
pub mod parts;
pub mod meaning;
