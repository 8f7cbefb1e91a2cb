//! Configuration values and their defaults.

pub mod schema;
