//! Repair of the environment after a failed action.

pub mod engine;
