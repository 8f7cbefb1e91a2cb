//! The identity of one run of the system.

pub mod identity;
