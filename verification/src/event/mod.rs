//! Event taxonomy and the bus that carries it.

pub mod bus;
pub mod event;
