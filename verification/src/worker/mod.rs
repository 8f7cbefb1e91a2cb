//! What a worker reports about itself.

pub mod status;
