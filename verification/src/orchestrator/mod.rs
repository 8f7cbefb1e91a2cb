//! The dispatcher and the rules it applies to each event.

pub mod classifier;
pub mod handler;
pub mod producers;
pub mod router;
