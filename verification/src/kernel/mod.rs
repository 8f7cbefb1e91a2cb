//! Process-lifetime state and the identifiers that tie requests to replies.

pub mod clock;
pub mod correlation;
pub mod doctor_bridge;
pub mod runtime;
pub mod state;
pub mod ws_bridge;
