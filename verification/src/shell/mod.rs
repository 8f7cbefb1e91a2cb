//! What the shell runner may execute.

pub mod whitelist;
