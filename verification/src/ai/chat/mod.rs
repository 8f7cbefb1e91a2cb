//! Chat sessions.

pub mod chat_types;
