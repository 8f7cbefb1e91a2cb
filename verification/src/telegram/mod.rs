//! The chat-bot adapter: what it writes and when it tries again.

pub mod approval;
pub mod bot;
pub mod status;
