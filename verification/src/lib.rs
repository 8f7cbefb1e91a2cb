//! Event-driven orchestration core: a typed event taxonomy, a bounded
//! broadcast bus, the shared state store and the dispatcher that ties them
//! together, with the classifiers, prompts and plans that the workers
//! around them need.
//!
//! Every executable item carries a contract. All of them are proved, but
//! for a handful of small wrappers around other crates and the standard
//! library; those are private, marked, and say in their documentation what
//! is taken on trust.

pub mod ai;
pub mod config;
pub mod doctor;
pub mod event;
pub mod kernel;
pub mod memory;
pub mod orchestrator;
pub mod rag;
pub mod session;
pub mod shell;
pub mod telegram;
pub mod text;
pub mod worker;
pub mod workers;
