//! Preparing text for retrieval.

pub mod chunker;
