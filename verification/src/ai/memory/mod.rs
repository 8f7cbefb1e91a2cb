//! Records that outlive a run: jobs and provider answers.

pub mod conversation_embeddings;
pub mod persistent_store;
