//! Models, agents, prompts and the plans that inference produces.

pub mod chat;
pub mod json;
pub mod memory;
pub mod model_router;
pub mod models;
pub mod multi_agent_router;
pub mod ollama;
pub mod patch_tree;
pub mod prompt_builder;
pub mod provider;
pub mod self_reflection;
pub mod streaming_ollama;
pub mod tool_json_detector;
pub mod tool_router;
