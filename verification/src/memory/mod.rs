//! Conversation memory and the loop that lets a model call tools.

pub mod auto_tool_loop;
pub mod persistent_memory;
pub mod tool_schema_detector;
