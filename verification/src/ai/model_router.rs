//! Routing of a prompt to a model.

use vstd::prelude::*;
use vstd::string::StringExecFns;
use crate::ai::models::ModelRegistry;

verus! {

/// What kind of work a prompt asks for.
#[derive(Debug, Clone, Copy, PartialEq, Eq, Structural)]
pub enum AiTaskType {
    General,
    Coding,
    Analysis,
}

/// A command with its arguments, as a model asks for it.
#[derive(Debug, Clone, PartialEq, Eq)]
pub struct ToolCall {
    pub command: String,
    pub args: Vec<String>,
}

/// Holds the registry that prompts are routed by.
pub struct ModelRouter {
    pub registry: ModelRegistry,
}

impl ModelRouter {
    pub fn new(registry: ModelRegistry) -> (router: ModelRouter)
        ensures
            router.registry == registry,
    {
        ModelRouter { registry }
    }
}

/// The canned answer to a prompt.
pub open spec fn canned_answer(prompt: Seq<char>) -> Seq<char> {
    "DeepSeek Response to: "@ + prompt
}

/// Answers a prompt without asking any model.
pub fn route_and_query(prompt: &str) -> (answer: String)
    ensures
        answer@ == canned_answer(prompt@),
{
    let mut answer = String::from_str("DeepSeek Response to: ");
    answer.append(prompt);
    answer
}

} // verus!
