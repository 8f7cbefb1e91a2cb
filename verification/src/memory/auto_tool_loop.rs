//! The loop in which a model may call tools.
//!
//! The loop itself runs where the tools are; this module decides, round by
//! round, whether another tool is called.

use vstd::prelude::*;
use crate::ai::json::json_members_of;
use crate::memory::tool_schema_detector::{detect_tool_call, tool_call_in};

verus! {

/// Number of tool calls one answer may lead to.
pub const MAX_TOOL_ROUNDS: u8 = 3;

/// What the loop does next.
#[derive(Debug, Clone, PartialEq, Eq)]
pub enum ToolStep {
    /// Run this tool with these arguments and come back with its answer.
    Call { tool: String, args: String },
    /// The loop ends.
    Done,
}

/// Mathematical view of [`ToolStep`].
pub enum ToolStepView {
    Call { tool: Seq<char>, args: Seq<char> },
    Done,
}

impl View for ToolStep {
    type V = ToolStepView;

    open spec fn view(&self) -> ToolStepView {
        match *self {
            ToolStep::Call { tool, args } => ToolStepView::Call { tool: tool@, args: args@ },
            ToolStep::Done => ToolStepView::Done,
        }
    }
}

/// The next step: a call is made only while fewer than three rounds were
/// run and a call was detected.
pub open spec fn next_step(rounds_run: u8, call: Option<(Seq<char>, Seq<char>)>) -> ToolStepView {
    match call {
        Some(pair) if rounds_run < MAX_TOOL_ROUNDS => ToolStepView::Call {
            tool: pair.0,
            args: pair.1,
        },
        _ => ToolStepView::Done,
    }
}

/// The next step from what the detector found.
pub fn step_from(rounds_run: u8, call: Option<(String, String)>) -> (step: ToolStep)
    ensures
        step@ == next_step(rounds_run, crate::memory::tool_schema_detector::pair_view(call)),
{
    if rounds_run >= MAX_TOOL_ROUNDS {
        return ToolStep::Done;
    }
    match call {
        Some((tool, args)) => ToolStep::Call { tool, args },
        None => ToolStep::Done,
    }
}

/// Decides whether the answer of round `rounds_run` leads to a tool call.
pub fn tool_reasoning_loop(rounds_run: u8, response: &str) -> (step: ToolStep)
    ensures
        step@ == next_step(rounds_run, tool_call_in(json_members_of(response@))),
{
    if rounds_run >= MAX_TOOL_ROUNDS {
        return ToolStep::Done;
    }
    step_from(rounds_run, detect_tool_call(response))
}

} // verus!
