//! A detector of tool calls that never finds one.

use vstd::prelude::*;
use crate::ai::model_router::ToolCall;
use crate::event::event::{AxonEvent, EventView, HealthView, WorkerHealth};
use vstd::string::StringExecFns;

verus! {

/// Placeholder for a router of tool calls.
#[derive(Debug, Clone, Copy, PartialEq, Eq, Structural)]
pub struct ToolRouter;

/// Finds no tool call, whatever the text.
pub fn detect_tool_call(_text: &str) -> (call: Option<ToolCall>)
    ensures
        call is None,
{
    None
}

/// The health report that the detector sends about itself.
pub fn handle_potential_tool_call(_text: &str) -> (report: AxonEvent)
    ensures
        report@ == (EventView::WorkerStatus {
            name: "tool_detector"@,
            health: HealthView::Healthy,
        }),
{
    AxonEvent::WorkerStatus {
        name: String::from_str("tool_detector"),
        health: WorkerHealth::Healthy,
    }
}

} // verus!
