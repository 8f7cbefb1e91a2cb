//! The projection of events into what the display shows.

use vstd::prelude::*;
use vstd::string::StringExecFns;
use crate::event::event::{AxonEvent, EventView, HealthView, WorkerHealth};
use crate::kernel::ws_bridge::{WsEvent, WsEventView};
use crate::text::{debug_form, debug_form_of};

verus! {

/// How a health is shown, given its reason written as a string literal.
pub open spec fn label_with(health: HealthView, quoted: Seq<char>) -> Seq<char> {
    match health {
        HealthView::Running => "Running"@,
        HealthView::Idle => "Idle"@,
        HealthView::Stopped => "Stopped"@,
        HealthView::Healthy => "Healthy"@,
        HealthView::Degraded(_) => "Degraded("@ + quoted + ")"@,
        HealthView::Error(_) => "Error("@ + quoted + ")"@,
    }
}

/// The reason that a health carries; empty if it carries none.
pub open spec fn reason_of(health: HealthView) -> Seq<char> {
    match health {
        HealthView::Degraded(reason) => reason,
        HealthView::Error(reason) => reason,
        _ => Seq::empty(),
    }
}

/// How a health is shown: its name, and its reason in parentheses,
/// written as a string literal.
pub open spec fn health_label(health: HealthView) -> Seq<char> {
    label_with(health, debug_form_of(reason_of(health)))
}

/// Writes a health out, given its reason written as a string literal.
pub fn show_health_with(health: &WorkerHealth, quoted: &str) -> (label: String)
    ensures
        label@ == label_with(health@, quoted@),
{
    match health {
        WorkerHealth::Running => String::from_str("Running"),
        WorkerHealth::Idle => String::from_str("Idle"),
        WorkerHealth::Stopped => String::from_str("Stopped"),
        WorkerHealth::Healthy => String::from_str("Healthy"),
        WorkerHealth::Degraded(_) => {
            let mut label = String::from_str("Degraded(");
            label.append(quoted);
            label.append(")");
            label
        },
        WorkerHealth::Error(_) => {
            let mut label = String::from_str("Error(");
            label.append(quoted);
            label.append(")");
            label
        },
    }
}

/// Writes a health out as it is shown.
pub fn show_health(health: &WorkerHealth) -> (label: String)
    ensures
        label@ == health_label(health@),
{
    match health {
        WorkerHealth::Degraded(reason) => show_health_with(
            health,
            debug_form(reason.as_str()).as_str(),
        ),
        WorkerHealth::Error(reason) => show_health_with(
            health,
            debug_form(reason.as_str()).as_str(),
        ),
        _ => show_health_with(health, ""),
    }
}

/// What the display shows of an event: answers, build results and worker
/// health are shown, nothing else.
pub open spec fn shown(event: EventView) -> Option<WsEventView> {
    match event {
        EventView::AiResponse { output, model, .. } => Some(
            WsEventView::ChatResponse { text: output, model },
        ),
        EventView::BuildFinished { success, duration_ms, .. } => Some(
            WsEventView::BuildFinished { success, duration_ms },
        ),
        EventView::WorkerStatus { name, health } => Some(
            WsEventView::WorkerStatusUpdate { name, health: health_label(health) },
        ),
        _ => None,
    }
}

/// Projects an event into what the display shows.
pub fn convert(event: &AxonEvent) -> (out: Option<WsEvent>)
    ensures
        match out {
            Some(ws) => shown(event@) == Some(ws@),
            None => shown(event@) is None,
        },
{
    match event {
        AxonEvent::AiResponse { output, model, .. } => Some(
            WsEvent::ChatResponse { text: output.clone(), model: model.clone() },
        ),
        AxonEvent::BuildFinished { success, duration_ms, .. } => Some(
            WsEvent::BuildFinished { success: *success, duration_ms: *duration_ms },
        ),
        AxonEvent::WorkerStatus { name, health } => Some(
            WsEvent::WorkerStatusUpdate { name: name.clone(), health: show_health(health) },
        ),
        _ => None,
    }
}

} // verus!
