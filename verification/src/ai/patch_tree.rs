//! The inference bridge: takes requests off the bus and puts answers on it.

use vstd::prelude::*;
use vstd::string::StringExecFns;
use crate::event::bus::EventSender;
use crate::event::event::{AxonEvent, CorrelationId, EventView, HealthView, WorkerHealth};
use crate::kernel::state::AppState;
use crate::orchestrator::handler::finish_inference;

verus! {

/// The name under which the bridge reports its health.
pub open spec fn bridge_name() -> Seq<char> {
    "ai_bridge"@
}

/// The model the bridge asks.
pub open spec fn bridge_model() -> Seq<char> {
    "qwen2.5:7b"@
}

/// Marks the bridge as running.
pub fn run(state: &mut AppState)
    requires
        old(state).wf(),
    ensures
        final(state).wf(),
        final(state)@ == old(state)@.with_worker(bridge_name(), HealthView::Running),
{
    state.update_worker("ai_bridge", WorkerHealth::Running);
}

/// The request that an event asks the bridge to serve: its identifier and
/// its prompt, if the event is an inference request.
pub fn request_of(event: &AxonEvent) -> (job: Option<(CorrelationId, String)>)
    ensures
        match event@ {
            EventView::AiRequest { id, prompt, .. } => job matches Some(pair) && pair.0 == id
                && pair.1@ == prompt,
            _ => job is None,
        },
{
    match event {
        AxonEvent::AiRequest { id, prompt, .. } => Some((*id, prompt.clone())),
        _ => None,
    }
}

/// The event the bridge answers a request with: the provider's answer
/// under the model the bridge asks, or the provider's error. Either way the
/// event echoes the identifier of the request.
pub open spec fn reply(request_id: CorrelationId, answer: Result<String, String>) -> EventView {
    match answer {
        Ok(text) => EventView::AiResponse {
            request_id,
            output: text@,
            model: bridge_model(),
            context: None,
            response: text@,
        },
        Err(error) => EventView::AiError { request_id, error: error@ },
    }
}

/// Publishes the answer to a request. A provider error is published as an
/// event of its own, never raised as a fault.
pub fn respond(request_id: CorrelationId, answer: Result<String, String>, tx: &mut EventSender) -> (
    accepted: bool)
    requires
        old(tx).wf(),
    ensures
        final(tx).wf(),
        final(tx)@ == old(tx)@.publish(reply(request_id, answer)),
        accepted == old(tx)@.accepts(),
        reply(request_id, answer).reply_id() == Some(request_id),
{
    let event = finish_inference(request_id, String::from_str("qwen2.5:7b"), answer);
    tx.publish(event)
}

} // verus!
