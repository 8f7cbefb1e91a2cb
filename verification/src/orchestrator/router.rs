//! Turning requests into inference-requested events on the bus.

use vstd::prelude::*;
use vstd::string::StringExecFns;
use crate::event::bus::EventSender;
use crate::event::event::{opt_text, AxonEvent, CorrelationId, EventView};
use crate::kernel::correlation::{first_unseen, random_id};
use crate::kernel::state::AppState;

verus! {

/// The model asked when a request names none.
pub open spec fn default_model() -> Seq<char> {
    "deepseek-r1:8b"@
}

/// The model a request is sent to: the one it names, else the default.
pub open spec fn model_or_default(model: Option<Seq<char>>) -> Seq<char> {
    match model {
        Some(name) => name,
        None => default_model(),
    }
}

/// The model a request is sent to.
pub fn resolve_model(model: Option<String>) -> (name: String)
    ensures
        name@ == model_or_default(opt_text(model)),
{
    match model {
        Some(name) => name,
        None => String::from_str("deepseek-r1:8b"),
    }
}

/// The inference-requested event for a request, its model filled in.
pub open spec fn ai_request(
    request_id: CorrelationId,
    prompt: Seq<char>,
    model: Option<Seq<char>>,
    context: Option<Seq<char>>,
) -> EventView {
    EventView::AiRequest {
        id: request_id,
        prompt,
        model: Some(model_or_default(model)),
        context,
    }
}

/// Publishes an inference request under the given identifier, sent to the
/// default model if it names none. Returns whether the bus accepted it.
pub fn handle_ai_request(
    request_id: CorrelationId,
    prompt: String,
    model: Option<String>,
    context: Option<String>,
    tx: &mut EventSender,
) -> (accepted: bool)
    requires
        old(tx).wf(),
    ensures
        final(tx).wf(),
        final(tx)@ == old(tx)@.publish(
            ai_request(request_id, prompt@, opt_text(model), opt_text(context)),
        ),
        accepted == old(tx)@.accepts(),
{
    let name = resolve_model(model);
    tx.publish(AxonEvent::AiRequest { id: request_id, prompt, model: Some(name), context })
}

/// An inference request as its requester words it.
pub open spec fn plain_request(
    id: CorrelationId,
    prompt: Seq<char>,
    model: Option<Seq<char>>,
    context: Option<Seq<char>>,
) -> EventView {
    EventView::AiRequest { id, prompt, model, context }
}

/// Makes an inference request under a fresh identifier: the first value
/// from `candidate` on that no earlier event carried. The identifier is
/// noted in the store; the caller publishes the event.
pub fn fresh_request(
    prompt: String,
    model: Option<String>,
    context: Option<String>,
    candidate: CorrelationId,
    state: &mut AppState,
) -> (event: AxonEvent)
    requires
        old(state).wf(),
    ensures
        final(state).wf(),
        !old(state)@.seen.contains(first_unseen(old(state)@.seen, candidate)),
        final(state)@ == old(state)@.with_seen(first_unseen(old(state)@.seen, candidate)),
        event@ == plain_request(
            first_unseen(old(state)@.seen, candidate),
            prompt@,
            opt_text(model),
            opt_text(context),
        ),
{
    let id = state.issue_id(candidate);
    AxonEvent::AiRequest { id, prompt, model, context }
}

/// Makes an inference request as [`fresh_request`] does, with a candidate
/// identifier drawn at random.
pub fn new_request(
    prompt: String,
    model: Option<String>,
    context: Option<String>,
    state: &mut AppState,
) -> (event: AxonEvent)
    requires
        old(state).wf(),
    ensures
        final(state).wf(),
        exists|id: CorrelationId|
            {
                &&& !old(state)@.seen.contains(id)
                &&& final(state)@ == old(state)@.with_seen(id)
                &&& event@ == #[trigger] plain_request(
                    id,
                    prompt@,
                    opt_text(model),
                    opt_text(context),
                )
            },
{
    let candidate = random_id();
    let ghost id = first_unseen(state@.seen, candidate);
    let event = fresh_request(prompt, model, context, candidate, state);
    assert(event@ == plain_request(id, prompt@, opt_text(model), opt_text(context)));
    event
}

/// The prompt that asks for an analysis of a changed file.
pub open spec fn inspection_prompt(path: Seq<char>, content: Seq<char>) -> Seq<char> {
    "Analizeaza acest cod Rust:\nPath: "@ + path + "\n\n"@ + content
}

/// Builds the prompt that asks for an analysis of a changed file.
pub fn build_inspection_prompt(path: &str, content: &str) -> (prompt: String)
    ensures
        prompt@ == inspection_prompt(path@, content@),
{
    let mut prompt = String::from_str("Analizeaza acest cod Rust:\nPath: ");
    prompt.append(path);
    prompt.append("\n\n");
    prompt.append(content);
    prompt
}

/// The inference-requested event for a changed file.
pub open spec fn file_inspection_request(
    id: CorrelationId,
    path: Seq<char>,
    content: Seq<char>,
) -> EventView {
    EventView::AiRequest {
        id,
        prompt: inspection_prompt(path, content),
        model: Some(default_model()),
        context: None,
    }
}

/// Publishes an analysis request for a changed file under a fresh identifier:
/// the first value from `candidate` on that no earlier event carried.
/// Returns the identifier and whether the bus accepted the event.
pub fn inspect_file(
    path: String,
    content: String,
    candidate: CorrelationId,
    state: &mut AppState,
    tx: &mut EventSender,
) -> (sent: (CorrelationId, bool))
    requires
        old(state).wf(),
        old(tx).wf(),
    ensures
        final(state).wf(),
        final(tx).wf(),
        sent.0 == first_unseen(old(state)@.seen, candidate),
        !old(state)@.seen.contains(sent.0),
        final(state)@ == old(state)@.with_seen(sent.0),
        final(tx)@ == old(tx)@.publish(file_inspection_request(sent.0, path@, content@)),
        sent.1 == old(tx)@.accepts(),
{
    let id = state.issue_id(candidate);
    let prompt = build_inspection_prompt(path.as_str(), content.as_str());
    let accepted = tx.publish(
        AxonEvent::AiRequest {
            id,
            prompt,
            model: Some(String::from_str("deepseek-r1:8b")),
            context: None,
        },
    );
    (id, accepted)
}

/// Publishes an analysis request for a changed file, as [`inspect_file`] does
/// with a candidate identifier drawn at random.
pub fn handle_file_detected(
    path: String,
    content: String,
    state: &mut AppState,
    tx: &mut EventSender,
) -> (sent: (CorrelationId, bool))
    requires
        old(state).wf(),
        old(tx).wf(),
    ensures
        final(state).wf(),
        final(tx).wf(),
        !old(state)@.seen.contains(sent.0),
        final(state)@ == old(state)@.with_seen(sent.0),
        final(tx)@ == old(tx)@.publish(file_inspection_request(sent.0, path@, content@)),
        sent.1 == old(tx)@.accepts(),
{
    let candidate = random_id();
    inspect_file(path, content, candidate, state, tx)
}

} // verus!
