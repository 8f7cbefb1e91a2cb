//! The bridge to the display: what it is sent and what it sends.

use vstd::prelude::*;
use crate::event::bus::EventSender;
use crate::event::event::{AxonEvent, CorrelationId, EventView};
use crate::kernel::correlation::{first_unseen, random_id};
use crate::kernel::state::AppState;
use crate::orchestrator::router::{new_request, plain_request};

verus! {

/// What the display is sent.
#[derive(Debug, Clone, PartialEq, Eq)]
#[allow(inconsistent_fields)]
pub enum WsEvent {
    InitialState { rag_indexed: usize },
    ChatResponse { text: String, model: String },
    BuildFinished { success: bool, duration_ms: u64 },
    WorkerStatusUpdate { name: String, health: String },
}

/// Mathematical view of [`WsEvent`].
#[allow(inconsistent_fields)]
pub enum WsEventView {
    InitialState { rag_indexed: usize },
    ChatResponse { text: Seq<char>, model: Seq<char> },
    BuildFinished { success: bool, duration_ms: u64 },
    WorkerStatusUpdate { name: Seq<char>, health: Seq<char> },
}

impl View for WsEvent {
    type V = WsEventView;

    open spec fn view(&self) -> WsEventView {
        match *self {
            WsEvent::InitialState { rag_indexed } => WsEventView::InitialState { rag_indexed },
            WsEvent::ChatResponse { text, model } => WsEventView::ChatResponse {
                text: text@,
                model: model@,
            },
            WsEvent::BuildFinished { success, duration_ms } => WsEventView::BuildFinished {
                success,
                duration_ms,
            },
            WsEvent::WorkerStatusUpdate { name, health } => WsEventView::WorkerStatusUpdate {
                name: name@,
                health: health@,
            },
        }
    }
}

/// What the display sends.
#[derive(Debug, Clone, PartialEq, Eq)]
pub enum UiCommand {
    Chat { message: String },
}

/// The first message for a display that connects: the number of indexed
/// documents, as far as a `usize` holds it.
pub fn initial_state(state: &AppState) -> (hello: WsEvent)
    ensures
        hello@ == (WsEventView::InitialState { rag_indexed: state@.rag_indexed as usize }),
{
    WsEvent::InitialState { rag_indexed: state.rag_indexed() as usize }
}

/// What the display is sent for an event while a chat is open: answers of
/// the model, nothing else.
pub fn chat_update(event: &AxonEvent) -> (out: Option<WsEvent>)
    ensures
        match event@ {
            EventView::AiResponse { output, model, .. } => out matches Some(ws) && ws@ == (
            WsEventView::ChatResponse { text: output, model }),
            _ => out is None,
        },
{
    match event {
        AxonEvent::AiResponse { output, model, .. } => Some(
            WsEvent::ChatResponse { text: output.clone(), model: model.clone() },
        ),
        _ => None,
    }
}

/// The inference request that a chat message becomes.
pub open spec fn chat_request(id: CorrelationId, message: Seq<char>) -> EventView {
    EventView::AiRequest { id, prompt: message, model: None, context: None }
}

/// The message that a command of the display carries.
pub open spec fn message_of(command: UiCommand) -> Seq<char> {
    match command {
        UiCommand::Chat { message } => message@,
    }
}

/// Makes the inference request for a command of the display, under a
/// fresh identifier drawn at random; the caller publishes it.
pub fn command_request(command: UiCommand, state: &mut AppState) -> (event: AxonEvent)
    requires
        old(state).wf(),
    ensures
        final(state).wf(),
        exists|id: CorrelationId|
            {
                &&& !old(state)@.seen.contains(id)
                &&& final(state)@ == old(state)@.with_seen(id)
                &&& event@ == #[trigger] chat_request(id, message_of(command))
            },
{
    let ghost text = message_of(command);
    match command {
        UiCommand::Chat { message } => {
            let ghost before = state@;
            assert(message@ == text);
            let event = new_request(message, None, None, state);
            proof {
                let id = choose|id: CorrelationId|
                    {
                        &&& !before.seen.contains(id)
                        &&& state@ == before.with_seen(id)
                        &&& event@ == #[trigger] plain_request(id, text, None, None)
                    };
                assert(event@ == chat_request(id, text));
            }
            event
        },
    }
}

/// Publishes the inference request for a command of the display, under a
/// fresh identifier: the first value from `candidate` on that no earlier
/// event carried. Returns the identifier and whether the bus accepted it.
pub fn forward_command(
    command: UiCommand,
    candidate: CorrelationId,
    state: &mut AppState,
    tx: &mut EventSender,
) -> (sent: (CorrelationId, bool))
    requires
        old(state).wf(),
        old(tx).wf(),
    ensures
        final(state).wf(),
        final(tx).wf(),
        sent.0 == first_unseen(old(state)@.seen, candidate),
        !old(state)@.seen.contains(sent.0),
        final(state)@ == old(state)@.with_seen(sent.0),
        command matches UiCommand::Chat { message } && final(tx)@ == old(tx)@.publish(
            chat_request(sent.0, message@),
        ),
        sent.1 == old(tx)@.accepts(),
{
    let id = state.issue_id(candidate);
    match command {
        UiCommand::Chat { message } => {
            let accepted = tx.publish(
                AxonEvent::AiRequest { id, prompt: message, model: None, context: None },
            );
            (id, accepted)
        },
    }
}

/// Publishes the inference request for a command of the display, as
/// [`forward_command`] does with a candidate identifier drawn at random.
pub fn handle_command(command: UiCommand, state: &mut AppState, tx: &mut EventSender) -> (sent: (
    CorrelationId,
    bool,
))
    requires
        old(state).wf(),
        old(tx).wf(),
    ensures
        final(state).wf(),
        final(tx).wf(),
        !old(state)@.seen.contains(sent.0),
        final(state)@ == old(state)@.with_seen(sent.0),
        command matches UiCommand::Chat { message } && final(tx)@ == old(tx)@.publish(
            chat_request(sent.0, message@),
        ),
        sent.1 == old(tx)@.accepts(),
{
    let candidate = random_id();
    forward_command(command, candidate, state, tx)
}

} // verus!
