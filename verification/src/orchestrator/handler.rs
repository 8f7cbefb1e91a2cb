//! The dispatcher: one rule per event kind.
//!
//! The dispatcher holds no state of its own. For each event it reads and
//! writes the store, names the events that follow from it and names the one
//! piece of outside work, if any, that the caller has to start. The rules
//! are a function from store and event to store and outcome; the executable
//! dispatcher is proved to compute exactly that function.

use vstd::prelude::*;
use vstd::string::StringExecFns;
use crate::event::bus::{BusView, EventSender};
use crate::event::event::{AlertLevel, AxonEvent, CorrelationId, EventView, LogLevel};
use crate::kernel::clock::{now, to_stamp};
use crate::kernel::correlation::{first_unseen, random_id};
use crate::kernel::state::{
    AppState, BuildResult, NewAlert, NewAlertView, SessionCounters, StoreView,
};
use crate::orchestrator::classifier::{chat_class, chat_command, command_word, CommandClass};
use crate::orchestrator::router::{model_or_default, resolve_model};

verus! {

/// Outside work that the caller starts after an event was dispatched.
#[derive(Debug, Clone, PartialEq, Eq)]
pub enum Action {
    /// Nothing to start.
    Idle,
    /// Ask the inference provider; its answer comes back as an event.
    Infer { id: CorrelationId, prompt: String, model: String },
    /// Run the build tool; its result comes back through [`finish_build`].
    Build { project: String, command: String },
    /// Search the index; the hits come back as an event.
    Search { query: String, request_id: CorrelationId },
    /// Apply the patch of an approved fix; the result comes back through [`finish_fix`].
    ApplyPatch { alert_id: CorrelationId },
    /// Send the session counters to a chat.
    ReportStatus { chat_id: i64, counters: SessionCounters },
    /// Log that an approved fix names an alert that is not on record.
    ReportMissingAlert { alert_id: CorrelationId },
    /// Persist the store; the consume loop ends.
    Persist,
}

/// Mathematical view of [`Action`].
pub enum ActionView {
    Idle,
    Infer { id: CorrelationId, prompt: Seq<char>, model: Seq<char> },
    Build { project: Seq<char>, command: Seq<char> },
    Search { query: Seq<char>, request_id: CorrelationId },
    ApplyPatch { alert_id: CorrelationId },
    ReportStatus { chat_id: i64, counters: SessionCounters },
    ReportMissingAlert { alert_id: CorrelationId },
    Persist,
}

impl View for Action {
    type V = ActionView;

    open spec fn view(&self) -> ActionView {
        match *self {
            Action::Idle => ActionView::Idle,
            Action::Infer { id, prompt, model } => ActionView::Infer {
                id,
                prompt: prompt@,
                model: model@,
            },
            Action::Build { project, command } => ActionView::Build {
                project: project@,
                command: command@,
            },
            Action::Search { query, request_id } => ActionView::Search {
                query: query@,
                request_id,
            },
            Action::ApplyPatch { alert_id } => ActionView::ApplyPatch { alert_id },
            Action::ReportStatus { chat_id, counters } => ActionView::ReportStatus {
                chat_id,
                counters,
            },
            Action::ReportMissingAlert { alert_id } => ActionView::ReportMissingAlert { alert_id },
            Action::Persist => ActionView::Persist,
        }
    }
}

/// What dispatching one event decided.
#[derive(Debug, Clone, PartialEq, Eq)]
pub struct Outcome {
    /// Events that follow from the dispatched one, in the order to publish them.
    pub publish: Vec<AxonEvent>,
    /// Outside work to start.
    pub action: Action,
    /// Whether the consume loop ends.
    pub stop: bool,
}

/// Mathematical view of [`Outcome`].
pub struct OutcomeView {
    pub publish: Seq<EventView>,
    pub action: ActionView,
    pub stop: bool,
}

impl DeepView for AxonEvent {
    type V = EventView;

    open spec fn deep_view(&self) -> EventView {
        self@
    }
}

impl View for Outcome {
    type V = OutcomeView;

    open spec fn view(&self) -> OutcomeView {
        OutcomeView { publish: self.publish.deep_view(), action: self.action@, stop: self.stop }
    }
}

/// The outcome that asks for nothing.
pub open spec fn quiet() -> OutcomeView {
    OutcomeView { publish: Seq::empty(), action: ActionView::Idle, stop: false }
}

/// The prompt that asks for the cause of a log line and for a fix.
pub open spec fn analysis_prompt(message: Seq<char>) -> Seq<char> {
    "Analyze this error and propose a fix:\n\n"@ + message
}

/// The inference request that an actionable log line gives rise to.
pub open spec fn analysis_request(id: CorrelationId, message: Seq<char>) -> EventView {
    EventView::AiRequest {
        id,
        prompt: analysis_prompt(message),
        model: None,
        context: Some("error_analysis"@),
    }
}

/// The alert that a proposed fix is recorded as.
pub open spec fn fix_alert(
    alert_id: CorrelationId,
    description: Seq<char>,
    now: u64,
) -> NewAlertView {
    NewAlertView {
        id: Some(alert_id),
        level: AlertLevel::Critical,
        title: "Fix Available"@,
        message: description,
        source: "fix_proposal"@,
        timestamp: now,
    }
}

/// The build that a chat command asks for.
pub open spec fn chat_build_request() -> EventView {
    EventView::BuildRequested { project: "axon_core"@, command: "cargo build --release"@ }
}

/// Whether the store can take whatever `event` asks of it: the one counter
/// that the event would raise is below its limit.
pub open spec fn can_handle(s: StoreView, event: EventView) -> bool {
    match event {
        EventView::FixApplied { success, .. } => success ==> s.counters.fixes_applied < u64::MAX,
        _ => true,
    }
}

/// The rules of the dispatcher: the store after `event`, and what follows.
/// `candidate` is where the search for a fresh identifier starts and `now`
/// is the time of dispatch.
pub open spec fn step(
    s: StoreView,
    event: EventView,
    candidate: CorrelationId,
    now: u64,
) -> (StoreView, OutcomeView) {
    match event {
        EventView::AiRequest { id, prompt, model, context } => (
            s.with_seen(id),
            OutcomeView {
                action: ActionView::Infer { id, prompt, model: model_or_default(model) },
                ..quiet()
            },
        ),
        EventView::LogDetected { level, message, .. } => {
            if level.actionable() {
                let id = first_unseen(s.seen, candidate);
                (
                    s.with_seen(id),
                    OutcomeView { publish: seq![analysis_request(id, message)], ..quiet() },
                )
            } else {
                (s, quiet())
            }
        },
        EventView::BuildRequested { project, command } => (
            s,
            OutcomeView { action: ActionView::Build { project, command }, ..quiet() },
        ),
        EventView::RagSearch { query, request_id } => (
            s.with_seen(request_id),
            OutcomeView { action: ActionView::Search { query, request_id }, ..quiet() },
        ),
        EventView::FixProposed { alert_id, description, confidence, .. } => (
            s.with_alert(fix_alert(alert_id, description, now), alert_id),
            OutcomeView {
                publish: if s.policy.approves(confidence) {
                    seq![EventView::FixApproved { alert_id }]
                } else {
                    Seq::empty()
                },
                ..quiet()
            },
        ),
        EventView::FixApproved { alert_id } => {
            if s.has_alert(alert_id) {
                (
                    s.with_fix_applied(alert_id),
                    OutcomeView { action: ActionView::ApplyPatch { alert_id }, ..quiet() },
                )
            } else {
                (
                    s,
                    OutcomeView { action: ActionView::ReportMissingAlert { alert_id }, ..quiet() },
                )
            }
        },
        EventView::FixApplied { success, .. } => {
            if success {
                (s.with_fix_counted(), quiet())
            } else {
                (s, quiet())
            }
        },
        EventView::WorkerStatus { name, health } => (s.with_worker(name, health), quiet()),
        EventView::TelegramCommand { text, chat_id, command, .. } => {
            match chat_class(command_word(text, command)) {
                CommandClass::Build => (
                    s,
                    OutcomeView { publish: seq![chat_build_request()], ..quiet() },
                ),
                CommandClass::Status => (
                    s,
                    OutcomeView {
                        action: ActionView::ReportStatus { chat_id, counters: s.counters },
                        ..quiet()
                    },
                ),
                _ => (s, quiet()),
            }
        },
        EventView::Shutdown => (
            s,
            OutcomeView { action: ActionView::Persist, stop: true, ..quiet() },
        ),
        _ => (s, quiet()),
    }
}

/// An outcome with nothing to publish.
fn only(action: Action, stop: bool) -> (out: Outcome)
    ensures
        out@ == (OutcomeView { publish: Seq::empty(), action: action@, stop }),
{
    let out = Outcome { publish: Vec::new(), action, stop };
    assert(out.publish.deep_view() =~= Seq::empty());
    out
}

/// An outcome that publishes one event and starts nothing.
fn announce(event: AxonEvent) -> (out: Outcome)
    ensures
        out@ == (OutcomeView { publish: seq![event@], ..quiet() }),
{
    let mut publish: Vec<AxonEvent> = Vec::new();
    publish.push(event);
    let out = Outcome { publish, action: Action::Idle, stop: false };
    assert(out.publish.deep_view() =~= seq![event@]);
    out
}

/// Applies the rules to one event. `candidate` is where the search for a
/// fresh identifier starts and `now` is the time of dispatch.
pub fn decide(state: &mut AppState, event: &AxonEvent, candidate: CorrelationId, now: u64) -> (out:
    Outcome)
    requires
        old(state).wf(),
        can_handle(old(state)@, event@),
    ensures
        final(state).wf(),
        (final(state)@, out@) == step(old(state)@, event@, candidate, now),
{
    match event {
        AxonEvent::AiRequest { id, prompt, model, context } => {
            state.note_id(*id);
            let name = resolve_model(crate::event::event::copy_opt_text(model));
            only(Action::Infer { id: *id, prompt: prompt.clone(), model: name }, false)
        },
        AxonEvent::LogDetected { level, message, .. } => {
            if level.is_actionable() {
                let id = state.issue_id(candidate);
                let mut prompt = String::from_str("Analyze this error and propose a fix:\n\n");
                prompt.append(message.as_str());
                announce(
                    AxonEvent::AiRequest {
                        id,
                        prompt,
                        model: None,
                        context: Some(String::from_str("error_analysis")),
                    },
                )
            } else {
                only(Action::Idle, false)
            }
        },
        AxonEvent::BuildRequested { project, command } => only(
            Action::Build { project: project.clone(), command: command.clone() },
            false,
        ),
        AxonEvent::RagSearch { query, request_id } => {
            state.note_id(*request_id);
            only(Action::Search { query: query.clone(), request_id: *request_id }, false)
        },
        AxonEvent::FixProposed { alert_id, description, confidence, .. } => {
            let approve = state.policy().auto_approves(*confidence);
            let alert = NewAlert {
                id: Some(*alert_id),
                level: AlertLevel::Critical,
                title: String::from_str("Fix Available"),
                message: description.clone(),
                source: String::from_str("fix_proposal"),
                timestamp: now,
            };
            let _ = state.record_alert(alert, candidate);
            if approve {
                announce(AxonEvent::FixApproved { alert_id: *alert_id })
            } else {
                only(Action::Idle, false)
            }
        },
        AxonEvent::FixApproved { alert_id } => {
            match state.mark_fix_applied(*alert_id) {
                Ok(_) => only(Action::ApplyPatch { alert_id: *alert_id }, false),
                Err(_) => only(Action::ReportMissingAlert { alert_id: *alert_id }, false),
            }
        },
        AxonEvent::FixApplied { success, .. } => {
            if *success {
                state.count_fix();
            }
            only(Action::Idle, false)
        },
        AxonEvent::WorkerStatus { name, health } => {
            state.update_worker(name.as_str(), health.duplicate());
            only(Action::Idle, false)
        },
        AxonEvent::TelegramCommand { text, chat_id, command, .. } => {
            match chat_command(text.as_str(), command) {
                CommandClass::Build => announce(
                    AxonEvent::BuildRequested {
                        project: String::from_str("axon_core"),
                        command: String::from_str("cargo build --release"),
                    },
                ),
                CommandClass::Status => only(
                    Action::ReportStatus { chat_id: *chat_id, counters: state.session_counters() },
                    false,
                ),
                _ => only(Action::Idle, false),
            }
        },
        AxonEvent::Shutdown => only(Action::Persist, true),
        _ => only(Action::Idle, false),
    }
}


/// Publishes `events` one after another.
pub fn publish_each(tx: &mut EventSender, events: &Vec<AxonEvent>)
    requires
        old(tx).wf(),
    ensures
        final(tx).wf(),
        final(tx)@ == old(tx)@.publish_all(events.deep_view()),
{
    let ghost start = tx@;
    let ghost all = events.deep_view();
    let mut i: usize = 0;
    while i < events.len()
        invariant
            tx.wf(),
            i <= events.len(),
            all == events.deep_view(),
            tx@ == start.publish_all(all.subrange(0, i as int)),
        decreases events.len() - i,
    {
        let _ = tx.publish(events[i].duplicate());
        proof {
            let next = all.subrange(0, i + 1);
            assert(next.drop_last() =~= all.subrange(0, i as int));
            assert(next.last() == events[i as int]@);
        }
        i += 1;
    }
    assert(all.subrange(0, events.len() as int) =~= all);
}

/// Whether the rules need a fresh identifier for this event: only an
/// actionable log line gives rise to a new request.
pub open spec fn needs_id(event: EventView) -> bool {
    event matches EventView::LogDetected { level, .. } && level.actionable()
}

/// Whether the rules need the time of dispatch for this event: only a
/// proposed fix is recorded with a time stamp.
pub open spec fn needs_time(event: EventView) -> bool {
    event is FixProposed
}

/// What `dispatch` yields for a store and an event: the rules applied
/// with some candidate identifier and some time, both zero where the rules
/// do not need them.
pub open spec fn dispatched(
    s: StoreView,
    event: EventView,
    after: StoreView,
    out: OutcomeView,
) -> bool {
    exists|candidate: CorrelationId, now: u64|
        {
            &&& (after, out) == #[trigger] step(s, event, candidate, now)
            &&& !needs_id(event) ==> candidate == 0
            &&& !needs_time(event) ==> now == 0
        }
}

/// Applies the rules to one event and publishes nothing. The candidate
/// identifier is drawn at random, and the clock is read, only for the
/// events whose rule needs them. The caller publishes `out.publish` and
/// starts the action named in the outcome.
pub fn dispatch(event: &AxonEvent, state: &mut AppState) -> (out: Outcome)
    requires
        old(state).wf(),
        can_handle(old(state)@, event@),
    ensures
        final(state).wf(),
        dispatched(old(state)@, event@, final(state)@, out@),
{
    let candidate: CorrelationId = match event {
        AxonEvent::LogDetected { level, .. } => {
            if level.is_actionable() {
                random_id()
            } else {
                0
            }
        },
        _ => 0,
    };
    let time: u64 = match event {
        AxonEvent::FixProposed { .. } => to_stamp(now().seconds),
        _ => 0,
    };
    let ghost before = state@;
    let out = decide(state, event, candidate, time);
    assert((state@, out@) == step(before, event@, candidate, time));
    out
}

/// Whether the store can take the event.
pub fn fits(event: &AxonEvent, state: &AppState) -> (b: bool)
    ensures
        b == can_handle(state@, event@),
{
    match event {
        AxonEvent::FixApplied { success, .. } => !*success
            || state.session_counters().fixes_applied < u64::MAX,
        _ => true,
    }
}

/// Applies the rules to one event if the store can take it, and says so;
/// an event that would raise a counter beyond its limit is left
/// undispatched.
pub fn try_dispatch(event: &AxonEvent, state: &mut AppState) -> (out: Option<Outcome>)
    requires
        old(state).wf(),
    ensures
        final(state).wf(),
        out is Some == can_handle(old(state)@, event@),
        out matches Some(o) ==> dispatched(old(state)@, event@, final(state)@, o@),
        out is None ==> final(state)@ == old(state)@,
{
    if fits(event, state) {
        Some(dispatch(event, state))
    } else {
        None
    }
}

/// Dispatches one event: applies the rules as [`dispatch`] does and
/// publishes what follows from the event. The caller starts the action
/// named in the outcome.
pub fn handle_event(event: AxonEvent, state: &mut AppState, tx: &mut EventSender) -> (out: Outcome)
    requires
        old(state).wf(),
        old(tx).wf(),
        can_handle(old(state)@, event@),
    ensures
        final(state).wf(),
        final(tx).wf(),
        dispatched(old(state)@, event@, final(state)@, out@),
        final(tx)@ == old(tx)@.publish_all(out@.publish),
{
    let out = dispatch(&event, state);
    publish_each(tx, &out.publish);
    out
}

/// Dispatches one event if the store can take it, and says so; an event
/// that would raise a counter beyond its limit is left undispatched.
pub fn try_handle_event(event: AxonEvent, state: &mut AppState, tx: &mut EventSender) -> (out:
    Option<Outcome>)
    requires
        old(state).wf(),
        old(tx).wf(),
    ensures
        final(state).wf(),
        final(tx).wf(),
        out is Some == can_handle(old(state)@, event@),
        out matches Some(o) ==> {
            &&& dispatched(old(state)@, event@, final(state)@, o@)
            &&& final(tx)@ == old(tx)@.publish_all(o@.publish)
        },
        out is None ==> final(state)@ == old(state)@ && final(tx)@ == old(tx)@,
{
    if fits(&event, state) {
        Some(handle_event(event, state, tx))
    } else {
        None
    }
}

/// The event that reports a finished build.
pub open spec fn build_finished(
    project: Seq<char>,
    success: bool,
    logs: Seq<char>,
    output: Seq<char>,
    duration_ms: u64,
) -> EventView {
    EventView::BuildFinished { project, success, logs, output, duration_ms }
}

/// Completes a build: records it in the store and publishes the
/// build-completed event. A failed build is reported like any other, with
/// `success` false.
pub fn finish_build(
    project: String,
    success: bool,
    logs: String,
    output: String,
    duration_ms: u64,
    now: u64,
    state: &mut AppState,
    tx: &mut EventSender,
) -> (accepted: bool)
    requires
        old(state).wf(),
        old(tx).wf(),
        old(state)@.counters.builds_run < u64::MAX,
    ensures
        final(state).wf(),
        final(tx).wf(),
        final(state)@ == old(state)@.with_build(
            project@,
            BuildResult { success, duration_ms, timestamp: now },
        ),
        final(tx)@ == old(tx)@.publish(
            build_finished(project@, success, logs@, output@, duration_ms),
        ),
        accepted == old(tx)@.accepts(),
{
    state.record_build(project.as_str(), BuildResult { success, duration_ms, timestamp: now });
    tx.publish(AxonEvent::BuildFinished { project, success, logs, output, duration_ms })
}

/// Completes a fix: publishes the fix-applied event with the result of
/// applying the patch.
pub fn finish_fix(alert_id: CorrelationId, success: bool, tx: &mut EventSender) -> (accepted: bool)
    requires
        old(tx).wf(),
    ensures
        final(tx).wf(),
        final(tx)@ == old(tx)@.publish(EventView::FixApplied { alert_id, success }),
        accepted == old(tx)@.accepts(),
{
    tx.publish(AxonEvent::FixApplied { alert_id, success })
}

/// Completes an inference call: the event that carries the provider's
/// answer, or the one that carries its error. A provider error is an event
/// like any other, never a fault.
pub fn finish_inference(
    request_id: CorrelationId,
    model: String,
    answer: Result<String, String>,
) -> (event: AxonEvent)
    ensures
        event@ == match answer {
            Ok(text) => EventView::AiResponse {
                request_id,
                output: text@,
                model: model@,
                context: None,
                response: text@,
            },
            Err(error) => EventView::AiError { request_id, error: error@ },
        },
        event@.reply_id() == Some(request_id),
{
    match answer {
        Ok(text) => {
            let output = text.clone();
            AxonEvent::AiResponse { request_id, output, model, context: None, response: text }
        },
        Err(error) => AxonEvent::AiError { request_id, error },
    }
}

/// Automatic approval. A proposed fix is always recorded as an open critical
/// alert. A fix-approved event follows exactly when the store is not in safe
/// mode and the confidence is a percentage above the threshold; otherwise
/// nothing is published and the alert stays open.
pub proof fn lemma_auto_approval(
    s: StoreView,
    alert_id: CorrelationId,
    description: Seq<char>,
    patch: Seq<char>,
    command: Seq<char>,
    confidence: u8,
    candidate: CorrelationId,
    now: u64,
)
    ensures
        ({
            let event = EventView::FixProposed {
                alert_id,
                description,
                patch,
                command,
                confidence,
            };
            let (t, out) = step(s, event, candidate, now);
            &&& t.alerts == s.alerts.push(fix_alert(alert_id, description, now).stored_as(alert_id))
            &&& t.alerts.last().level == AlertLevel::Critical
            &&& !t.alerts.last().fix_applied
            &&& out.action == ActionView::Idle
            &&& out.publish == if !s.policy.safe_mode && s.policy.threshold < confidence <= 100 {
                seq![EventView::FixApproved { alert_id }]
            } else {
                Seq::<EventView>::empty()
            }
        }),
{
}

/// Actionable log lines. A log line of an actionable level gives rise to
/// exactly one inference request, whose identifier no earlier event carried
/// and which from then on counts as seen; a line of any other level gives
/// rise to nothing and leaves the store as it was.
pub proof fn lemma_log_line_requests_analysis(
    s: StoreView,
    source: Seq<char>,
    level: LogLevel,
    message: Seq<char>,
    source_file: Option<Seq<char>>,
    raw_lines: Option<Seq<char>>,
    candidate: CorrelationId,
    now: u64,
)
    requires
        s.wf(),
    ensures
        ({
            let event = EventView::LogDetected { source, level, message, source_file, raw_lines };
            let (t, out) = step(s, event, candidate, now);
            if level == LogLevel::Error || level == LogLevel::Warn {
                &&& out.publish.len() == 1
                &&& out.publish[0] matches EventView::AiRequest { id, prompt, .. }
                &&& prompt == analysis_prompt(message)
                &&& !s.seen.contains(id)
                &&& t.seen.contains(id)
                &&& out.action == ActionView::Idle
                &&& !out.stop
            } else {
                t == s && out == quiet()
            }
        }),
{
    if level.actionable() {
        crate::kernel::correlation::lemma_first_unseen_exists(s.seen, candidate);
        let id = first_unseen(s.seen, candidate);
        assert(s.seen.push(id).last() == id);
    }
}

/// One dispatch cycle, end to end. Dispatching an actionable log line on a
/// store whose bus is open puts exactly one event on the bus: the inference
/// request for that line, under an identifier that no earlier event
/// carried.
pub proof fn lemma_log_line_dispatch_cycle(
    s: StoreView,
    b: BusView,
    source: Seq<char>,
    level: LogLevel,
    message: Seq<char>,
    source_file: Option<Seq<char>>,
    raw_lines: Option<Seq<char>>,
    candidate: CorrelationId,
    now: u64,
)
    requires
        s.wf(),
        b.accepts(),
        level.actionable(),
    ensures
        ({
            let event = EventView::LogDetected { source, level, message, source_file, raw_lines };
            let (t, out) = step(s, event, candidate, now);
            let id = first_unseen(s.seen, candidate);
            &&& !s.seen.contains(id)
            &&& b.publish_all(out.publish).log == b.log.push(analysis_request(id, message))
            &&& b.publish_all(out.publish).log.len() == b.log.len() + 1
        }),
{
    crate::kernel::correlation::lemma_first_unseen_exists(s.seen, candidate);
    let id = first_unseen(s.seen, candidate);
    let only = seq![analysis_request(id, message)];
    assert(only.drop_last() =~= Seq::<EventView>::empty());
    assert(b.publish_all(only.drop_last()) == b);
}

/// Nothing is forgotten. Every identifier seen before an event is still seen
/// after it, and so is the identifier of the event itself if it is a request
/// that expects a reply.
pub proof fn lemma_step_remembers(
    s: StoreView,
    event: EventView,
    candidate: CorrelationId,
    now: u64,
)
    ensures
        forall|id: CorrelationId|
            s.seen.contains(id) ==> #[trigger] step(s, event, candidate, now).0.seen.contains(id),
        event.request_id() matches Some(id) ==> step(s, event, candidate, now).0.seen.contains(id),
{
    let t = step(s, event, candidate, now).0;
    assert forall|id: CorrelationId| s.seen.contains(id) implies #[trigger] t.seen.contains(
        id,
    ) by {
        if t.seen != s.seen {
            let i = choose|i: int| 0 <= i < s.seen.len() && s.seen[i] == id;
            assert(t.seen[i] == id);
        }
    }
    match event.request_id() {
        Some(id) => {
            if !s.seen.contains(id) {
                assert(s.seen.push(id).last() == id);
            }
        },
        None => {},
    }
}

/// Nothing is deleted and no counter goes back. Whatever the event, the
/// store after it has every alert it had, under the same identifier and at
/// the same place; every worker it had, under the same name and at the
/// same place; and counters that are at least what they were, for a
/// session that started when it did.
pub proof fn lemma_step_only_adds(
    s: StoreView,
    event: EventView,
    candidate: CorrelationId,
    now: u64,
)
    requires
        can_handle(s, event),
    ensures
        ({
            let t = step(s, event, candidate, now).0;
            &&& t.alerts.len() >= s.alerts.len()
            &&& forall|i: int|
                0 <= i < s.alerts.len() ==> (#[trigger] t.alerts[i]).id == s.alerts[i].id
            &&& forall|i: int|
                0 <= i < s.alerts.len() && s.alerts[i].fix_applied ==> (
                #[trigger] t.alerts[i]).fix_applied
            &&& t.workers.len() >= s.workers.len()
            &&& forall|i: int|
                0 <= i < s.workers.len() ==> (#[trigger] t.workers[i]).name == s.workers[i].name
            &&& t.counters.started_at == s.counters.started_at
            &&& t.counters.uptime_seconds >= s.counters.uptime_seconds
            &&& t.counters.builds_run >= s.counters.builds_run
            &&& t.counters.fixes_applied >= s.counters.fixes_applied
            &&& t.builds == s.builds
            &&& t.policy == s.policy
        }),
{
    match event {
        EventView::FixApproved { alert_id } => {
            if s.has_alert(alert_id) {
                s.lemma_alert_index_is_first(alert_id);
            }
        },
        EventView::WorkerStatus { name, health } => {
            if s.has_worker(name) {
                let i = s.worker_index(name);
                assert(s.workers[i].name == name);
            }
        },
        _ => {},
    }
}

/// The store after a run of the dispatcher over `events`, the `i`-th event
/// dispatched with the `i`-th candidate and the `i`-th time.
pub open spec fn run_steps(
    s: StoreView,
    events: Seq<EventView>,
    candidates: Seq<CorrelationId>,
    times: Seq<u64>,
) -> StoreView
    decreases events.len(),
{
    if events.len() == 0 {
        s
    } else {
        let last = events.len() - 1;
        step(
            run_steps(s, events.drop_last(), candidates, times),
            events[last],
            candidates[last],
            times[last],
        ).0
    }
}

/// Identifiers are never reused. After a run of the dispatcher, every
/// identifier that was seen before the run, and the identifier of every
/// request dispatched in it, counts as seen; so an identifier issued after
/// the run, which is one that is not seen, differs from all of them.
pub proof fn lemma_run_remembers(
    s: StoreView,
    events: Seq<EventView>,
    candidates: Seq<CorrelationId>,
    times: Seq<u64>,
)
    ensures
        forall|id: CorrelationId|
            s.seen.contains(id) ==> #[trigger] run_steps(
                s,
                events,
                candidates,
                times,
            ).seen.contains(id),
        forall|j: int|
            0 <= j < events.len() ==> (#[trigger] events[j].request_id() matches Some(id)
                ==> run_steps(s, events, candidates, times).seen.contains(id)),
    decreases events.len(),
{
    if events.len() > 0 {
        let last = events.len() - 1;
        let before = run_steps(s, events.drop_last(), candidates, times);
        let after = run_steps(s, events, candidates, times);
        lemma_run_remembers(s, events.drop_last(), candidates, times);
        lemma_step_remembers(before, events[last], candidates[last], times[last]);
        assert forall|id: CorrelationId| s.seen.contains(id) implies #[trigger] after.seen.contains(
            id,
        ) by {
            assert(before.seen.contains(id));
        }
        assert forall|j: int| 0 <= j < events.len() implies (
        #[trigger] events[j].request_id() matches Some(id) ==> after.seen.contains(id)) by {
            if j < last {
                assert(events.drop_last()[j] == events[j]);
                match events[j].request_id() {
                    Some(id) => {
                        assert(before.seen.contains(id));
                    },
                    None => {},
                }
            }
        }
    }
}

} // verus!
