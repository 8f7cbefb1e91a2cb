//! The build worker: announces itself, runs the build, reports the result.

use vstd::prelude::*;
use crate::event::bus::EventSender;
use crate::event::event::{AxonEvent, HealthView, WorkerHealth};
use crate::kernel::state::{
    lemma_record_build, lemma_update_worker, AppState, BuildResult, BuildView, StoreView,
};
use crate::orchestrator::handler::{build_finished, finish_build};

verus! {

/// The name under which the build worker reports its health.
pub open spec fn worker_name() -> Seq<char> {
    "build_worker"@
}

/// Marks the build worker as running, before the build starts.
pub fn begin_build(state: &mut AppState)
    requires
        old(state).wf(),
    ensures
        final(state).wf(),
        final(state)@ == old(state)@.with_worker(worker_name(), HealthView::Running),
{
    state.update_worker("build_worker", WorkerHealth::Running);
}

/// Reports a finished build: records it, publishes the build-completed
/// event and marks the build worker as idle.
pub fn run_build(
    project: String,
    success: bool,
    logs: String,
    output: String,
    duration_ms: u64,
    now: u64,
    state: &mut AppState,
    tx: &mut EventSender,
) -> (accepted: bool)
    requires
        old(state).wf(),
        old(tx).wf(),
        old(state)@.counters.builds_run < u64::MAX,
    ensures
        final(state).wf(),
        final(tx).wf(),
        final(state)@ == old(state)@.with_build(
            project@,
            BuildResult { success, duration_ms, timestamp: now },
        ).with_worker(worker_name(), HealthView::Idle),
        final(tx)@ == old(tx)@.publish(
            build_finished(project@, success, logs@, output@, duration_ms),
        ),
        accepted == old(tx)@.accepts(),
{
    let accepted = finish_build(project, success, logs, output, duration_ms, now, state, tx);
    state.update_worker("build_worker", WorkerHealth::Idle);
    accepted
}

/// Takes in a finished build without publishing anything: records it and
/// marks the build worker as idle, and hands back the build-completed
/// event for the caller to publish. If the counter of builds is at its
/// limit, the build is not recorded and there is no event; the worker is
/// marked as idle all the same.
pub fn complete_build(
    project: String,
    success: bool,
    logs: String,
    output: String,
    duration_ms: u64,
    now: u64,
    state: &mut AppState,
) -> (event: Option<AxonEvent>)
    requires
        old(state).wf(),
    ensures
        final(state).wf(),
        event is Some == (old(state)@.counters.builds_run < u64::MAX),
        event matches Some(e) ==> {
            &&& e@ == build_finished(project@, success, logs@, output@, duration_ms)
            &&& final(state)@ == old(state)@.with_build(
                project@,
                BuildResult { success, duration_ms, timestamp: now },
            ).with_worker(worker_name(), HealthView::Idle)
        },
        event is None ==> final(state)@ == old(state)@.with_worker(
            worker_name(),
            HealthView::Idle,
        ),
{
    let recorded = state.try_record_build(
        project.as_str(),
        BuildResult { success, duration_ms, timestamp: now },
    );
    state.update_worker("build_worker", WorkerHealth::Idle);
    if recorded {
        Some(AxonEvent::BuildFinished { project, success, logs, output, duration_ms })
    } else {
        None
    }
}

/// A completed build is counted exactly once and shown at once. In the
/// store after the completion the number of builds run is one higher, the
/// other counters are as they were, the project's last-build slot holds
/// the new record in place of any older one, and the slot of every other
/// project is unchanged.
pub proof fn lemma_build_completion(s: StoreView, project: Seq<char>, result: BuildResult)
    requires
        s.wf(),
        s.counters.builds_run < u64::MAX,
    ensures
        ({
            let t = s.with_build(project, result).with_worker(worker_name(), HealthView::Idle);
            &&& t.wf()
            &&& t.counters.builds_run == s.counters.builds_run + 1
            &&& t.counters.uptime_seconds == s.counters.uptime_seconds
            &&& t.counters.fixes_applied == s.counters.fixes_applied
            &&& t.counters.started_at == s.counters.started_at
            &&& t.last_build(project) == Some(
                BuildView {
                    project,
                    success: result.success,
                    duration_ms: result.duration_ms,
                    timestamp: result.timestamp,
                },
            )
            &&& forall|other: Seq<char>|
                other != project ==> #[trigger] t.last_build(other) == s.last_build(other)
            &&& t.alerts == s.alerts
        }),
{
    let built = s.with_build(project, result);
    lemma_record_build(s, project, result);
    lemma_update_worker(built, worker_name(), HealthView::Idle);
    let t = built.with_worker(worker_name(), HealthView::Idle);
    assert(t.builds == built.builds);
    assert forall|other: Seq<char>| other != project implies #[trigger] t.last_build(other)
        == s.last_build(other) by {
        assert(t.last_build(other) == built.last_build(other));
    }
}

} // verus!
