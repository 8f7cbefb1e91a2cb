//! The background producers: what each of them does on one tick.
//!
//! A producer holds a handle to the bus and nothing else of its own. The
//! worker-status reporter reads the store; the uptime ticker is the one
//! producer that writes to it, and all it writes is a counter.

use vstd::prelude::*;
use crate::event::bus::EventSender;
use crate::event::event::{AxonEvent, EventView};
use crate::kernel::state::{AppState, WorkerView};
use crate::orchestrator::handler::publish_each;

verus! {

/// Seconds between two samples of the machine's load.
pub const METRICS_INTERVAL_SECS: u64 = 2;

/// Processor use is counted in thousandths; this is all of it.
pub const FULL_LOAD_PERMILLE: u32 = 1000;

/// Seconds between two reports of the worker table.
pub const REPORT_INTERVAL_SECS: u64 = 5;

/// Seconds between two ticks of the uptime counter.
pub const UPTIME_INTERVAL_SECS: u64 = 1;

/// The event for one sample of the machine's load. Processor use above
/// the whole is taken as the whole.
pub open spec fn metrics_sample(
    cpu_permille: u32,
    ram_mb: u64,
    vram_mb: u64,
    disk_mb: u64,
) -> EventView {
    EventView::SystemMetrics {
        cpu_permille: if cpu_permille > FULL_LOAD_PERMILLE {
            FULL_LOAD_PERMILLE
        } else {
            cpu_permille
        },
        ram_mb,
        vram_mb,
        disk_mb,
    }
}

/// One tick of the metrics sampler: the event for what was sampled, for
/// the caller to publish.
pub fn metrics_event(cpu_permille: u32, ram_mb: u64, vram_mb: u64, disk_mb: u64) -> (event:
    AxonEvent)
    ensures
        event@ == metrics_sample(cpu_permille, ram_mb, vram_mb, disk_mb),
{
    let cpu_permille = if cpu_permille > FULL_LOAD_PERMILLE {
        FULL_LOAD_PERMILLE
    } else {
        cpu_permille
    };
    AxonEvent::SystemMetrics { cpu_permille, ram_mb, vram_mb, disk_mb }
}

/// The worker table as events: one health report per record, in order.
pub open spec fn status_events(workers: Seq<WorkerView>) -> Seq<EventView> {
    Seq::new(
        workers.len(),
        |i: int| EventView::WorkerStatus { name: workers[i].name, health: workers[i].health },
    )
}

/// The current worker table as events, one health report per record, in
/// order; for the caller to publish. The store is only read.
pub fn worker_reports(state: &AppState) -> (events: Vec<AxonEvent>)
    ensures
        events.deep_view() == status_events(state@.workers),
{
    let rows = state.snapshot_workers();
    let mut events: Vec<AxonEvent> = Vec::new();
    let mut i: usize = 0;
    while i < rows.len()
        invariant
            i <= rows.len(),
            events.len() == i,
            rows.deep_view() == state@.workers,
            forall|j: int|
                0 <= j < i ==> events@[j]@ == (EventView::WorkerStatus {
                    name: rows@[j]@.name,
                    health: rows@[j]@.health,
                }),
        decreases rows.len() - i,
    {
        events.push(
            AxonEvent::WorkerStatus {
                name: rows[i].name.clone(),
                health: rows[i].health.duplicate(),
            },
        );
        i += 1;
    }
    proof {
        assert(rows.deep_view().len() == rows.len());
        assert forall|j: int| 0 <= j < rows.len() implies rows@[j]@ == state@.workers[j] by {
            assert(rows.deep_view()[j] == rows@[j]@);
        }
        assert(events.deep_view() =~= status_events(state@.workers));
    }
    events
}

/// One tick of the worker-status reporter: republishes the current worker
/// table as individual events. The store is only read.
pub fn report_workers(state: &AppState, tx: &mut EventSender) -> (reported: usize)
    requires
        old(tx).wf(),
    ensures
        final(tx).wf(),
        final(tx)@ == old(tx)@.publish_all(status_events(state@.workers)),
        reported == state@.workers.len(),
{
    let events = worker_reports(state);
    publish_each(tx, &events);
    assert(events.deep_view().len() == events.len());
    events.len()
}

/// One tick of the uptime ticker: one more second of uptime, unless the
/// counter is at its limit. Returns whether the second was counted.
pub fn tick_uptime(state: &mut AppState) -> (counted: bool)
    requires
        old(state).wf(),
    ensures
        final(state).wf(),
        counted == (old(state)@.counters.uptime_seconds < u64::MAX),
        final(state)@ == if counted {
            old(state)@.with_tick()
        } else {
            old(state)@
        },
{
    if state.session_counters().uptime_seconds < u64::MAX {
        state.increment_uptime();
        true
    } else {
        false
    }
}

} // verus!
