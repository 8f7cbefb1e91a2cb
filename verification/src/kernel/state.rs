//! The shared state store.
//!
//! The store owns the worker table, the alerts, the session counters, the
//! last build of each project and the identifiers seen so far. It exposes
//! operations, not fields. Every mutating operation takes the store by
//! exclusive reference and establishes its whole effect before it returns:
//! no reader can observe the store between two halves of one operation.

use vstd::prelude::*;
use vstd::string::StringExecFns;
use crate::config::schema::{AxonConfig, AxonConfigView};
use crate::event::bus::{EventBus, EventSender};
use crate::event::event::{
    AlertLevel, AlertRecord, AlertView, CorrelationId, HealthView, WorkerHealth,
};
use crate::kernel::correlation::{
    first_unseen, fresh_id, is_first_unseen, random_id, was_seen,
};

verus! {

/// One row of the worker table.
#[derive(Debug, Clone, PartialEq, Eq)]
pub struct WorkerRecord {
    pub name: String,
    pub health: WorkerHealth,
    pub current_task: String,
}

/// Mathematical view of [`WorkerRecord`].
pub struct WorkerView {
    pub name: Seq<char>,
    pub health: HealthView,
    pub current_task: Seq<char>,
}

impl View for WorkerRecord {
    type V = WorkerView;

    open spec fn view(&self) -> WorkerView {
        WorkerView { name: self.name@, health: self.health@, current_task: self.current_task@ }
    }
}

impl WorkerRecord {
    /// An independent copy with the same view.
    pub fn duplicate(&self) -> (out: WorkerRecord)
        ensures
            out@ == self@,
    {
        WorkerRecord {
            name: self.name.clone(),
            health: self.health.duplicate(),
            current_task: self.current_task.clone(),
        }
    }
}

/// How a build ended.
#[derive(Debug, Clone, Copy, PartialEq, Eq, Structural)]
pub struct BuildResult {
    pub success: bool,
    pub duration_ms: u64,
    pub timestamp: u64,
}

/// The last build of one project.
#[derive(Debug, Clone, PartialEq, Eq)]
pub struct BuildRecord {
    pub project: String,
    pub success: bool,
    pub duration_ms: u64,
    pub timestamp: u64,
}

/// Mathematical view of [`BuildRecord`].
pub struct BuildView {
    pub project: Seq<char>,
    pub success: bool,
    pub duration_ms: u64,
    pub timestamp: u64,
}

impl View for BuildRecord {
    type V = BuildView;

    open spec fn view(&self) -> BuildView {
        BuildView {
            project: self.project@,
            success: self.success,
            duration_ms: self.duration_ms,
            timestamp: self.timestamp,
        }
    }
}

impl BuildRecord {
    /// An independent copy with the same view.
    pub fn duplicate(&self) -> (out: BuildRecord)
        ensures
            out@ == self@,
    {
        BuildRecord {
            project: self.project.clone(),
            success: self.success,
            duration_ms: self.duration_ms,
            timestamp: self.timestamp,
        }
    }
}

/// Counters of one process lifetime. They only grow.
#[derive(Debug, Clone, Copy, PartialEq, Eq, Structural)]
pub struct SessionCounters {
    pub started_at: u64,
    pub uptime_seconds: u64,
    pub builds_run: u64,
    pub fixes_applied: u64,
}

/// When a proposed fix may be approved without a human.
#[derive(Debug, Clone, Copy, PartialEq, Eq, Structural)]
pub struct FixPolicy {
    /// In safe mode nothing is approved automatically.
    pub safe_mode: bool,
    /// A proposal is approved automatically only above this confidence.
    pub threshold: u8,
}

/// Highest confidence a proposal can claim.
pub const MAX_CONFIDENCE: u8 = 100;

/// Threshold used when none is configured.
pub const DEFAULT_THRESHOLD: u8 = 90;

impl FixPolicy {
    /// A policy is valid when its threshold is a percentage.
    pub open spec fn valid(self) -> bool {
        self.threshold <= MAX_CONFIDENCE
    }

    /// Whether a proposal with this confidence is approved automatically:
    /// never in safe mode, never for a confidence that is no percentage,
    /// and otherwise only above the threshold.
    pub open spec fn approves(self, confidence: u8) -> bool {
        !self.safe_mode && confidence <= MAX_CONFIDENCE && confidence > self.threshold
    }

    /// A policy from unvalidated settings; a threshold above 100 is refused.
    pub fn new(safe_mode: bool, threshold: u8) -> (policy: Option<FixPolicy>)
        ensures
            policy == if threshold <= MAX_CONFIDENCE {
                Some(FixPolicy { safe_mode, threshold })
            } else {
                None
            },
    {
        if threshold <= MAX_CONFIDENCE {
            Some(FixPolicy { safe_mode, threshold })
        } else {
            None
        }
    }

    /// Not in safe mode, threshold 90.
    pub fn standard() -> (policy: FixPolicy)
        ensures
            policy == (FixPolicy { safe_mode: false, threshold: DEFAULT_THRESHOLD }),
            policy.valid(),
    {
        FixPolicy { safe_mode: false, threshold: DEFAULT_THRESHOLD }
    }

    /// Decides on one proposal.
    pub fn auto_approves(&self, confidence: u8) -> (b: bool)
        ensures
            b == self.approves(confidence),
    {
        !self.safe_mode && confidence <= MAX_CONFIDENCE && confidence > self.threshold
    }
}

/// Why a store operation did nothing.
#[derive(Debug, Clone, Copy, PartialEq, Eq, Structural)]
pub enum StoreError {
    /// No alert has the identifier.
    NotFound,
}

/// An alert as a caller hands it in, with or without an identifier.
#[derive(Debug, Clone, PartialEq, Eq)]
pub struct NewAlert {
    pub id: Option<CorrelationId>,
    pub level: AlertLevel,
    pub title: String,
    pub message: String,
    pub source: String,
    pub timestamp: u64,
}

/// Mathematical view of [`NewAlert`].
pub struct NewAlertView {
    pub id: Option<CorrelationId>,
    pub level: AlertLevel,
    pub title: Seq<char>,
    pub message: Seq<char>,
    pub source: Seq<char>,
    pub timestamp: u64,
}

impl View for NewAlert {
    type V = NewAlertView;

    open spec fn view(&self) -> NewAlertView {
        NewAlertView {
            id: self.id,
            level: self.level,
            title: self.title@,
            message: self.message@,
            source: self.source@,
            timestamp: self.timestamp,
        }
    }
}

impl NewAlertView {
    /// The open alert that is stored under `id`.
    pub open spec fn stored_as(self, id: CorrelationId) -> AlertView {
        AlertView {
            id,
            level: self.level,
            title: self.title,
            message: self.message,
            source: self.source,
            timestamp: self.timestamp,
            fix_applied: false,
            resolved: false,
        }
    }
}

/// Mathematical model of the store.
pub struct StoreView {
    pub config: AxonConfigView,
    pub workers: Seq<WorkerView>,
    pub alerts: Seq<AlertView>,
    pub counters: SessionCounters,
    pub builds: Seq<BuildView>,
    pub seen: Seq<CorrelationId>,
    pub policy: FixPolicy,
    pub rag_indexed: u64,
}

/// The identifier an alert was stored under: its own, or else the assigned one.
pub open spec fn stored_id(
    own: Option<CorrelationId>,
    assigned: Option<CorrelationId>,
) -> CorrelationId {
    match own {
        Some(id) => id,
        None => assigned->0,
    }
}

/// The identifiers of `alerts`, in order.
pub open spec fn alert_ids(alerts: Seq<AlertView>) -> Seq<CorrelationId> {
    Seq::new(alerts.len(), |i: int| alerts[i].id)
}

impl StoreView {
    /// No worker name and no project occurs twice, the policy is valid, and
    /// the list of seen identifiers is one that a machine can hold.
    pub open spec fn wf(self) -> bool {
        &&& forall|i: int, j: int|
            0 <= i < j < self.workers.len() ==> self.workers[i].name != self.workers[j].name
        &&& forall|i: int, j: int|
            0 <= i < j < self.builds.len() ==> self.builds[i].project != self.builds[j].project
        &&& self.policy.valid()
        &&& self.seen.len() <= usize::MAX
    }

    /// A store with empty tables.
    pub open spec fn initial(
        config: AxonConfigView,
        started_at: u64,
        policy: FixPolicy,
    ) -> StoreView {
        StoreView {
            config,
            workers: Seq::empty(),
            alerts: Seq::empty(),
            counters: SessionCounters {
                started_at,
                uptime_seconds: 0,
                builds_run: 0,
                fixes_applied: 0,
            },
            builds: Seq::empty(),
            seen: Seq::empty(),
            policy,
            rag_indexed: 0,
        }
    }

    /// Whether a worker has this name.
    pub open spec fn has_worker(self, name: Seq<char>) -> bool {
        exists|i: int| 0 <= i < self.workers.len() && self.workers[i].name == name
    }

    /// The row of the worker with this name.
    pub open spec fn worker_index(self, name: Seq<char>) -> int {
        choose|i: int| 0 <= i < self.workers.len() && self.workers[i].name == name
    }

    /// The store after a health report: the worker's row is updated in
    /// place, or a row is added at the end if the name is new.
    pub open spec fn with_worker(self, name: Seq<char>, health: HealthView) -> StoreView {
        if self.has_worker(name) {
            let i = self.worker_index(name);
            StoreView {
                workers: self.workers.update(i, WorkerView { health, ..self.workers[i] }),
                ..self
            }
        } else {
            StoreView {
                workers: self.workers.push(
                    WorkerView { name, health, current_task: Seq::empty() },
                ),
                ..self
            }
        }
    }

    /// Whether an alert has this identifier.
    pub open spec fn has_alert(self, id: CorrelationId) -> bool {
        exists|i: int| 0 <= i < self.alerts.len() && self.alerts[i].id == id
    }

    /// The first alert with this identifier.
    #[verifier::opaque]
    pub open spec fn alert_index(self, id: CorrelationId) -> int {
        choose|i: int|
            0 <= i < self.alerts.len() && self.alerts[i].id == id && forall|j: int|
                0 <= j < i ==> self.alerts[j].id != id
    }

    /// The identifier under which a new alert is stored: its own if it has
    /// one, otherwise the first value from `candidate` on that no alert has.
    pub open spec fn alert_id_for(
        self,
        alert: NewAlertView,
        candidate: CorrelationId,
        id: CorrelationId,
    ) -> bool {
        match alert.id {
            Some(own) => id == own,
            None => is_first_unseen(alert_ids(self.alerts), candidate, id),
        }
    }

    /// The store after an alert was appended under `id`.
    pub open spec fn with_alert(self, alert: NewAlertView, id: CorrelationId) -> StoreView {
        StoreView { alerts: self.alerts.push(alert.stored_as(id)), ..self }
    }

    /// The store after the fix of the first alert with this identifier was
    /// marked as applied; unchanged if there is no such alert.
    pub open spec fn with_fix_applied(self, id: CorrelationId) -> StoreView {
        if self.has_alert(id) {
            let i = self.alert_index(id);
            StoreView {
                alerts: self.alerts.update(i, AlertView { fix_applied: true, ..self.alerts[i] }),
                ..self
            }
        } else {
            self
        }
    }

    /// The store after the first alert with this identifier was marked as
    /// resolved; unchanged if there is no such alert.
    pub open spec fn with_resolved(self, id: CorrelationId) -> StoreView {
        if self.has_alert(id) {
            let i = self.alert_index(id);
            StoreView {
                alerts: self.alerts.update(i, AlertView { resolved: true, ..self.alerts[i] }),
                ..self
            }
        } else {
            self
        }
    }

    /// Whether a build of this project is on record.
    pub open spec fn has_build(self, project: Seq<char>) -> bool {
        exists|i: int| 0 <= i < self.builds.len() && self.builds[i].project == project
    }

    /// The slot of this project.
    pub open spec fn build_index(self, project: Seq<char>) -> int {
        choose|i: int| 0 <= i < self.builds.len() && self.builds[i].project == project
    }

    /// The last build on record for this project.
    pub open spec fn last_build(self, project: Seq<char>) -> Option<BuildView> {
        if self.has_build(project) {
            Some(self.builds[self.build_index(project)])
        } else {
            None
        }
    }

    /// The store after a build finished: the project's slot holds the new
    /// record and the number of builds run is one higher.
    pub open spec fn with_build(self, project: Seq<char>, result: BuildResult) -> StoreView {
        let record = BuildView {
            project,
            success: result.success,
            duration_ms: result.duration_ms,
            timestamp: result.timestamp,
        };
        let counters = SessionCounters {
            builds_run: (self.counters.builds_run + 1) as u64,
            ..self.counters
        };
        if self.has_build(project) {
            StoreView {
                builds: self.builds.update(self.build_index(project), record),
                counters,
                ..self
            }
        } else {
            StoreView { builds: self.builds.push(record), counters, ..self }
        }
    }

    /// The store after one more second of uptime.
    pub open spec fn with_tick(self) -> StoreView {
        StoreView {
            counters: SessionCounters {
                uptime_seconds: (self.counters.uptime_seconds + 1) as u64,
                ..self.counters
            },
            ..self
        }
    }

    /// The store after one more applied fix was counted.
    pub open spec fn with_fix_counted(self) -> StoreView {
        StoreView {
            counters: SessionCounters {
                fixes_applied: (self.counters.fixes_applied + 1) as u64,
                ..self.counters
            },
            ..self
        }
    }

    /// The store after `id` was noted as seen.
    pub open spec fn with_seen(self, id: CorrelationId) -> StoreView {
        if self.seen.contains(id) {
            self
        } else {
            StoreView { seen: self.seen.push(id), ..self }
        }
    }

    /// In a well-formed store a name determines its row.
    pub proof fn lemma_worker_index(self, name: Seq<char>, i: int)
        requires
            self.wf(),
            0 <= i < self.workers.len(),
            self.workers[i].name == name,
        ensures
            self.has_worker(name),
            self.worker_index(name) == i,
    {
        let k = self.worker_index(name);
        if k < i {
            assert(self.workers[k].name != self.workers[i].name);
        } else if i < k {
            assert(self.workers[i].name != self.workers[k].name);
        }
    }

    /// In a well-formed store a project determines its slot.
    pub proof fn lemma_build_index(self, project: Seq<char>, i: int)
        requires
            self.wf(),
            0 <= i < self.builds.len(),
            self.builds[i].project == project,
        ensures
            self.has_build(project),
            self.build_index(project) == i,
    {
        let k = self.build_index(project);
        if k < i {
            assert(self.builds[k].project != self.builds[i].project);
        } else if i < k {
            assert(self.builds[i].project != self.builds[k].project);
        }
    }

    /// The first alert with an identifier is the one before which no alert
    /// has it.
    pub proof fn lemma_alert_index(self, id: CorrelationId, i: int)
        requires
            0 <= i < self.alerts.len(),
            self.alerts[i].id == id,
            forall|j: int| 0 <= j < i ==> self.alerts[j].id != id,
        ensures
            self.has_alert(id),
            self.alert_index(id) == i,
    {
        reveal(StoreView::alert_index);
        let k = self.alert_index(id);
        if k < i {
            assert(self.alerts[k].id != id);
        } else if i < k {
            assert(self.alerts[i].id == id);
        }
    }

    /// Among the alerts up to position `i`, if one has the identifier then
    /// there is a first one.
    proof fn lemma_first_alert_exists(self, id: CorrelationId, i: int)
        requires
            0 <= i < self.alerts.len(),
            self.alerts[i].id == id,
        ensures
            exists|k: int|
                0 <= k <= i && self.alerts[k].id == id && forall|j: int|
                    0 <= j < k ==> self.alerts[j].id != id,
        decreases i,
    {
        if exists|j: int| 0 <= j < i && self.alerts[j].id == id {
            let j = choose|j: int| 0 <= j < i && self.alerts[j].id == id;
            self.lemma_first_alert_exists(id, j);
        }
    }

    /// Where an alert has the identifier, [`StoreView::alert_index`] is the
    /// position of the first such alert.
    pub proof fn lemma_alert_index_is_first(self, id: CorrelationId)
        requires
            self.has_alert(id),
        ensures
            0 <= self.alert_index(id) < self.alerts.len(),
            self.alerts[self.alert_index(id)].id == id,
            forall|j: int| 0 <= j < self.alert_index(id) ==> self.alerts[j].id != id,
    {
        reveal(StoreView::alert_index);
        let i = choose|i: int| 0 <= i < self.alerts.len() && self.alerts[i].id == id;
        self.lemma_first_alert_exists(id, i);
    }
}

/// The shared state store.
pub struct AppState {
    config: AxonConfig,
    workers: Vec<WorkerRecord>,
    alerts: Vec<AlertRecord>,
    counters: SessionCounters,
    builds: Vec<BuildRecord>,
    seen: Vec<CorrelationId>,
    policy: FixPolicy,
    rag_indexed: u64,
}

impl View for AppState {
    type V = StoreView;

    closed spec fn view(&self) -> StoreView {
        StoreView {
            config: self.config@,
            workers: self.workers.deep_view(),
            alerts: self.alerts.deep_view(),
            counters: self.counters,
            builds: self.builds.deep_view(),
            seen: self.seen@,
            policy: self.policy,
            rag_indexed: self.rag_indexed,
        }
    }
}

impl DeepView for WorkerRecord {
    type V = WorkerView;

    open spec fn deep_view(&self) -> WorkerView {
        self@
    }
}

impl DeepView for AlertRecord {
    type V = AlertView;

    open spec fn deep_view(&self) -> AlertView {
        self@
    }
}

impl DeepView for BuildRecord {
    type V = BuildView;

    open spec fn deep_view(&self) -> BuildView {
        self@
    }
}

impl AppState {
    /// The invariant of the store: that of its model.
    pub open spec fn wf(&self) -> bool {
        self@.wf()
    }

    /// A store with empty tables, the standard fix policy and a session
    /// that starts at time zero.
    pub fn new(config: AxonConfig) -> (state: AppState)
        ensures
            state.wf(),
            state@ == StoreView::initial(config@, 0, FixPolicy::standard_view()),
    {
        AppState::with_session(config, 0, FixPolicy::standard())
    }

    /// A store with empty tables for a session that starts at `started_at`.
    pub fn with_session(config: AxonConfig, started_at: u64, policy: FixPolicy) -> (state: AppState)
        requires
            policy.valid(),
        ensures
            state.wf(),
            state@ == StoreView::initial(config@, started_at, policy),
    {
        let state = AppState {
            config,
            workers: Vec::new(),
            alerts: Vec::new(),
            counters: SessionCounters {
                started_at,
                uptime_seconds: 0,
                builds_run: 0,
                fixes_applied: 0,
            },
            builds: Vec::new(),
            seen: Vec::new(),
            policy,
            rag_indexed: 0,
        };
        assert(state.workers.deep_view() =~= Seq::empty());
        assert(state.alerts.deep_view() =~= Seq::empty());
        assert(state.builds.deep_view() =~= Seq::empty());
        state
    }
}

impl AppState {
    /// A copy of the configuration.
    pub fn get_config(&self) -> (config: AxonConfig)
        ensures
            config@ == self@.config,
    {
        self.config.duplicate()
    }

    /// The policy on automatic approval.
    pub fn policy(&self) -> (policy: FixPolicy)
        ensures
            policy == self@.policy,
    {
        self.policy
    }

    /// Replaces the policy on automatic approval.
    pub fn set_policy(&mut self, policy: FixPolicy)
        requires
            old(self).wf(),
            policy.valid(),
        ensures
            final(self).wf(),
            final(self)@ == (StoreView { policy, ..old(self)@ }),
    {
        self.policy = policy;
    }

    /// Number of indexed documents.
    pub fn rag_indexed(&self) -> (n: u64)
        ensures
            n == self@.rag_indexed,
    {
        self.rag_indexed
    }

    /// Records the number of indexed documents.
    pub fn set_rag_indexed(&mut self, n: u64)
        requires
            old(self).wf(),
        ensures
            final(self).wf(),
            final(self)@ == (StoreView { rag_indexed: n, ..old(self)@ }),
    {
        self.rag_indexed = n;
    }

    /// A bus for components that were handed only the store: it retains one
    /// hundred events and has nothing published.
    pub fn get_event_bus(&self) -> (bus: EventSender)
        ensures
            bus.wf(),
            bus@.capacity == 100,
            bus@.log.len() == 0,
            !bus@.closed,
    {
        EventBus::new(100)
    }

    /// Row of the worker called `name`, if there is one.
    fn find_worker(&self, name: &String) -> (found: Option<usize>)
        requires
            self.wf(),
        ensures
            found is Some == self@.has_worker(name@),
            found matches Some(i) ==> i == self@.worker_index(name@) && i < self.workers.len(),
    {
        let mut i: usize = 0;
        while i < self.workers.len()
            invariant
                self.wf(),
                i <= self.workers.len(),
                forall|j: int| 0 <= j < i ==> self@.workers[j].name != name@,
            decreases self.workers.len() - i,
        {
            if self.workers[i].name == *name {
                assert(self@.workers[i as int].name == name@);
                proof {
                    self@.lemma_worker_index(name@, i as int);
                }
                return Some(i);
            }
            i += 1;
        }
        None
    }

    /// Upserts the record of a worker: a known name is updated in place and
    /// keeps its task, a new name gets a row at the end with no task.
    pub fn update_worker(&mut self, name: &str, health: WorkerHealth)
        requires
            old(self).wf(),
        ensures
            final(self).wf(),
            final(self)@ == old(self)@.with_worker(name@, health@),
    {
        let key = String::from_str(name);
        match self.find_worker(&key) {
            Some(i) => {
                let task = self.workers[i].current_task.clone();
                let ghost before = self@;
                self.workers.set(i, WorkerRecord { name: key, health, current_task: task });
                assert(self@.workers =~= before.workers.update(
                    i as int,
                    WorkerView { health: health@, ..before.workers[i as int] },
                ));
            },
            None => {
                let ghost before = self@;
                self.workers.push(
                    WorkerRecord { name: key, health, current_task: String::new() },
                );
                assert(self@.workers =~= before.workers.push(
                    WorkerView { name: name@, health: health@, current_task: Seq::empty() },
                ));
            },
        }
    }

    /// A point-in-time copy of the worker table.
    pub fn snapshot_workers(&self) -> (rows: Vec<WorkerRecord>)
        ensures
            rows.deep_view() == self@.workers,
    {
        let mut rows: Vec<WorkerRecord> = Vec::new();
        let mut i: usize = 0;
        while i < self.workers.len()
            invariant
                i <= self.workers.len(),
                rows.len() == i,
                forall|j: int| 0 <= j < i ==> rows@[j]@ == self.workers@[j]@,
            decreases self.workers.len() - i,
        {
            rows.push(self.workers[i].duplicate());
            i += 1;
        }
        assert(rows.deep_view() =~= self@.workers);
        rows
    }

    /// A point-in-time copy of the alerts.
    pub fn snapshot_alerts(&self) -> (rows: Vec<AlertRecord>)
        ensures
            rows.deep_view() == self@.alerts,
    {
        let mut rows: Vec<AlertRecord> = Vec::new();
        let mut i: usize = 0;
        while i < self.alerts.len()
            invariant
                i <= self.alerts.len(),
                rows.len() == i,
                forall|j: int| 0 <= j < i ==> rows@[j]@ == self.alerts@[j]@,
            decreases self.alerts.len() - i,
        {
            rows.push(self.alerts[i].duplicate());
            i += 1;
        }
        assert(rows.deep_view() =~= self@.alerts);
        rows
    }

    /// The session counters.
    pub fn session_counters(&self) -> (counters: SessionCounters)
        ensures
            counters == self@.counters,
    {
        self.counters
    }

    /// Position of the first alert with this identifier, if there is one.
    fn find_alert(&self, id: CorrelationId) -> (found: Option<usize>)
        ensures
            found is Some == self@.has_alert(id),
            found matches Some(i) ==> i == self@.alert_index(id) && i < self.alerts.len(),
    {
        let mut i: usize = 0;
        while i < self.alerts.len()
            invariant
                i <= self.alerts.len(),
                forall|j: int| 0 <= j < i ==> self@.alerts[j].id != id,
            decreases self.alerts.len() - i,
        {
            if self.alerts[i].id == id {
                assert(self@.alerts[i as int].id == id);
                proof {
                    self@.lemma_alert_index(id, i as int);
                }
                return Some(i);
            }
            i += 1;
        }
        None
    }

    /// The identifiers of all alerts, in order.
    fn alert_id_list(&self) -> (ids: Vec<CorrelationId>)
        ensures
            ids@ == alert_ids(self@.alerts),
    {
        let mut ids: Vec<CorrelationId> = Vec::new();
        let mut i: usize = 0;
        while i < self.alerts.len()
            invariant
                i <= self.alerts.len(),
                ids@ == alert_ids(self@.alerts).subrange(0, i as int),
            decreases self.alerts.len() - i,
        {
            ids.push(self.alerts[i].id);
            i += 1;
            assert(ids@ =~= alert_ids(self@.alerts).subrange(0, i as int));
        }
        assert(alert_ids(self@.alerts).subrange(0, self.alerts.len() as int) =~= alert_ids(
            self@.alerts,
        ));
        ids
    }

    /// Appends an alert. An alert that comes without an identifier is given
    /// one that no recorded alert has, starting the search at `candidate`,
    /// and that identifier is returned; an alert that brings its own keeps
    /// it, and nothing is returned.
    pub fn record_alert(&mut self, alert: NewAlert, candidate: CorrelationId) -> (assigned: Option<
        CorrelationId,
    >)
        requires
            old(self).wf(),
        ensures
            final(self).wf(),
            assigned is Some == alert.id is None,
            old(self)@.alert_id_for(alert@, candidate, stored_id(alert.id, assigned)),
            final(self)@ == old(self)@.with_alert(alert@, stored_id(alert.id, assigned)),
    {
        let (id, assigned) = match alert.id {
            Some(own) => (own, None),
            None => {
                let ids = self.alert_id_list();
                let id = fresh_id(&ids, candidate);
                (id, Some(id))
            },
        };
        let ghost before = self@;
        let ghost shown = alert@;
        self.alerts.push(
            AlertRecord {
                id,
                level: alert.level,
                title: alert.title,
                message: alert.message,
                source: alert.source,
                timestamp: alert.timestamp,
                fix_applied: false,
                resolved: false,
            },
        );
        assert(self@.alerts =~= before.alerts.push(shown.stored_as(id)));
        assigned
    }

    /// Appends an alert as [`AppState::record_alert`] does, with a candidate
    /// identifier drawn at random.
    pub fn add_alert(&mut self, alert: NewAlert) -> (assigned: Option<CorrelationId>)
        requires
            old(self).wf(),
        ensures
            final(self).wf(),
            assigned is Some == alert.id is None,
            exists|candidate: CorrelationId| #[trigger]
                old(self)@.alert_id_for(alert@, candidate, stored_id(alert.id, assigned)),
            final(self)@ == old(self)@.with_alert(alert@, stored_id(alert.id, assigned)),
    {
        let candidate = random_id();
        self.record_alert(alert, candidate)
    }

    /// Marks the fix of an alert as applied and reports whether it already
    /// was. Fails, and changes nothing, if no alert has the identifier.
    pub fn mark_fix_applied(&mut self, alert_id: CorrelationId) -> (prior: Result<bool, StoreError>)
        requires
            old(self).wf(),
        ensures
            final(self).wf(),
            final(self)@ == old(self)@.with_fix_applied(alert_id),
            prior == if old(self)@.has_alert(alert_id) {
                Ok::<bool, StoreError>(
                    old(self)@.alerts[old(self)@.alert_index(alert_id)].fix_applied,
                )
            } else {
                Err::<bool, StoreError>(StoreError::NotFound)
            },
    {
        match self.find_alert(alert_id) {
            Some(i) => {
                let mut record = self.alerts[i].duplicate();
                let was = record.fix_applied;
                record.fix_applied = true;
                let ghost before = self@;
                self.alerts.set(i, record);
                assert(self@.alerts =~= before.alerts.update(
                    i as int,
                    AlertView { fix_applied: true, ..before.alerts[i as int] },
                ));
                Ok(was)
            },
            None => Err(StoreError::NotFound),
        }
    }

    /// Marks an alert as resolved and reports whether it already was.
    /// Fails, and changes nothing, if no alert has the identifier.
    pub fn resolve_alert(&mut self, alert_id: CorrelationId) -> (prior: Result<bool, StoreError>)
        requires
            old(self).wf(),
        ensures
            final(self).wf(),
            final(self)@ == old(self)@.with_resolved(alert_id),
            prior == if old(self)@.has_alert(alert_id) {
                Ok::<bool, StoreError>(old(self)@.alerts[old(self)@.alert_index(alert_id)].resolved)
            } else {
                Err::<bool, StoreError>(StoreError::NotFound)
            },
    {
        match self.find_alert(alert_id) {
            Some(i) => {
                let mut record = self.alerts[i].duplicate();
                let was = record.resolved;
                record.resolved = true;
                let ghost before = self@;
                self.alerts.set(i, record);
                assert(self@.alerts =~= before.alerts.update(
                    i as int,
                    AlertView { resolved: true, ..before.alerts[i as int] },
                ));
                Ok(was)
            },
            None => Err(StoreError::NotFound),
        }
    }

    /// Slot of the project, if a build of it is on record.
    fn find_build(&self, project: &String) -> (found: Option<usize>)
        requires
            self.wf(),
        ensures
            found is Some == self@.has_build(project@),
            found matches Some(i) ==> i == self@.build_index(project@) && i < self.builds.len(),
    {
        let mut i: usize = 0;
        while i < self.builds.len()
            invariant
                self.wf(),
                i <= self.builds.len(),
                forall|j: int| 0 <= j < i ==> self@.builds[j].project != project@,
            decreases self.builds.len() - i,
        {
            if self.builds[i].project == *project {
                assert(self@.builds[i as int].project == project@);
                proof {
                    self@.lemma_build_index(project@, i as int);
                }
                return Some(i);
            }
            i += 1;
        }
        None
    }

    /// Records a finished build: overwrites the project's last-build slot
    /// and counts the build, both in this one step.
    pub fn record_build(&mut self, project: &str, result: BuildResult)
        requires
            old(self).wf(),
            old(self)@.counters.builds_run < u64::MAX,
        ensures
            final(self).wf(),
            final(self)@ == old(self)@.with_build(project@, result),
    {
        let key = String::from_str(project);
        let found = self.find_build(&key);
        let record = BuildRecord {
            project: key,
            success: result.success,
            duration_ms: result.duration_ms,
            timestamp: result.timestamp,
        };
        let ghost before = self@;
        let ghost shown = record@;
        match found {
            Some(i) => {
                self.builds.set(i, record);
                assert(self@.builds =~= before.builds.update(i as int, shown));
            },
            None => {
                self.builds.push(record);
                assert(self@.builds =~= before.builds.push(shown));
            },
        }
        self.counters.builds_run = self.counters.builds_run + 1;
    }

    /// Records a finished build as [`AppState::record_build`] does, unless
    /// the counter of builds is at its limit; then nothing changes. Returns
    /// whether the build was recorded.
    pub fn try_record_build(&mut self, project: &str, result: BuildResult) -> (recorded: bool)
        requires
            old(self).wf(),
        ensures
            final(self).wf(),
            recorded == (old(self)@.counters.builds_run < u64::MAX),
            final(self)@ == if recorded {
                old(self)@.with_build(project@, result)
            } else {
                old(self)@
            },
    {
        if self.counters.builds_run < u64::MAX {
            self.record_build(project, result);
            true
        } else {
            false
        }
    }

    /// The last build on record for a project.
    pub fn last_build(&self, project: &str) -> (record: Option<BuildRecord>)
        requires
            self.wf(),
        ensures
            match record {
                Some(r) => self@.last_build(project@) == Some(r@),
                None => self@.last_build(project@) is None,
            },
    {
        let key = String::from_str(project);
        match self.find_build(&key) {
            Some(i) => Some(self.builds[i].duplicate()),
            None => None,
        }
    }

    /// Counts one more second of uptime.
    pub fn increment_uptime(&mut self)
        requires
            old(self).wf(),
            old(self)@.counters.uptime_seconds < u64::MAX,
        ensures
            final(self).wf(),
            final(self)@ == old(self)@.with_tick(),
    {
        self.counters.uptime_seconds = self.counters.uptime_seconds + 1;
    }

    /// Counts one more applied fix.
    pub fn count_fix(&mut self)
        requires
            old(self).wf(),
            old(self)@.counters.fixes_applied < u64::MAX,
        ensures
            final(self).wf(),
            final(self)@ == old(self)@.with_fix_counted(),
    {
        self.counters.fixes_applied = self.counters.fixes_applied + 1;
    }

    /// Notes that an event carried this identifier.
    pub fn note_id(&mut self, id: CorrelationId)
        requires
            old(self).wf(),
        ensures
            final(self).wf(),
            final(self)@ == old(self)@.with_seen(id),
    {
        if !was_seen(&self.seen, id) {
            self.seen.push(id);
            assert(self.seen@.len() == self.seen.len());
        }
    }

    /// Whether an earlier event carried this identifier.
    pub fn has_seen(&self, id: CorrelationId) -> (b: bool)
        ensures
            b == self@.seen.contains(id),
    {
        was_seen(&self.seen, id)
    }

    /// Issues the identifier for a new request: the first value from
    /// `candidate` on that no earlier event carried. The identifier is
    /// noted as seen, so it is never issued again.
    pub fn issue_id(&mut self, candidate: CorrelationId) -> (id: CorrelationId)
        requires
            old(self).wf(),
        ensures
            final(self).wf(),
            id == first_unseen(old(self)@.seen, candidate),
            !old(self)@.seen.contains(id),
            final(self)@ == old(self)@.with_seen(id),
    {
        let id = fresh_id(&self.seen, candidate);
        self.seen.push(id);
        assert(self.seen@.len() == self.seen.len());
        id
    }
}

impl FixPolicy {
    /// The standard policy as a mathematical value.
    pub open spec fn standard_view() -> FixPolicy {
        FixPolicy { safe_mode: false, threshold: DEFAULT_THRESHOLD }
    }
}

/// A health report keeps the store well-formed, and afterwards the table
/// holds the reported health under the reported name.
pub proof fn lemma_update_worker(s: StoreView, name: Seq<char>, health: HealthView)
    requires
        s.wf(),
    ensures
        s.with_worker(name, health).wf(),
        s.with_worker(name, health).has_worker(name),
        s.with_worker(name, health).workers[s.with_worker(name, health).worker_index(name)].health
            == health,
        s.has_worker(name) ==> s.with_worker(name, health).workers.len() == s.workers.len(),
        !s.has_worker(name) ==> s.with_worker(name, health).workers.len() == s.workers.len() + 1,
{
    let t = s.with_worker(name, health);
    if s.has_worker(name) {
        let i = s.worker_index(name);
        assert(t.workers[i].name == name);
        assert forall|a: int, b: int| 0 <= a < b < t.workers.len() implies t.workers[a].name
            != t.workers[b].name by {
            assert(t.workers[a].name == s.workers[a].name);
            assert(t.workers[b].name == s.workers[b].name);
        }
        t.lemma_worker_index(name, i);
    } else {
        let i = s.workers.len() as int;
        assert(t.workers[i].name == name);
        assert forall|a: int, b: int| 0 <= a < b < t.workers.len() implies t.workers[a].name
            != t.workers[b].name by {
            if b < i {
                assert(t.workers[a].name == s.workers[a].name);
                assert(t.workers[b].name == s.workers[b].name);
            } else {
                assert(t.workers[a] == s.workers[a]);
            }
        }
        t.lemma_worker_index(name, i);
    }
}

/// Upsert by key. Two health reports for one name leave exactly one record
/// with that name, and it holds the health reported last.
pub proof fn lemma_upsert_leaves_one_record(
    s: StoreView,
    name: Seq<char>,
    first: HealthView,
    second: HealthView,
)
    requires
        s.wf(),
    ensures
        ({
            let once = s.with_worker(name, first);
            let twice = once.with_worker(name, second);
            &&& twice.wf()
            &&& twice.workers.len() == once.workers.len()
            &&& twice.has_worker(name)
            &&& twice.workers[twice.worker_index(name)].health == second
            &&& forall|j: int|
                0 <= j < twice.workers.len() && twice.workers[j].name == name ==> j
                    == twice.worker_index(name)
        }),
{
    let once = s.with_worker(name, first);
    lemma_update_worker(s, name, first);
    let twice = once.with_worker(name, second);
    lemma_update_worker(once, name, second);
    assert forall|j: int| 0 <= j < twice.workers.len() && twice.workers[j].name == name implies j
        == twice.worker_index(name) by {
        twice.lemma_worker_index(name, j);
    }
}

/// Recording a build is one step: in the store it yields, the number of
/// builds run is exactly one higher and the project's last build is the new
/// record. Nothing else changes: the other counters, the other projects.
pub proof fn lemma_record_build(s: StoreView, project: Seq<char>, result: BuildResult)
    requires
        s.wf(),
        s.counters.builds_run < u64::MAX,
    ensures
        ({
            let t = s.with_build(project, result);
            &&& t.wf()
            &&& t.counters.builds_run == s.counters.builds_run + 1
            &&& t.counters.uptime_seconds == s.counters.uptime_seconds
            &&& t.counters.fixes_applied == s.counters.fixes_applied
            &&& t.counters.started_at == s.counters.started_at
            &&& t.last_build(project) == Some(
                BuildView {
                    project,
                    success: result.success,
                    duration_ms: result.duration_ms,
                    timestamp: result.timestamp,
                },
            )
            &&& forall|other: Seq<char>|
                other != project ==> #[trigger] t.last_build(other) == s.last_build(other)
            &&& t.workers == s.workers
            &&& t.alerts == s.alerts
        }),
{
    let t = s.with_build(project, result);
    let slot: int = if s.has_build(project) {
        s.build_index(project)
    } else {
        s.builds.len() as int
    };
    assert(t.builds[slot].project == project);
    assert forall|a: int, b: int| 0 <= a < b < t.builds.len() implies t.builds[a].project
        != t.builds[b].project by {
        if b < s.builds.len() {
            assert(t.builds[a].project == s.builds[a].project);
            assert(t.builds[b].project == s.builds[b].project);
        } else {
            assert(t.builds[a] == s.builds[a]);
        }
    }
    t.lemma_build_index(project, slot);
    assert forall|other: Seq<char>| other != project implies #[trigger] t.last_build(other)
        == s.last_build(other) by {
        if s.has_build(other) {
            let j = s.build_index(other);
            assert(t.builds[j] == s.builds[j]);
            t.lemma_build_index(other, j);
        } else if t.has_build(other) {
            let j = t.build_index(other);
            assert(j < s.builds.len());
            assert(s.builds[j].project == other);
        }
    }
}

/// Marking the fix of an unknown alert changes nothing.
pub proof fn lemma_mark_unknown(s: StoreView, id: CorrelationId)
    requires
        !s.has_alert(id),
    ensures
        s.with_fix_applied(id) == s,
{
}

/// Marking a fix as applied is idempotent. After the first call the alert is
/// still found, at the same place, with its flag set, so a second call
/// reports that the fix was already applied and changes nothing.
pub proof fn lemma_mark_twice(s: StoreView, id: CorrelationId)
    requires
        s.has_alert(id),
    ensures
        ({
            let t = s.with_fix_applied(id);
            &&& t.has_alert(id)
            &&& t.alert_index(id) == s.alert_index(id)
            &&& t.alerts[t.alert_index(id)].fix_applied
            &&& t.with_fix_applied(id) == t
            &&& t.alerts.len() == s.alerts.len()
            &&& forall|j: int|
                0 <= j < s.alerts.len() && j != s.alert_index(id) ==> t.alerts[j] == s.alerts[j]
        }),
{
    let t = s.with_fix_applied(id);
    let i = s.alert_index(id);
    s.lemma_alert_index_is_first(id);
    assert(t.alerts[i].id == id);
    assert forall|j: int| 0 <= j < i implies t.alerts[j].id != id by {
        assert(t.alerts[j] == s.alerts[j]);
    }
    t.lemma_alert_index(id, i);
    assert(t.alerts.update(i, AlertView { fix_applied: true, ..t.alerts[i] }) =~= t.alerts);
}

} // verus!
