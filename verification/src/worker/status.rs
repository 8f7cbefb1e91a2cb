//! The status of a worker: its health and what it is doing.

use vstd::prelude::*;
use vstd::string::StringExecFns;
use crate::event::event::{HealthView, WorkerHealth};

verus! {

/// Health and current task of a worker.
#[derive(Debug, Clone, PartialEq, Eq)]
pub struct WorkerStatus {
    pub health: WorkerHealth,
    pub task: String,
}

/// Mathematical view of [`WorkerStatus`].
pub struct WorkerStatusView {
    pub health: HealthView,
    pub task: Seq<char>,
}

impl View for WorkerStatus {
    type V = WorkerStatusView;

    open spec fn view(&self) -> WorkerStatusView {
        WorkerStatusView { health: self.health@, task: self.task@ }
    }
}

impl WorkerStatus {
    /// Running the given task.
    pub fn running(task: &str) -> (status: WorkerStatus)
        ensures
            status@ == (WorkerStatusView { health: HealthView::Running, task: task@ }),
    {
        WorkerStatus { health: WorkerHealth::Running, task: String::from_str(task) }
    }

    /// Waiting for work.
    pub fn idle() -> (status: WorkerStatus)
        ensures
            status@ == (WorkerStatusView { health: HealthView::Idle, task: "idle"@ }),
    {
        WorkerStatus { health: WorkerHealth::Idle, task: String::from_str("idle") }
    }

    /// Failed with the given message.
    pub fn error(msg: &str) -> (status: WorkerStatus)
        ensures
            status@ == (WorkerStatusView { health: HealthView::Error(msg@), task: "error"@ }),
    {
        WorkerStatus {
            health: WorkerHealth::Error(String::from_str(msg)),
            task: String::from_str("error"),
        }
    }
}

} // verus!
