//! The workers around the dispatcher and the commands they take.

use vstd::prelude::*;

pub mod ai_bridge;
pub mod build_worker;
pub mod file_watcher;
pub mod log_watcher;
pub mod universal_commander;
pub mod ws_bridge;

verus! {

/// A command for one of the workers.
#[derive(Debug, Clone, PartialEq, Eq)]
pub enum WorkerCommand {
    /// Build the project at this path.
    StartBuild(String),
    /// Ask the model: context, then prompt.
    AskAI(String, String),
    /// Send this message to the user.
    NotifyUser(String),
    /// Index the documents at this path.
    IndexDocs(String),
}

} // verus!
