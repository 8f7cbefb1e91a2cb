//! The repair engine: the commands that clear the way for a retry.

use vstd::prelude::*;

verus! {

/// Repairs the environment.
#[derive(Debug, Clone, Copy, PartialEq, Eq, Structural)]
pub struct EnterpriseEngine;

/// The shell commands of the repair, in the order to run them: first stop
/// stale processes, then reset the permissions of the installation folder.
pub open spec fn repair_commands() -> Seq<Seq<char>> {
    seq![
        "Stop-Process -Name axon -Force -ErrorAction SilentlyContinue"@,
        "icacls 'C:\\Axon' /grant 'Everyone:(OI)(CI)F' /T /C"@,
    ]
}

impl EnterpriseEngine {
    /// The shell commands to run after an action failed, whatever it was.
    pub fn heal_and_fix(_failed_action: &str) -> (commands: Vec<&'static str>)
        ensures
            commands@.len() == 2,
            commands@[0]@ == repair_commands()[0],
            commands@[1]@ == repair_commands()[1],
    {
        let mut commands: Vec<&'static str> = Vec::new();
        commands.push("Stop-Process -Name axon -Force -ErrorAction SilentlyContinue");
        commands.push("icacls 'C:\\Axon' /grant 'Everyone:(OI)(CI)F' /T /C");
        commands
    }
}

} // verus!
