//! The bridge to the diagnostic tool: what its outcome means.

use vstd::prelude::*;
use vstd::string::StringExecFns;

verus! {

/// Health of the installation.
#[derive(Debug, Clone, PartialEq, Eq)]
pub enum HealthStatus {
    Healthy,
    Degraded(String),
    Critical(String),
}

/// Mathematical view of [`HealthStatus`].
pub enum HealthStatusView {
    Healthy,
    Degraded(Seq<char>),
    Critical(Seq<char>),
}

impl View for HealthStatus {
    type V = HealthStatusView;

    open spec fn view(&self) -> HealthStatusView {
        match *self {
            HealthStatus::Healthy => HealthStatusView::Healthy,
            HealthStatus::Degraded(reason) => HealthStatusView::Degraded(reason@),
            HealthStatus::Critical(reason) => HealthStatusView::Critical(reason@),
        }
    }
}

/// How a run of the diagnostic tool ended.
#[derive(Debug, Clone, PartialEq, Eq)]
pub enum DiagnosticRun {
    /// The tool ran; `success` is its exit status.
    Finished { success: bool },
    /// The tool could not be started.
    NotStarted { error: String },
}

/// The arguments the diagnostic tool is started with.
pub fn diagnostic_args(auto_fix: bool) -> (args: Vec<&'static str>)
    ensures
        args@.len() == if auto_fix { 5int } else { 3int },
        args@[0]@ == "run"@,
        args@[1]@ == "--bin"@,
        args@[2]@ == "axon_doctor"@,
        auto_fix ==> args@[3]@ == "--"@ && args@[4]@ == "--fix"@,
{
    let mut args: Vec<&'static str> = Vec::new();
    args.push("run");
    args.push("--bin");
    args.push("axon_doctor");
    if auto_fix {
        args.push("--");
        args.push("--fix");
    }
    args
}

/// What a run of the diagnostic tool means.
pub open spec fn diagnosis(run: DiagnosticRun) -> HealthStatusView {
    match run {
        DiagnosticRun::Finished { success } => if success {
            HealthStatusView::Healthy
        } else {
            HealthStatusView::Critical("Doctorul a detectat erori structurale!"@)
        },
        DiagnosticRun::NotStarted { error } => HealthStatusView::Critical(
            "E\u{219}ec la invocarea Doctorului: "@ + error@,
        ),
    }
}

/// The bridge to the diagnostic tool: where the project lies and what the
/// tool reported last.
#[derive(Debug, Clone, PartialEq, Eq)]
pub struct DoctorBridge {
    pub project_root: String,
    pub last_report: Option<String>,
}

impl DoctorBridge {
    /// A bridge for the project in the current directory, with no report yet.
    pub fn new() -> (bridge: DoctorBridge)
        ensures
            bridge.project_root@ == "."@,
            bridge.last_report is None,
    {
        DoctorBridge { project_root: String::from_str("."), last_report: None }
    }

    /// Takes in a run of the diagnostic tool: keeps what the tool printed,
    /// if it ran, and judges the run.
    pub fn run_self_diagnostic(&mut self, run: DiagnosticRun, printed: Option<String>) -> (status:
        HealthStatus)
        ensures
            status@ == diagnosis(run),
            final(self).project_root == old(self).project_root,
            final(self).last_report == if run is Finished && printed is Some {
                printed
            } else {
                old(self).last_report
            },
    {
        match (&run, printed) {
            (DiagnosticRun::Finished { .. }, Some(text)) => {
                self.last_report = Some(text);
            },
            _ => {},
        }
        judge(run)
    }

    /// The check before start: the project file has to be there.
    pub fn pre_flight_check(project_file_exists: bool) -> (verdict: Result<(), String>)
        ensures
            verdict is Ok == project_file_exists,
            verdict matches Err(reason) ==> reason@ == missing_project_file(),
    {
        if project_file_exists {
            Ok(())
        } else {
            Err(
                String::from_str(
                    "Eroare Fatal\u{103}: Cargo.toml lipse\u{219}te din radacin\u{103}!",
                ),
            )
        }
    }
}

/// What the check before start says when the project file is missing.
pub open spec fn missing_project_file() -> Seq<char> {
    "Eroare Fatal\u{103}: Cargo.toml lipse\u{219}te din radacin\u{103}!"@
}

/// Judges a run of the diagnostic tool: healthy if it succeeded, critical
/// if it failed or could not be started.
pub fn judge(run: DiagnosticRun) -> (status: HealthStatus)
    ensures
        status@ == diagnosis(run),
{
    match run {
        DiagnosticRun::Finished { success } => {
            if success {
                HealthStatus::Healthy
            } else {
                HealthStatus::Critical(String::from_str("Doctorul a detectat erori structurale!"))
            }
        },
        DiagnosticRun::NotStarted { error } => {
            let mut reason = String::from_str("E\u{219}ec la invocarea Doctorului: ");
            reason.append(error.as_str());
            HealthStatus::Critical(reason)
        },
    }
}

} // verus!
