//! The event taxonomy.
//!
//! Every event is an immutable value. Requests that expect a reply carry a
//! correlation identifier chosen by the requester, and the reply echoes it.
//! Each type has a mathematical view in which text is a `Seq<char>`; all
//! contracts of the crate are stated over these views.

use vstd::prelude::*;
use crate::text::{chars_of, contains, has_infix, to_uppercase, uppercase_of};

verus! {

/// Opaque token linking a request to its eventual reply.
pub type CorrelationId = u128;

/// View of an optional piece of text.
pub open spec fn opt_text(o: Option<String>) -> Option<Seq<char>> {
    match o {
        Some(s) => Some(s@),
        None => None,
    }
}

/// Copies an optional piece of text.
pub fn copy_opt_text(o: &Option<String>) -> (out: Option<String>)
    ensures
        opt_text(out) == opt_text(*o),
{
    match o {
        Some(s) => Some(s.clone()),
        None => None,
    }
}

/// Health a worker last reported.
#[derive(Debug, Clone, PartialEq, Eq)]
pub enum WorkerHealth {
    Running,
    Idle,
    Stopped,
    Healthy,
    Degraded(String),
    Error(String),
}

/// Mathematical view of [`WorkerHealth`].
pub enum HealthView {
    Running,
    Idle,
    Stopped,
    Healthy,
    Degraded(Seq<char>),
    Error(Seq<char>),
}

impl View for WorkerHealth {
    type V = HealthView;

    open spec fn view(&self) -> HealthView {
        match *self {
            WorkerHealth::Running => HealthView::Running,
            WorkerHealth::Idle => HealthView::Idle,
            WorkerHealth::Stopped => HealthView::Stopped,
            WorkerHealth::Healthy => HealthView::Healthy,
            WorkerHealth::Degraded(reason) => HealthView::Degraded(reason@),
            WorkerHealth::Error(reason) => HealthView::Error(reason@),
        }
    }
}

impl WorkerHealth {
    /// An independent copy with the same view.
    pub fn duplicate(&self) -> (out: WorkerHealth)
        ensures
            out@ == self@,
    {
        match self {
            WorkerHealth::Running => WorkerHealth::Running,
            WorkerHealth::Idle => WorkerHealth::Idle,
            WorkerHealth::Stopped => WorkerHealth::Stopped,
            WorkerHealth::Healthy => WorkerHealth::Healthy,
            WorkerHealth::Degraded(reason) => WorkerHealth::Degraded(reason.clone()),
            WorkerHealth::Error(reason) => WorkerHealth::Error(reason.clone()),
        }
    }
}

/// Severity attached to a classified log line.
#[derive(Debug, Clone, Copy, PartialEq, Eq, Structural)]
pub enum LogLevel {
    Info,
    Warn,
    Error,
    Debug,
}

impl LogLevel {
    /// A level is actionable when it warrants the remediation workflow.
    pub open spec fn actionable(self) -> bool {
        self == LogLevel::Error || self == LogLevel::Warn
    }

    pub fn is_actionable(&self) -> (b: bool)
        ensures
            b == self.actionable(),
    {
        match self {
            LogLevel::Error => true,
            LogLevel::Warn => true,
            _ => false,
        }
    }

    /// The level that a log line announces, given its upper-case form: the
    /// first of `ERROR`, `WARN` and `DEBUG` that occurs in it; `Info` if
    /// none does.
    pub open spec fn of_upper(upper: Seq<char>) -> LogLevel {
        if has_infix(upper, "ERROR"@) {
            LogLevel::Error
        } else if has_infix(upper, "WARN"@) {
            LogLevel::Warn
        } else if has_infix(upper, "DEBUG"@) {
            LogLevel::Debug
        } else {
            LogLevel::Info
        }
    }

    /// The level that a raw log line announces: the first of `ERROR`, `WARN`
    /// and `DEBUG` that occurs in the line, in any letter case; `Info` if
    /// none does.
    pub open spec fn of_line(line: Seq<char>) -> LogLevel {
        LogLevel::of_upper(uppercase_of(line))
    }

    pub fn from_line(line: &str) -> (level: LogLevel)
        ensures
            level == LogLevel::of_line(line@),
    {
        let upper = to_uppercase(line);
        LogLevel::from_upper(upper.as_str())
    }

    /// The level that a log line in upper case announces.
    pub fn from_upper(upper: &str) -> (level: LogLevel)
        ensures
            level == LogLevel::of_upper(upper@),
    {
        let text = chars_of(upper);
        if contains(&text, &chars_of("ERROR")) {
            LogLevel::Error
        } else if contains(&text, &chars_of("WARN")) {
            LogLevel::Warn
        } else if contains(&text, &chars_of("DEBUG")) {
            LogLevel::Debug
        } else {
            LogLevel::Info
        }
    }
}

/// Severity of an alert.
#[derive(Debug, Clone, Copy, PartialEq, Eq, Structural)]
pub enum AlertLevel {
    Info,
    Warning,
    Critical,
}

/// An actionable condition recorded in the store.
#[derive(Debug, Clone, PartialEq, Eq)]
pub struct AlertRecord {
    pub id: CorrelationId,
    pub level: AlertLevel,
    pub title: String,
    pub message: String,
    pub source: String,
    pub timestamp: u64,
    pub fix_applied: bool,
    pub resolved: bool,
}

/// Mathematical view of [`AlertRecord`].
pub struct AlertView {
    pub id: CorrelationId,
    pub level: AlertLevel,
    pub title: Seq<char>,
    pub message: Seq<char>,
    pub source: Seq<char>,
    pub timestamp: u64,
    pub fix_applied: bool,
    pub resolved: bool,
}

impl View for AlertRecord {
    type V = AlertView;

    open spec fn view(&self) -> AlertView {
        AlertView {
            id: self.id,
            level: self.level,
            title: self.title@,
            message: self.message@,
            source: self.source@,
            timestamp: self.timestamp,
            fix_applied: self.fix_applied,
            resolved: self.resolved,
        }
    }
}

impl AlertRecord {
    /// An independent copy with the same view.
    pub fn duplicate(&self) -> (out: AlertRecord)
        ensures
            out@ == self@,
    {
        AlertRecord {
            id: self.id,
            level: self.level,
            title: self.title.clone(),
            message: self.message.clone(),
            source: self.source.clone(),
            timestamp: self.timestamp,
            fix_applied: self.fix_applied,
            resolved: self.resolved,
        }
    }
}

/// Everything that can happen in the system.
#[derive(Debug, Clone, PartialEq, Eq)]
#[allow(inconsistent_fields)]
pub enum AxonEvent {
    Startup,
    Shutdown,
    AiRequest { id: CorrelationId, prompt: String, model: Option<String>, context: Option<String> },
    AiResponse {
        request_id: CorrelationId,
        output: String,
        model: String,
        context: Option<String>,
        response: String,
    },
    AiError { request_id: CorrelationId, error: String },
    WorkerStatus { name: String, health: WorkerHealth },
    LogDetected {
        source: String,
        level: LogLevel,
        message: String,
        source_file: Option<String>,
        raw_lines: Option<String>,
    },
    FileChanged { path: String },
    RagSearch { query: String, request_id: CorrelationId },
    RagSearchResult { request_id: CorrelationId, query: String, results: Vec<String> },
    RagReindexComplete { project: String, count: u64, files_indexed: u64 },
    BuildRequested { project: String, command: String },
    BuildFinished {
        project: String,
        success: bool,
        logs: String,
        output: String,
        duration_ms: u64,
    },
    TelegramCommand { text: String, chat_id: i64, command: Option<String>, args: Vec<String> },
    TelegramSend { chat_id: i64, message: String },
    FixProposed {
        alert_id: CorrelationId,
        description: String,
        patch: String,
        command: String,
        confidence: u8,
    },
    FixApproved { alert_id: CorrelationId },
    FixApplied { alert_id: CorrelationId, success: bool },
    /// A sample of the machine's load: processor use in thousandths, and
    /// memory, video memory and disk in use in megabytes.
    SystemMetrics { cpu_permille: u32, ram_mb: u64, vram_mb: u64, disk_mb: u64 },
}

/// Mathematical view of [`AxonEvent`].
#[allow(inconsistent_fields)]
pub enum EventView {
    Startup,
    Shutdown,
    AiRequest {
        id: CorrelationId,
        prompt: Seq<char>,
        model: Option<Seq<char>>,
        context: Option<Seq<char>>,
    },
    AiResponse {
        request_id: CorrelationId,
        output: Seq<char>,
        model: Seq<char>,
        context: Option<Seq<char>>,
        response: Seq<char>,
    },
    AiError { request_id: CorrelationId, error: Seq<char> },
    WorkerStatus { name: Seq<char>, health: HealthView },
    LogDetected {
        source: Seq<char>,
        level: LogLevel,
        message: Seq<char>,
        source_file: Option<Seq<char>>,
        raw_lines: Option<Seq<char>>,
    },
    FileChanged { path: Seq<char> },
    RagSearch { query: Seq<char>, request_id: CorrelationId },
    RagSearchResult { request_id: CorrelationId, query: Seq<char>, results: Seq<Seq<char>> },
    RagReindexComplete { project: Seq<char>, count: u64, files_indexed: u64 },
    BuildRequested { project: Seq<char>, command: Seq<char> },
    BuildFinished {
        project: Seq<char>,
        success: bool,
        logs: Seq<char>,
        output: Seq<char>,
        duration_ms: u64,
    },
    TelegramCommand {
        text: Seq<char>,
        chat_id: i64,
        command: Option<Seq<char>>,
        args: Seq<Seq<char>>,
    },
    TelegramSend { chat_id: i64, message: Seq<char> },
    FixProposed {
        alert_id: CorrelationId,
        description: Seq<char>,
        patch: Seq<char>,
        command: Seq<char>,
        confidence: u8,
    },
    FixApproved { alert_id: CorrelationId },
    FixApplied { alert_id: CorrelationId, success: bool },
    SystemMetrics { cpu_permille: u32, ram_mb: u64, vram_mb: u64, disk_mb: u64 },
}

impl View for AxonEvent {
    type V = EventView;

    open spec fn view(&self) -> EventView {
        match *self {
            AxonEvent::Startup => EventView::Startup,
            AxonEvent::Shutdown => EventView::Shutdown,
            AxonEvent::AiRequest { id, prompt, model, context } => EventView::AiRequest {
                id,
                prompt: prompt@,
                model: opt_text(model),
                context: opt_text(context),
            },
            AxonEvent::AiResponse { request_id, output, model, context, response } => {
                EventView::AiResponse {
                    request_id,
                    output: output@,
                    model: model@,
                    context: opt_text(context),
                    response: response@,
                }
            },
            AxonEvent::AiError { request_id, error } => EventView::AiError {
                request_id,
                error: error@,
            },
            AxonEvent::WorkerStatus { name, health } => EventView::WorkerStatus {
                name: name@,
                health: health@,
            },
            AxonEvent::LogDetected { source, level, message, source_file, raw_lines } => {
                EventView::LogDetected {
                    source: source@,
                    level,
                    message: message@,
                    source_file: opt_text(source_file),
                    raw_lines: opt_text(raw_lines),
                }
            },
            AxonEvent::FileChanged { path } => EventView::FileChanged { path: path@ },
            AxonEvent::RagSearch { query, request_id } => EventView::RagSearch {
                query: query@,
                request_id,
            },
            AxonEvent::RagSearchResult { request_id, query, results } => {
                EventView::RagSearchResult {
                    request_id,
                    query: query@,
                    results: results.deep_view(),
                }
            },
            AxonEvent::RagReindexComplete { project, count, files_indexed } => {
                EventView::RagReindexComplete { project: project@, count, files_indexed }
            },
            AxonEvent::BuildRequested { project, command } => EventView::BuildRequested {
                project: project@,
                command: command@,
            },
            AxonEvent::BuildFinished { project, success, logs, output, duration_ms } => {
                EventView::BuildFinished {
                    project: project@,
                    success,
                    logs: logs@,
                    output: output@,
                    duration_ms,
                }
            },
            AxonEvent::TelegramCommand { text, chat_id, command, args } => {
                EventView::TelegramCommand {
                    text: text@,
                    chat_id,
                    command: opt_text(command),
                    args: args.deep_view(),
                }
            },
            AxonEvent::TelegramSend { chat_id, message } => EventView::TelegramSend {
                chat_id,
                message: message@,
            },
            AxonEvent::FixProposed { alert_id, description, patch, command, confidence } => {
                EventView::FixProposed {
                    alert_id,
                    description: description@,
                    patch: patch@,
                    command: command@,
                    confidence,
                }
            },
            AxonEvent::FixApproved { alert_id } => EventView::FixApproved { alert_id },
            AxonEvent::FixApplied { alert_id, success } => EventView::FixApplied {
                alert_id,
                success,
            },
            AxonEvent::SystemMetrics { cpu_permille, ram_mb, vram_mb, disk_mb } => {
                EventView::SystemMetrics { cpu_permille, ram_mb, vram_mb, disk_mb }
            },
        }
    }
}

impl EventView {
    /// The correlation identifier that a request carries, if it expects a reply.
    pub open spec fn request_id(self) -> Option<CorrelationId> {
        match self {
            EventView::AiRequest { id, .. } => Some(id),
            EventView::RagSearch { request_id, .. } => Some(request_id),
            _ => None,
        }
    }

    /// The correlation identifier that a reply echoes.
    pub open spec fn reply_id(self) -> Option<CorrelationId> {
        match self {
            EventView::AiResponse { request_id, .. } => Some(request_id),
            EventView::AiError { request_id, .. } => Some(request_id),
            EventView::RagSearchResult { request_id, .. } => Some(request_id),
            _ => None,
        }
    }
}

impl AxonEvent {
    /// An independent copy with the same view: what each subscriber receives.
    pub fn duplicate(&self) -> (out: AxonEvent)
        ensures
            out@ == self@,
    {
        match self {
            AxonEvent::Startup => AxonEvent::Startup,
            AxonEvent::Shutdown => AxonEvent::Shutdown,
            AxonEvent::AiRequest { id, prompt, model, context } => AxonEvent::AiRequest {
                id: *id,
                prompt: prompt.clone(),
                model: copy_opt_text(model),
                context: copy_opt_text(context),
            },
            AxonEvent::AiResponse { request_id, output, model, context, response } => {
                AxonEvent::AiResponse {
                    request_id: *request_id,
                    output: output.clone(),
                    model: model.clone(),
                    context: copy_opt_text(context),
                    response: response.clone(),
                }
            },
            AxonEvent::AiError { request_id, error } => AxonEvent::AiError {
                request_id: *request_id,
                error: error.clone(),
            },
            AxonEvent::WorkerStatus { name, health } => AxonEvent::WorkerStatus {
                name: name.clone(),
                health: health.duplicate(),
            },
            AxonEvent::LogDetected { source, level, message, source_file, raw_lines } => {
                AxonEvent::LogDetected {
                    source: source.clone(),
                    level: *level,
                    message: message.clone(),
                    source_file: copy_opt_text(source_file),
                    raw_lines: copy_opt_text(raw_lines),
                }
            },
            AxonEvent::FileChanged { path } => AxonEvent::FileChanged { path: path.clone() },
            AxonEvent::RagSearch { query, request_id } => AxonEvent::RagSearch {
                query: query.clone(),
                request_id: *request_id,
            },
            AxonEvent::RagSearchResult { request_id, query, results } => {
                AxonEvent::RagSearchResult {
                    request_id: *request_id,
                    query: query.clone(),
                    results: results.clone(),
                }
            },
            AxonEvent::RagReindexComplete { project, count, files_indexed } => {
                AxonEvent::RagReindexComplete {
                    project: project.clone(),
                    count: *count,
                    files_indexed: *files_indexed,
                }
            },
            AxonEvent::BuildRequested { project, command } => AxonEvent::BuildRequested {
                project: project.clone(),
                command: command.clone(),
            },
            AxonEvent::BuildFinished { project, success, logs, output, duration_ms } => {
                AxonEvent::BuildFinished {
                    project: project.clone(),
                    success: *success,
                    logs: logs.clone(),
                    output: output.clone(),
                    duration_ms: *duration_ms,
                }
            },
            AxonEvent::TelegramCommand { text, chat_id, command, args } => {
                AxonEvent::TelegramCommand {
                    text: text.clone(),
                    chat_id: *chat_id,
                    command: copy_opt_text(command),
                    args: args.clone(),
                }
            },
            AxonEvent::TelegramSend { chat_id, message } => AxonEvent::TelegramSend {
                chat_id: *chat_id,
                message: message.clone(),
            },
            AxonEvent::FixProposed { alert_id, description, patch, command, confidence } => {
                AxonEvent::FixProposed {
                    alert_id: *alert_id,
                    description: description.clone(),
                    patch: patch.clone(),
                    command: command.clone(),
                    confidence: *confidence,
                }
            },
            AxonEvent::FixApproved { alert_id } => AxonEvent::FixApproved { alert_id: *alert_id },
            AxonEvent::FixApplied { alert_id, success } => AxonEvent::FixApplied {
                alert_id: *alert_id,
                success: *success,
            },
            AxonEvent::SystemMetrics { cpu_permille, ram_mb, vram_mb, disk_mb } => {
                AxonEvent::SystemMetrics {
                    cpu_permille: *cpu_permille,
                    ram_mb: *ram_mb,
                    vram_mb: *vram_mb,
                    disk_mb: *disk_mb,
                }
            },
        }
    }
}

} // verus!
