use axon_core::config::schema::AxonConfig;
use axon_core::doctor::engine::EnterpriseEngine;
use axon_core::event::bus::{create_event_bus, RecvOutcome};
use axon_core::event::event::{AxonEvent, LogLevel, WorkerHealth};
use axon_core::kernel::doctor_bridge::{
    diagnostic_args, judge, DiagnosticRun, DoctorBridge, HealthStatus,
};
use axon_core::orchestrator::producers::{
    metrics_event, report_workers, tick_uptime, worker_reports,
};
use axon_core::kernel::state::AppState;
use axon_core::kernel::ws_bridge::{
    chat_update, command_request, forward_command, handle_command, initial_state, UiCommand,
    WsEvent,
};
use axon_core::rag::chunker::{chunk_text, try_chunk_text};
use axon_core::shell::whitelist::{
    build_command_line, is_allowed, lowercase_all, occurs_any, requires_approval,
};
use axon_core::telegram::approval::format_approval;
use axon_core::kernel::state::SessionCounters;
use axon_core::telegram::bot::{dispatch_telegram_message, RetryStep, SendFailure};
use axon_core::telegram::status::{decimal, status_message};
use axon_core::worker::status::WorkerStatus;
use axon_core::workers::ai_bridge::{
    accepts_fix, build_fix_prompt, build_validation_prompt, suggest_fix, validate_fix,
};
use axon_core::workers::build_worker::{begin_build, complete_build, run_build};
use axon_core::workers::file_watcher;
use axon_core::workers::log_watcher::commander_payload;
use axon_core::workers::universal_commander::{CommanderStep, UniversalCommander, UniversalTask};
use axon_core::workers::ws_bridge::{convert, show_health, show_health_with};

fn strings(items: &[&str]) -> Vec<String> {
    items.iter().map(|s| s.to_string()).collect()
}

#[test]
fn chunks_overlap() {
    assert_eq!(chunk_text("abcdefghij", 4, 1), strings(&["abcd", "defg", "ghij"]));
    assert_eq!(chunk_text("abcdefgh", 4, 0), strings(&["abcd", "efgh"]));
    assert_eq!(chunk_text("abcdefghi", 4, 0), strings(&["abcd", "efgh", "i"]));
    assert_eq!(chunk_text("abc", 10, 3), strings(&["abc"]));
    assert_eq!(chunk_text("abc", 3, 5), strings(&["abc"]));
    assert!(chunk_text("", 4, 1).is_empty());
    assert_eq!(chunk_text("abcde", 4, 3), strings(&["abcd", "bcde"]));
    assert_eq!(chunk_text("h\u{e9}llo", 3, 0), strings(&["h\u{e9}", "llo"]));
}

#[test]
fn chunking_that_cannot_be_done_is_refused() {
    assert_eq!(try_chunk_text("abcdef", 4, 4), None);
    assert_eq!(try_chunk_text("abcdef", 0, 0), None);
    assert_eq!(try_chunk_text("h\u{e9}llo", 2, 0), None);
    assert_eq!(try_chunk_text("h\u{e9}llo", 3, 1), None);
    assert_eq!(try_chunk_text("abcdef", 4, 2), Some(strings(&["abcd", "cdef"])));
    assert_eq!(try_chunk_text("", 0, 0), Some(vec![]));
}

#[test]
fn allow_list_is_exact() {
    let mut config = AxonConfig::default();
    assert!(!is_allowed("cargo", &config));
    config.shell.allowed_commands = strings(&["cargo", "git"]);
    assert!(is_allowed("cargo", &config));
    assert!(is_allowed("git", &config));
    assert!(!is_allowed("Cargo", &config));
    assert!(!is_allowed("car", &config));
    assert!(!is_allowed("", &config));
}

#[test]
fn approval_patterns_ignore_letter_case() {
    let mut config = AxonConfig::default();
    assert!(!requires_approval("rm", &strings(&["-rf", "/"]), &config));
    config.shell.require_approval_for = strings(&["RM -rf", "push --force"]);
    assert!(requires_approval("rm", &strings(&["-RF", "/"]), &config));
    assert!(requires_approval("git", &strings(&["push", "--force"]), &config));
    assert!(!requires_approval("git", &strings(&["push"]), &config));
    assert!(!requires_approval("rm", &strings(&["-r", "f"]), &config));
    assert_eq!(build_command_line("git", &strings(&["push", "--force"])), "git push --force");
    assert_eq!(build_command_line("ls", &[].to_vec()), "ls ");
    config.shell.require_approval_for = strings(&["ls "]);
    assert!(requires_approval("ls", &[].to_vec(), &config));
}

#[test]
fn approval_message() {
    assert_eq!(
        format_approval(1, Some("delete everything".to_string())),
        "\u{26a0}\u{fe0f} *Approval Required*\n\n*ID:* `00000000-0000-0000-0000-000000000001`\n\ndelete everything"
    );
    assert_eq!(
        format_approval(2, None),
        "\u{26a0}\u{fe0f} *Approval Required*\n\n*ID:* `00000000-0000-0000-0000-000000000002`\n\n"
    );
}

#[test]
fn delivery_backs_off_and_gives_up() {
    assert_eq!(
        dispatch_telegram_message(0, SendFailure::NetworkError),
        RetryStep::WaitMillis { millis: 500, again: true }
    );
    assert_eq!(
        dispatch_telegram_message(1, SendFailure::NetworkError),
        RetryStep::WaitMillis { millis: 1000, again: true }
    );
    assert_eq!(
        dispatch_telegram_message(2, SendFailure::NetworkError),
        RetryStep::WaitMillis { millis: 1500, again: false }
    );
    assert_eq!(
        dispatch_telegram_message(0, SendFailure::RateLimited(30)),
        RetryStep::WaitSeconds { seconds: 30, again: true }
    );
    assert_eq!(
        dispatch_telegram_message(2, SendFailure::RateLimited(u64::MAX)),
        RetryStep::WaitSeconds { seconds: u64::MAX, again: false }
    );
    assert_eq!(dispatch_telegram_message(0, SendFailure::Fatal), RetryStep::Abort);
}

#[test]
fn worker_status_shorthands() {
    let running = WorkerStatus::running("index");
    assert_eq!(running.health, WorkerHealth::Running);
    assert_eq!(running.task, "index");
    let idle = WorkerStatus::idle();
    assert_eq!(idle.health, WorkerHealth::Idle);
    assert_eq!(idle.task, "idle");
    let error = WorkerStatus::error("boom");
    assert_eq!(error.health, WorkerHealth::Error("boom".to_string()));
    assert_eq!(error.task, "error");
}

#[test]
fn commander_turns_actions_into_steps() {
    let task = UniversalTask {
        target_path: ".".to_string(),
        actions: strings(&["build", "Write_Code", "AUTO_FIX", "fmt", "dance", ""]),
        ai_instruction: Some("add tests".to_string()),
    };
    assert_eq!(
        UniversalCommander::dispatch(&task),
        vec![
            CommanderStep::Build,
            CommanderStep::WriteCode("add tests".to_string()),
            CommanderStep::AutoFix,
            CommanderStep::Format,
            CommanderStep::Unknown("dance".to_string()),
            CommanderStep::Unknown("".to_string()),
        ]
    );
    let silent = UniversalTask {
        target_path: ".".to_string(),
        actions: strings(&["WRITE_CODE"]),
        ai_instruction: None,
    };
    assert_eq!(UniversalCommander::dispatch(&silent), vec![CommanderStep::Nothing]);
    assert!(UniversalCommander::after_build(false));
    assert!(!UniversalCommander::after_build(true));
}

#[test]
fn log_lines_carry_commander_input() {
    assert_eq!(
        commander_payload("12:00 COMMANDER_INPUT: {\"a\":1} \n"),
        Some("{\"a\":1}".to_string())
    );
    assert_eq!(
        commander_payload("COMMANDER_INPUT:x COMMANDER_INPUT:  y"),
        Some("y".to_string())
    );
    assert_eq!(commander_payload("COMMANDER_INPUT:"), Some(String::new()));
    assert_eq!(commander_payload("commander_input: x"), None);
    assert_eq!(commander_payload(""), None);
}

#[test]
fn fix_prompts() {
    assert_eq!(build_fix_prompt("c", "i"), "Code:\nc\n\nInstruction: i");
    assert_eq!(
        build_validation_prompt("c", "f"),
        "Code: c\nFix: f\nIs this valid? Reply ONLY with VALID or INVALID"
    );
    assert_eq!(suggest_fix("c", "i"), "DeepSeek Response to: Code:\nc\n\nInstruction: i");
    assert!(accepts_fix("VALID"));
    assert!(accepts_fix("INVALID"));
    assert!(!accepts_fix("valid"));
    assert!(validate_fix("c", "f"));
}

#[test]
fn build_worker_reports_health_and_result() {
    let mut state = AppState::new(AxonConfig::default());
    let (mut bus, mut rx) = create_event_bus(4);
    begin_build(&mut state);
    assert_eq!(state.snapshot_workers()[0].name, "build_worker");
    assert_eq!(state.snapshot_workers()[0].health, WorkerHealth::Running);
    assert!(run_build(
        "axon".to_string(),
        true,
        "N/A".to_string(),
        "Build completed successfully".to_string(),
        2000,
        5,
        &mut state,
        &mut bus
    ));
    assert_eq!(state.snapshot_workers().len(), 1);
    assert_eq!(state.snapshot_workers()[0].health, WorkerHealth::Idle);
    assert_eq!(state.session_counters().builds_run, 1);
    assert_eq!(
        rx.try_recv(&bus),
        RecvOutcome::Event(AxonEvent::BuildFinished {
            project: "axon".to_string(),
            success: true,
            logs: "N/A".to_string(),
            output: "Build completed successfully".to_string(),
            duration_ms: 2000,
        })
    );
}

#[test]
fn file_watcher_reports_sources_only() {
    let rs = Some("rs".to_string());
    assert!(file_watcher::is_watched(&rs));
    assert!(file_watcher::is_watched(&Some("toml".to_string())));
    assert!(!file_watcher::is_watched(&Some("RS".to_string())));
    assert!(!file_watcher::is_watched(&Some("md".to_string())));
    assert!(!file_watcher::is_watched(&None));
    assert_eq!(
        file_watcher::run(&rs, "src/a.rs".to_string(), "fn a() {}".to_string()),
        Some(AxonEvent::LogDetected {
            source: "file_watcher".to_string(),
            level: LogLevel::Error,
            message: "ANALIZA: fn a() {}".to_string(),
            source_file: Some("src/a.rs".to_string()),
            raw_lines: Some("fn a() {}".to_string()),
        })
    );
    assert_eq!(file_watcher::run(&rs, "src/a.rs".to_string(), String::new()), None);
    assert_eq!(file_watcher::run(&None, "Makefile".to_string(), "all:".to_string()), None);
}

#[test]
fn display_shows_answers_builds_and_health() {
    let answer = AxonEvent::AiResponse {
        request_id: 1,
        output: "o".to_string(),
        model: "m".to_string(),
        context: None,
        response: "r".to_string(),
    };
    let chat = WsEvent::ChatResponse { text: "o".to_string(), model: "m".to_string() };
    assert_eq!(convert(&answer), Some(chat.clone()));
    assert_eq!(chat_update(&answer), Some(chat));
    let built = AxonEvent::BuildFinished {
        project: "p".to_string(),
        success: true,
        logs: String::new(),
        output: String::new(),
        duration_ms: 12,
    };
    assert_eq!(convert(&built), Some(WsEvent::BuildFinished { success: true, duration_ms: 12 }));
    assert_eq!(chat_update(&built), None);
    let health = AxonEvent::WorkerStatus {
        name: "w".to_string(),
        health: WorkerHealth::Error("a \"b\"\n".to_string()),
    };
    assert_eq!(
        convert(&health),
        Some(WsEvent::WorkerStatusUpdate {
            name: "w".to_string(),
            health: "Error(\"a \\\"b\\\"\\n\")".to_string(),
        })
    );
    assert_eq!(show_health(&WorkerHealth::Running), "Running");
    assert_eq!(show_health(&WorkerHealth::Idle), "Idle");
    assert_eq!(show_health(&WorkerHealth::Stopped), "Stopped");
    assert_eq!(show_health(&WorkerHealth::Healthy), "Healthy");
    assert_eq!(show_health(&WorkerHealth::Degraded("x".to_string())), "Degraded(\"x\")");
    assert_eq!(convert(&AxonEvent::Startup), None);
}

#[test]
fn display_commands_become_inference_requests() {
    let mut state = AppState::new(AxonConfig::default());
    state.set_rag_indexed(12);
    assert_eq!(initial_state(&state), WsEvent::InitialState { rag_indexed: 12 });
    state.note_id(4);
    let (mut bus, mut rx) = create_event_bus(4);
    let (id, accepted) = forward_command(
        UiCommand::Chat { message: "hello".to_string() },
        4,
        &mut state,
        &mut bus,
    );
    assert_eq!((id, accepted), (5, true));
    assert_eq!(
        rx.try_recv(&bus),
        RecvOutcome::Event(AxonEvent::AiRequest {
            id: 5,
            prompt: "hello".to_string(),
            model: None,
            context: None,
        })
    );
    let (drawn, _) = handle_command(UiCommand::Chat { message: "x".to_string() }, &mut state, &mut bus);
    assert!(drawn != 4 && drawn != 5);
}

#[test]
fn diagnostics() {
    assert_eq!(diagnostic_args(false), vec!["run", "--bin", "axon_doctor"]);
    assert_eq!(diagnostic_args(true), vec!["run", "--bin", "axon_doctor", "--", "--fix"]);
    assert_eq!(judge(DiagnosticRun::Finished { success: true }), HealthStatus::Healthy);
    assert_eq!(
        judge(DiagnosticRun::Finished { success: false }),
        HealthStatus::Critical("Doctorul a detectat erori structurale!".to_string())
    );
    assert_eq!(
        judge(DiagnosticRun::NotStarted { error: "no cargo".to_string() }),
        HealthStatus::Critical("E\u{219}ec la invocarea Doctorului: no cargo".to_string())
    );
    let mut bridge = DoctorBridge::new();
    assert_eq!(bridge.project_root, ".");
    assert_eq!(
        bridge.run_self_diagnostic(
            DiagnosticRun::Finished { success: true },
            Some("all good".to_string())
        ),
        HealthStatus::Healthy
    );
    assert_eq!(bridge.last_report, Some("all good".to_string()));
    bridge.run_self_diagnostic(DiagnosticRun::NotStarted { error: "e".to_string() }, None);
    assert_eq!(bridge.last_report, Some("all good".to_string()));
    assert_eq!(DoctorBridge::pre_flight_check(true), Ok(()));
    assert_eq!(
        DoctorBridge::pre_flight_check(false),
        Err("Eroare Fatal\u{103}: Cargo.toml lipse\u{219}te din radacin\u{103}!".to_string())
    );
    assert_eq!(
        EnterpriseEngine::heal_and_fix("build"),
        vec![
            "Stop-Process -Name axon -Force -ErrorAction SilentlyContinue",
            "icacls 'C:\\Axon' /grant 'Everyone:(OI)(CI)F' /T /C",
        ]
    );
}

#[test]
fn reporter_republishes_the_worker_table() {
    let mut state = AppState::new(AxonConfig::default());
    state.update_worker("a", WorkerHealth::Running);
    state.update_worker("b", WorkerHealth::Error("boom".to_string()));
    let (mut bus, mut rx) = create_event_bus(8);
    assert_eq!(report_workers(&state, &mut bus), 2);
    assert_eq!(
        rx.try_recv(&bus),
        RecvOutcome::Event(AxonEvent::WorkerStatus {
            name: "a".to_string(),
            health: WorkerHealth::Running,
        })
    );
    assert_eq!(
        rx.try_recv(&bus),
        RecvOutcome::Event(AxonEvent::WorkerStatus {
            name: "b".to_string(),
            health: WorkerHealth::Error("boom".to_string()),
        })
    );
    assert_eq!(rx.try_recv(&bus), RecvOutcome::Empty);
    assert_eq!(state.snapshot_workers().len(), 2);
}

#[test]
fn ticker_counts_seconds() {
    let mut state = AppState::new(AxonConfig::default());
    assert!(tick_uptime(&mut state));
    assert!(tick_uptime(&mut state));
    assert_eq!(state.session_counters().uptime_seconds, 2);
    assert_eq!(state.session_counters().builds_run, 0);
}

#[test]
fn approval_goes_by_lower_case_forms() {
    assert_eq!(lowercase_all(&strings(&["RM -rf", "Push"])), strings(&["rm -rf", "push"]));
    assert!(occurs_any(&strings(&["rm -rf"]), "sudo rm -rf /"));
    assert!(!occurs_any(&strings(&["RM -rf"]), "sudo rm -rf /"));
    assert!(!occurs_any(&[].to_vec(), "anything"));
    assert!(occurs_any(&strings(&[""]), ""));
}

#[test]
fn commander_steps_go_by_the_upper_case_form() {
    let action = "build".to_string();
    assert_eq!(
        UniversalCommander::step_for(&"BUILD".to_string(), &action, &None),
        CommanderStep::Build
    );
    assert_eq!(
        UniversalCommander::step_for(&"build".to_string(), &action, &None),
        CommanderStep::Unknown("build".to_string())
    );
    assert_eq!(UniversalCommander::step(&action, &None), CommanderStep::Build);
}

#[test]
fn health_labels_take_the_quoted_reason() {
    let health = WorkerHealth::Error("x".to_string());
    assert_eq!(show_health_with(&health, "\"x\""), "Error(\"x\")");
    assert_eq!(show_health_with(&WorkerHealth::Idle, "ignored"), "Idle");
    assert_eq!(show_health(&health), "Error(\"x\")");
}

#[test]
fn numbers_are_written_in_decimal() {
    for n in [0u64, 1, 9, 10, 11, 99, 100, 101, 1234567890, u64::MAX - 1, u64::MAX] {
        assert_eq!(decimal(n), n.to_string());
    }
}

#[test]
fn status_report() {
    let counters =
        SessionCounters { started_at: 5, uptime_seconds: 3600, builds_run: 12, fixes_applied: 0 };
    assert_eq!(status_message(&counters), "AXON Online\nUptime: 3600s\nBuilds: 12\nFixes: 0");
}

#[test]
fn finished_build_is_taken_in_without_publishing() {
    let mut state = AppState::new(AxonConfig::default());
    begin_build(&mut state);
    let event = complete_build(
        "axon".to_string(),
        true,
        "N/A".to_string(),
        "ok".to_string(),
        500,
        9,
        &mut state,
    );
    assert_eq!(
        event,
        Some(AxonEvent::BuildFinished {
            project: "axon".to_string(),
            success: true,
            logs: "N/A".to_string(),
            output: "ok".to_string(),
            duration_ms: 500,
        })
    );
    assert_eq!(state.session_counters().builds_run, 1);
    assert_eq!(state.session_counters().uptime_seconds, 0);
    assert_eq!(state.session_counters().fixes_applied, 0);
    assert_eq!(state.last_build("axon").unwrap().duration_ms, 500);
    assert_eq!(state.snapshot_workers()[0].health, WorkerHealth::Idle);
    assert!(state.try_record_build(
        "axon",
        axon_core::kernel::state::BuildResult { success: false, duration_ms: 1, timestamp: 10 }
    ));
    assert_eq!(state.session_counters().builds_run, 2);
    assert!(!state.last_build("axon").unwrap().success);
}

#[test]
fn worker_table_as_events() {
    let mut state = AppState::new(AxonConfig::default());
    assert!(worker_reports(&state).is_empty());
    state.update_worker("a", WorkerHealth::Stopped);
    assert_eq!(
        worker_reports(&state),
        vec![AxonEvent::WorkerStatus { name: "a".to_string(), health: WorkerHealth::Stopped }]
    );
}

#[test]
fn display_command_becomes_a_request_to_publish() {
    let mut state = AppState::new(AxonConfig::default());
    match command_request(UiCommand::Chat { message: "hi".to_string() }, &mut state) {
        AxonEvent::AiRequest { id, prompt, model, context } => {
            assert!(state.has_seen(id));
            assert_eq!(prompt, "hi");
            assert_eq!(model, None);
            assert_eq!(context, None);
        }
        other => panic!("unexpected {:?}", other),
    }
}

#[test]
fn metrics_samples_are_bounded() {
    assert_eq!(
        metrics_event(250, 2048, 0, 900),
        AxonEvent::SystemMetrics { cpu_permille: 250, ram_mb: 2048, vram_mb: 0, disk_mb: 900 }
    );
    assert_eq!(
        metrics_event(1000, 1, 2, 3),
        AxonEvent::SystemMetrics { cpu_permille: 1000, ram_mb: 1, vram_mb: 2, disk_mb: 3 }
    );
    assert_eq!(
        metrics_event(5000, 1, 2, 3),
        AxonEvent::SystemMetrics { cpu_permille: 1000, ram_mb: 1, vram_mb: 2, disk_mb: 3 }
    );
}
