use axon_core::config::schema::AxonConfig;
use axon_core::event::bus::{create_event_bus, RecvOutcome};
use axon_core::event::event::{AlertLevel, AxonEvent, LogLevel, WorkerHealth};
use axon_core::kernel::state::{AppState, FixPolicy, SessionCounters};
use axon_core::orchestrator::classifier::{chat_command, CommandClass};
use axon_core::orchestrator::handler::{
    decide, dispatch, finish_build, finish_fix, finish_inference, fits, handle_event,
    publish_each, try_dispatch, try_handle_event, Action, Outcome,
};
use axon_core::orchestrator::router::{
    fresh_request, handle_ai_request, handle_file_detected, inspect_file, new_request,
};

fn store() -> AppState {
    AppState::new(AxonConfig::default())
}

fn proposal(alert_id: u128, confidence: u8) -> AxonEvent {
    AxonEvent::FixProposed {
        alert_id,
        description: "swap the arguments".to_string(),
        patch: "--- a\n+++ b".to_string(),
        command: "cargo test".to_string(),
        confidence,
    }
}

fn log(level: LogLevel, message: &str) -> AxonEvent {
    AxonEvent::LogDetected {
        source: "tail".to_string(),
        level,
        message: message.to_string(),
        source_file: None,
        raw_lines: None,
    }
}

fn quiet() -> Outcome {
    Outcome { publish: vec![], action: Action::Idle, stop: false }
}

#[test]
fn confident_proposal_is_approved_automatically() {
    let mut s = store();
    let out = decide(&mut s, &proposal(7, 95), 0, 1234);
    assert_eq!(out.publish, vec![AxonEvent::FixApproved { alert_id: 7 }]);
    assert_eq!(out.action, Action::Idle);
    let alerts = s.snapshot_alerts();
    assert_eq!(alerts.len(), 1);
    assert_eq!(alerts[0].id, 7);
    assert_eq!(alerts[0].level, AlertLevel::Critical);
    assert_eq!(alerts[0].title, "Fix Available");
    assert_eq!(alerts[0].message, "swap the arguments");
    assert_eq!(alerts[0].timestamp, 1234);
    assert!(!alerts[0].fix_applied);
}

#[test]
fn doubtful_proposal_stays_open() {
    let mut s = store();
    let out = decide(&mut s, &proposal(7, 40), 0, 0);
    assert_eq!(out, quiet());
    assert_eq!(s.snapshot_alerts().len(), 1);
    assert!(!s.snapshot_alerts()[0].fix_applied);
}

#[test]
fn safe_mode_never_approves() {
    let mut s = AppState::with_session(
        AxonConfig::default(),
        0,
        FixPolicy::new(true, 10).unwrap(),
    );
    let out = decide(&mut s, &proposal(7, 95), 0, 0);
    assert_eq!(out, quiet());
    assert_eq!(s.snapshot_alerts().len(), 1);
}

#[test]
fn threshold_itself_is_not_enough() {
    let mut s = store();
    assert_eq!(decide(&mut s, &proposal(1, 90), 0, 0), quiet());
    assert_eq!(
        decide(&mut s, &proposal(2, 91), 0, 0).publish,
        vec![AxonEvent::FixApproved { alert_id: 2 }]
    );
    assert_eq!(decide(&mut s, &proposal(3, 200), 0, 0), quiet());
}

#[test]
fn critical_log_line_requests_one_inference_with_fresh_id() {
    let mut s = store();
    // an earlier request carried the identifier 5
    let earlier = AxonEvent::AiRequest {
        id: 5,
        prompt: "hi".to_string(),
        model: None,
        context: None,
    };
    decide(&mut s, &earlier, 0, 0);
    let out = decide(&mut s, &log(LogLevel::Error, "panic at X"), 5, 0);
    assert_eq!(
        out.publish,
        vec![AxonEvent::AiRequest {
            id: 6,
            prompt: "Analyze this error and propose a fix:\n\npanic at X".to_string(),
            model: None,
            context: Some("error_analysis".to_string()),
        }]
    );
    assert_eq!(out.action, Action::Idle);
    assert!(!out.stop);
    assert!(s.has_seen(6));
    // the same candidate never yields the same identifier again
    let again = decide(&mut s, &log(LogLevel::Warn, "disk almost full"), 5, 0);
    match &again.publish[..] {
        [AxonEvent::AiRequest { id, .. }] => assert_eq!(*id, 7),
        other => panic!("unexpected {:?}", other),
    }
}

#[test]
fn harmless_log_lines_are_dropped() {
    let mut s = store();
    assert_eq!(decide(&mut s, &log(LogLevel::Info, "started"), 1, 0), quiet());
    assert_eq!(decide(&mut s, &log(LogLevel::Debug, "x = 3"), 1, 0), quiet());
    assert!(!s.has_seen(1));
}

#[test]
fn inference_request_starts_inference_with_default_model() {
    let mut s = store();
    let request = AxonEvent::AiRequest {
        id: 42,
        prompt: "why".to_string(),
        model: None,
        context: Some("ctx".to_string()),
    };
    let out = decide(&mut s, &request, 0, 0);
    assert!(out.publish.is_empty());
    assert_eq!(
        out.action,
        Action::Infer { id: 42, prompt: "why".to_string(), model: "deepseek-r1:8b".to_string() }
    );
    assert!(s.has_seen(42));
    let named = AxonEvent::AiRequest {
        id: 43,
        prompt: "why".to_string(),
        model: Some("tiny".to_string()),
        context: None,
    };
    assert_eq!(
        decide(&mut s, &named, 0, 0).action,
        Action::Infer { id: 43, prompt: "why".to_string(), model: "tiny".to_string() }
    );
}

#[test]
fn approved_fix_is_marked_and_patched() {
    let mut s = store();
    decide(&mut s, &proposal(7, 40), 0, 0);
    let out = decide(&mut s, &AxonEvent::FixApproved { alert_id: 7 }, 0, 0);
    assert_eq!(out.action, Action::ApplyPatch { alert_id: 7 });
    assert!(out.publish.is_empty());
    assert!(s.snapshot_alerts()[0].fix_applied);
}

#[test]
fn approved_fix_for_unknown_alert_is_reported_not_fatal() {
    let mut s = store();
    let out = decide(&mut s, &AxonEvent::FixApproved { alert_id: 9 }, 0, 0);
    assert_eq!(out.action, Action::ReportMissingAlert { alert_id: 9 });
    assert!(!out.stop);
    assert!(s.snapshot_alerts().is_empty());
}

#[test]
fn applied_fix_is_counted_only_on_success() {
    let mut s = store();
    decide(&mut s, &AxonEvent::FixApplied { alert_id: 1, success: false }, 0, 0);
    assert_eq!(s.session_counters().fixes_applied, 0);
    decide(&mut s, &AxonEvent::FixApplied { alert_id: 1, success: true }, 0, 0);
    assert_eq!(s.session_counters().fixes_applied, 1);
}

#[test]
fn worker_health_is_stored() {
    let mut s = store();
    let event = AxonEvent::WorkerStatus {
        name: "rag".to_string(),
        health: WorkerHealth::Stopped,
    };
    assert_eq!(decide(&mut s, &event, 0, 0), quiet());
    assert_eq!(s.snapshot_workers()[0].health, WorkerHealth::Stopped);
}

#[test]
fn chat_commands_are_translated() {
    let mut s = store();
    let build = AxonEvent::TelegramCommand {
        text: "/build".to_string(),
        chat_id: 5,
        command: None,
        args: vec![],
    };
    assert_eq!(
        decide(&mut s, &build, 0, 0).publish,
        vec![AxonEvent::BuildRequested {
            project: "axon_core".to_string(),
            command: "cargo build --release".to_string(),
        }]
    );
    let status = AxonEvent::TelegramCommand {
        text: "/status".to_string(),
        chat_id: 5,
        command: None,
        args: vec![],
    };
    assert_eq!(
        decide(&mut s, &status, 0, 0).action,
        Action::ReportStatus {
            chat_id: 5,
            counters: SessionCounters {
                started_at: 0,
                uptime_seconds: 0,
                builds_run: 0,
                fixes_applied: 0
            },
        }
    );
    let unknown = AxonEvent::TelegramCommand {
        text: "/dance".to_string(),
        chat_id: 5,
        command: None,
        args: vec![],
    };
    assert_eq!(decide(&mut s, &unknown, 0, 0), quiet());
}

#[test]
fn build_search_and_shutdown_name_their_action() {
    let mut s = store();
    let build = AxonEvent::BuildRequested { project: "p".to_string(), command: "c".to_string() };
    assert_eq!(
        decide(&mut s, &build, 0, 0).action,
        Action::Build { project: "p".to_string(), command: "c".to_string() }
    );
    let search = AxonEvent::RagSearch { query: "q".to_string(), request_id: 8 };
    assert_eq!(
        decide(&mut s, &search, 0, 0).action,
        Action::Search { query: "q".to_string(), request_id: 8 }
    );
    assert!(s.has_seen(8));
    let out = decide(&mut s, &AxonEvent::Shutdown, 0, 0);
    assert_eq!(out.action, Action::Persist);
    assert!(out.stop);
}

#[test]
fn other_events_pass_through() {
    let mut s = store();
    for event in [
        AxonEvent::Startup,
        AxonEvent::FileChanged { path: "x".to_string() },
        AxonEvent::AiError { request_id: 1, error: "e".to_string() },
        AxonEvent::TelegramSend { chat_id: 1, message: "m".to_string() },
        AxonEvent::RagReindexComplete { project: "p".to_string(), count: 1, files_indexed: 1 },
        AxonEvent::SystemMetrics { cpu_permille: 10, ram_mb: 1, vram_mb: 0, disk_mb: 0 },
    ] {
        assert_eq!(decide(&mut s, &event, 0, 0), quiet());
    }
    assert!(s.snapshot_workers().is_empty());
    assert!(s.snapshot_alerts().is_empty());
}

#[test]
fn handle_event_publishes_what_follows() {
    let mut s = store();
    let (mut bus, mut rx) = create_event_bus(8);
    let out = handle_event(log(LogLevel::Error, "panic at X"), &mut s, &mut bus);
    assert_eq!(out.publish.len(), 1);
    assert_eq!(bus.published(), 1);
    match rx.try_recv(&bus) {
        RecvOutcome::Event(AxonEvent::AiRequest { id, prompt, model, context }) => {
            assert!(s.has_seen(id));
            assert_eq!(prompt, "Analyze this error and propose a fix:\n\npanic at X");
            assert_eq!(model, None);
            assert_eq!(context, Some("error_analysis".to_string()));
        }
        other => panic!("unexpected {:?}", other),
    }
    assert_eq!(rx.try_recv(&bus), RecvOutcome::Empty);
}

#[test]
fn handle_event_stamps_alerts_with_the_present() {
    let mut s = store();
    let (mut bus, _rx) = create_event_bus(8);
    handle_event(proposal(3, 95), &mut s, &mut bus);
    // the clock of any machine that runs this is far past the year 2001
    assert!(s.snapshot_alerts()[0].timestamp > 1_000_000_000);
    assert_eq!(bus.published(), 1);
}

#[test]
fn two_log_lines_get_two_different_ids() {
    let mut s = store();
    let (mut bus, mut rx) = create_event_bus(8);
    handle_event(log(LogLevel::Error, "a"), &mut s, &mut bus);
    handle_event(log(LogLevel::Error, "b"), &mut s, &mut bus);
    let first = match rx.try_recv(&bus) {
        RecvOutcome::Event(AxonEvent::AiRequest { id, .. }) => id,
        other => panic!("unexpected {:?}", other),
    };
    let second = match rx.try_recv(&bus) {
        RecvOutcome::Event(AxonEvent::AiRequest { id, .. }) => id,
        other => panic!("unexpected {:?}", other),
    };
    assert_ne!(first, second);
}

#[test]
fn try_handle_event_dispatches_what_fits() {
    let mut s = store();
    let (mut bus, _rx) = create_event_bus(8);
    let out = try_handle_event(AxonEvent::FixApplied { alert_id: 1, success: true }, &mut s, &mut bus);
    assert_eq!(out, Some(quiet()));
    assert_eq!(s.session_counters().fixes_applied, 1);
}

#[test]
fn finished_build_is_recorded_and_published() {
    let mut s = store();
    let (mut bus, mut rx) = create_event_bus(8);
    assert!(finish_build(
        "axon".to_string(),
        false,
        "N/A".to_string(),
        "error[E0308]".to_string(),
        2000,
        77,
        &mut s,
        &mut bus
    ));
    assert_eq!(s.session_counters().builds_run, 1);
    let last = s.last_build("axon").unwrap();
    assert!(!last.success);
    assert_eq!(last.timestamp, 77);
    assert_eq!(
        rx.try_recv(&bus),
        RecvOutcome::Event(AxonEvent::BuildFinished {
            project: "axon".to_string(),
            success: false,
            logs: "N/A".to_string(),
            output: "error[E0308]".to_string(),
            duration_ms: 2000,
        })
    );
}

#[test]
fn finished_fix_and_inference_become_events() {
    let (mut bus, mut rx) = create_event_bus(8);
    assert!(finish_fix(4, true, &mut bus));
    assert_eq!(
        rx.try_recv(&bus),
        RecvOutcome::Event(AxonEvent::FixApplied { alert_id: 4, success: true })
    );
    assert_eq!(
        finish_inference(9, "m".to_string(), Ok("fine".to_string())),
        AxonEvent::AiResponse {
            request_id: 9,
            output: "fine".to_string(),
            model: "m".to_string(),
            context: None,
            response: "fine".to_string(),
        }
    );
    assert_eq!(
        finish_inference(9, "m".to_string(), Err("timeout".to_string())),
        AxonEvent::AiError { request_id: 9, error: "timeout".to_string() }
    );
}

#[test]
fn router_fills_in_the_default_model() {
    let (mut bus, mut rx) = create_event_bus(8);
    assert!(handle_ai_request(1, "p".to_string(), None, None, &mut bus));
    assert!(handle_ai_request(2, "p".to_string(), Some("m".to_string()), None, &mut bus));
    assert_eq!(
        rx.try_recv(&bus),
        RecvOutcome::Event(AxonEvent::AiRequest {
            id: 1,
            prompt: "p".to_string(),
            model: Some("deepseek-r1:8b".to_string()),
            context: None,
        })
    );
    assert_eq!(
        rx.try_recv(&bus),
        RecvOutcome::Event(AxonEvent::AiRequest {
            id: 2,
            prompt: "p".to_string(),
            model: Some("m".to_string()),
            context: None,
        })
    );
}

#[test]
fn changed_file_is_sent_for_analysis_under_a_fresh_id() {
    let mut s = store();
    s.note_id(1);
    let (mut bus, mut rx) = create_event_bus(8);
    let (id, accepted) =
        inspect_file("src/a.rs".to_string(), "fn a() {}".to_string(), 1, &mut s, &mut bus);
    assert_eq!(id, 2);
    assert!(accepted);
    assert_eq!(
        rx.try_recv(&bus),
        RecvOutcome::Event(AxonEvent::AiRequest {
            id: 2,
            prompt: "Analizeaza acest cod Rust:\nPath: src/a.rs\n\nfn a() {}".to_string(),
            model: Some("deepseek-r1:8b".to_string()),
            context: None,
        })
    );
    let (drawn, _) =
        handle_file_detected("src/b.rs".to_string(), "x".to_string(), &mut s, &mut bus);
    assert!(drawn != 1 && drawn != 2);
    assert!(s.has_seen(drawn));
}

fn chat(text: &str, command: Option<&str>) -> AxonEvent {
    AxonEvent::TelegramCommand {
        text: text.to_string(),
        chat_id: 5,
        command: command.map(str::to_string),
        args: vec![],
    }
}

#[test]
fn chat_grammar_is_exact() {
    assert_eq!(chat_command("/build", &None), CommandClass::Build);
    assert_eq!(chat_command("  /build axon_core", &None), CommandClass::Build);
    assert_eq!(chat_command("/status\tnow", &None), CommandClass::Status);
    assert_eq!(chat_command("/Build", &None), CommandClass::Unknown);
    assert_eq!(chat_command("/buildx", &None), CommandClass::Unknown);
    assert_eq!(chat_command("build", &None), CommandClass::Unknown);
    assert_eq!(chat_command("please compile the worker health", &None), CommandClass::Unknown);
    assert_eq!(chat_command("", &None), CommandClass::Unknown);
    assert_eq!(chat_command("anything", &Some("/status".to_string())), CommandClass::Status);
    assert_eq!(chat_command("/build", &Some("/dance".to_string())), CommandClass::Unknown);
    assert_eq!(chat_command("/build", &Some(" /build".to_string())), CommandClass::Unknown);
}

#[test]
fn chat_text_with_keywords_is_no_command() {
    let mut s = store();
    assert_eq!(decide(&mut s, &chat("please rebuild everything", None), 0, 0), quiet());
    assert_eq!(decide(&mut s, &chat("worker health?", None), 0, 0), quiet());
    assert_eq!(
        decide(&mut s, &chat("ignored", Some("/build")), 0, 0).publish,
        vec![AxonEvent::BuildRequested {
            project: "axon_core".to_string(),
            command: "cargo build --release".to_string(),
        }]
    );
}

#[test]
fn dispatch_applies_the_rules_without_publishing() {
    let mut s = store();
    let out = dispatch(&log(LogLevel::Error, "panic at X"), &mut s);
    match &out.publish[..] {
        [AxonEvent::AiRequest { id, prompt, .. }] => {
            assert!(s.has_seen(*id));
            assert_eq!(prompt, "Analyze this error and propose a fix:\n\npanic at X");
        }
        other => panic!("unexpected {:?}", other),
    }
    let (mut bus, mut rx) = create_event_bus(4);
    publish_each(&mut bus, &out.publish);
    assert_eq!(rx.try_recv(&bus), RecvOutcome::Event(out.publish[0].clone()));
    assert_eq!(rx.try_recv(&bus), RecvOutcome::Empty);
    // a rule that needs neither identifier nor time goes by zero for both
    let health = AxonEvent::WorkerStatus { name: "w".to_string(), health: WorkerHealth::Idle };
    let mut a = store();
    let mut b = store();
    assert_eq!(dispatch(&health, &mut a), decide(&mut b, &health, 0, 0));
    assert_eq!(a.snapshot_workers(), b.snapshot_workers());
    assert_eq!(dispatch(&log(LogLevel::Info, "fine"), &mut a), quiet());
    dispatch(&proposal(3, 10), &mut a);
    assert!(a.snapshot_alerts()[0].timestamp > 1_000_000_000);
}

#[test]
fn try_dispatch_says_whether_the_store_can_take_the_event() {
    let mut s = store();
    let event = AxonEvent::FixApplied { alert_id: 1, success: true };
    assert!(fits(&event, &s));
    assert_eq!(try_dispatch(&event, &mut s), Some(quiet()));
    assert_eq!(s.session_counters().fixes_applied, 1);
}

#[test]
fn requests_are_made_under_fresh_ids() {
    let mut s = store();
    s.note_id(7);
    assert_eq!(
        fresh_request("p".to_string(), Some("m".to_string()), None, 7, &mut s),
        AxonEvent::AiRequest {
            id: 8,
            prompt: "p".to_string(),
            model: Some("m".to_string()),
            context: None,
        }
    );
    assert!(s.has_seen(8));
    match new_request("q".to_string(), None, Some("c".to_string()), &mut s) {
        AxonEvent::AiRequest { id, prompt, model, context } => {
            assert!(id != 7 && id != 8);
            assert!(s.has_seen(id));
            assert_eq!(prompt, "q");
            assert_eq!(model, None);
            assert_eq!(context, Some("c".to_string()));
        }
        other => panic!("unexpected {:?}", other),
    }
}
