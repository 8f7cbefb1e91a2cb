use axon_core::ai::chat::chat_types::{ChatRole, ChatSession};
use axon_core::ai::memory::conversation_embeddings::{JobRecord, JobStatus, JobStore};
use axon_core::ai::model_router::{route_and_query, ModelRouter};
use axon_core::ai::models::ModelRegistry;
use axon_core::ai::multi_agent_router::{PatchAction, PatchNode, PatchType};
use axon_core::ai::ollama::OllamaProvider as LocalProvider;
use axon_core::ai::patch_tree::{request_of, respond};
use axon_core::ai::prompt_builder::{
    detect_tool_call, json_candidate, tool_call_from, PromptBuilder, ToolCall,
};
use axon_core::ai::provider::{completion, OllamaProvider};
use axon_core::ai::json::{member, member_flag, member_rendered, member_text, JsonMember};
use axon_core::ai::self_reflection::{
    select_agent, select_by_keyword, AgentType, InferenceCall, MultiAgentRouter,
};
use axon_core::ai::streaming_ollama::{
    read_verdict, reflection_prompt, verdict_from, ReflectionVerdict,
};
use axon_core::ai::tool_router::StreamingEngine;
use axon_core::config::schema::{AiConfig, AxonConfig, ModelInfo, ShellConfig};
use axon_core::event::bus::{create_event_bus, RecvOutcome};
use axon_core::event::event::{AxonEvent, WorkerHealth};
use axon_core::kernel::runtime::AxonRuntime;
use axon_core::memory::auto_tool_loop::{step_from, tool_reasoning_loop, ToolStep};
use axon_core::memory::persistent_memory::DiskMemory;
use axon_core::memory::tool_schema_detector as whole_answer;

fn action(path: &str) -> PatchAction {
    PatchAction {
        file_path: path.to_string(),
        description: "d".to_string(),
        change_type: PatchType::ModifyFile,
        content: None,
    }
}

#[test]
fn patch_tree_flattens_own_actions_before_children() {
    let mut root = PatchNode::new("root".to_string(), "r".to_string());
    assert!(root.flatten().is_empty());
    let mut left = PatchNode::new("left".to_string(), "l".to_string());
    let mut leaf = PatchNode::new("leaf".to_string(), "x".to_string());
    leaf.add_action(action("leaf-1"));
    left.add_action(action("left-1"));
    left.add_child(leaf);
    left.add_action(action("left-2"));
    let mut right = PatchNode::new("right".to_string(), "r".to_string());
    right.add_action(action("right-1"));
    root.add_child(left);
    root.add_action(action("root-1"));
    root.add_child(right);
    let order: Vec<String> = root.flatten().into_iter().map(|a| a.file_path).collect();
    assert_eq!(order, vec!["root-1", "left-1", "left-2", "leaf-1", "right-1"]);
}

#[test]
fn registry_from_config_and_default_model() {
    let registry = ModelRegistry::from_config(
        "general".to_string(),
        "coder".to_string(),
        "embed".to_string(),
        1024,
    );
    assert_eq!(registry.models.len(), 3);
    assert_eq!(registry.models[1], ModelInfo { name: "coder".to_string(), max_tokens: 1024 });
    assert_eq!(
        registry.default_model(),
        ModelInfo { name: "general".to_string(), max_tokens: 1024 }
    );
    let lost = ModelRegistry { models: vec![], default_model_name: "x".to_string() };
    assert_eq!(lost.default_model(), ModelInfo { name: "default".to_string(), max_tokens: 4096 });
    let twice = ModelRegistry {
        models: vec![
            ModelInfo { name: "a".to_string(), max_tokens: 1 },
            ModelInfo { name: "x".to_string(), max_tokens: 2 },
            ModelInfo { name: "x".to_string(), max_tokens: 3 },
        ],
        default_model_name: "x".to_string(),
    };
    assert_eq!(twice.default_model().max_tokens, 2);
    let router = ModelRouter::new(twice.clone());
    assert_eq!(router.registry, twice);
}

#[test]
fn agents_are_chosen_by_keyword() {
    assert_eq!(select_agent("fix this BUG"), AgentType::Coder);
    assert_eq!(select_agent("an Error occurred"), AgentType::Coder);
    assert_eq!(select_agent("plan and analyze"), AgentType::Planner);
    assert_eq!(select_agent("list the STEPS"), AgentType::Planner);
    assert_eq!(select_agent("Analyze the data"), AgentType::Analyst);
    assert_eq!(select_agent("hello"), AgentType::General);
    assert_eq!(select_agent(""), AgentType::General);
}

#[test]
fn router_configures_agents_from_the_registry() {
    let registry = ModelRegistry::from_config(
        "general".to_string(),
        "coder".to_string(),
        "embed".to_string(),
        1024,
    );
    let router = MultiAgentRouter::new(&registry);
    let general = router.get(AgentType::General);
    assert_eq!(general.system_prompt, "You are a helpful AI assistant.");
    assert_eq!(general.model_name, "general");
    assert_eq!(general.max_tokens, 1024);
    let coder = router.get(AgentType::Coder);
    assert_eq!(coder.agent_type, AgentType::Coder);
    assert_eq!(coder.model_name, "default");
    assert_eq!(coder.max_tokens, 4096);
    assert_eq!(
        router.get(AgentType::Planner).system_prompt,
        "You break complex tasks into actionable plans."
    );
    assert_eq!(
        router.get(AgentType::Analyst).system_prompt,
        "You analyze problems step by step with structured reasoning."
    );
    let (agent, call) = router.route("there is a bug");
    assert_eq!(agent, AgentType::Coder);
    assert_eq!(
        call,
        InferenceCall { prompt: String::new(), model_name: "default".to_string(), max_tokens: 4096 }
    );
    let (agent, call) = router.route("good morning");
    assert_eq!(agent, AgentType::General);
    assert_eq!(call.model_name, "general");
    assert_eq!(call.max_tokens, 1024);
}

#[test]
fn prompt_builder_adds_a_line_feed_per_line() {
    assert_eq!(PromptBuilder::new().build(), "");
    assert_eq!(PromptBuilder::new().push_line("a").push_line("").push_line("b c").build(), "a\n\nb c\n");
}

#[test]
fn json_candidate_spans_first_to_last_brace() {
    assert_eq!(json_candidate("x {\"a\": {}} y"), Some("{\"a\": {}}".to_string()));
    assert_eq!(json_candidate("{}"), Some("{}".to_string()));
    assert_eq!(json_candidate("} {"), None);
    assert_eq!(json_candidate("no braces"), None);
    assert_eq!(json_candidate("{ open"), None);
    assert_eq!(json_candidate("close }"), None);
    assert_eq!(json_candidate("\u{e9}{\u{20ac}}"), Some("{\u{20ac}}".to_string()));
}

#[test]
fn tool_call_is_detected_inside_an_answer() {
    let answer = "Sure. {\"tool\": \"run_shell\", \"args\": {\"command\": \"cargo build\"}} Done.";
    assert_eq!(
        detect_tool_call(answer),
        Some(ToolCall {
            tool: "run_shell".to_string(),
            args: "{\"command\":\"cargo build\"}".to_string(),
        })
    );
    assert_eq!(detect_tool_call("{\"tool\": \"t\"}"), None);
    assert_eq!(detect_tool_call("{\"args\": 1}"), None);
    assert_eq!(detect_tool_call("{\"tool\": 5, \"args\": 1}"), None);
    assert_eq!(detect_tool_call("{not json}"), None);
    assert_eq!(detect_tool_call("nothing here"), None);
    assert_eq!(
        detect_tool_call("{\"tool\": \"t\", \"args\": null, \"more\": 1}"),
        Some(ToolCall { tool: "t".to_string(), args: "null".to_string() })
    );
    assert_eq!(tool_call_from(Some("t".to_string()), None), None);
    assert_eq!(tool_call_from(None, Some("1".to_string())), None);
}

#[test]
fn whole_answer_tool_call() {
    assert_eq!(
        whole_answer::detect_tool_call("{\"tool\": \"t\", \"args\": [1, 2]}"),
        Some(("t".to_string(), "[1,2]".to_string()))
    );
    assert_eq!(
        whole_answer::detect_tool_call("{\"tool\": \"t\"}"),
        Some(("t".to_string(), "null".to_string()))
    );
    assert_eq!(whole_answer::detect_tool_call("{\"tool\": 1}"), None);
    assert_eq!(whole_answer::detect_tool_call("{\"args\": 1}"), None);
    assert_eq!(whole_answer::detect_tool_call("x {\"tool\": \"t\"}"), None);
    assert_eq!(axon_core::ai::tool_json_detector::detect_tool_call("{\"tool\": \"t\"}"), None);
}

#[test]
fn tool_loop_stops_after_three_rounds() {
    let call = "{\"tool\": \"t\", \"args\": 1}";
    let expected = ToolStep::Call { tool: "t".to_string(), args: "1".to_string() };
    assert_eq!(tool_reasoning_loop(0, call), expected);
    assert_eq!(tool_reasoning_loop(2, call), expected);
    assert_eq!(tool_reasoning_loop(3, call), ToolStep::Done);
    assert_eq!(tool_reasoning_loop(0, "plain answer"), ToolStep::Done);
    assert_eq!(step_from(3, Some(("t".to_string(), "1".to_string()))), ToolStep::Done);
    assert_eq!(step_from(1, None), ToolStep::Done);
}

#[test]
fn reflection_prompt_and_verdict() {
    let prompt = reflection_prompt("P", "A");
    assert_eq!(
        prompt,
        format!(
            "You are evaluating an AI response.\n\n\
             Original prompt:\n{}\n\n\
             AI response:\n{}\n\n\
             Evaluate:\n\
             1. Is the answer logically correct?\n\
             2. Does it contain hallucinations?\n\
             3. Rate confidence from 0.0 to 1.0\n\
             4. Should it be retried?\n\
             Respond strictly in JSON:\n\
             {{\"confidence\":0.0,\"retry\":false,\"reason\":\"...\"}}",
            "P", "A"
        )
    );
    assert_eq!(
        read_verdict("{\"confidence\":0.2,\"retry\":true,\"reason\":\"wrong\"}"),
        ReflectionVerdict { reasoning: "wrong".to_string(), should_retry: true }
    );
    assert_eq!(
        read_verdict("not json"),
        ReflectionVerdict { reasoning: "No reasoning provided".to_string(), should_retry: false }
    );
    assert_eq!(
        read_verdict("{\"retry\":\"yes\",\"reason\":7}"),
        ReflectionVerdict { reasoning: "No reasoning provided".to_string(), should_retry: false }
    );
    assert_eq!(verdict_from(Some(true), None).should_retry, true);
}

#[test]
fn streaming_collects_tokens_line_by_line() {
    let mut engine = StreamingEngine::new();
    assert_eq!(engine.accept_line("{\"response\":\"He\"}"), Some("He".to_string()));
    assert_eq!(engine.accept_line("{\"done\":true}"), None);
    assert_eq!(engine.accept_line("garbage"), None);
    let tokens = engine.accept_chunk("{\"response\":\"llo\"}\r\n\n{\"response\":5}\n{\"response\":\" you\"}");
    assert_eq!(tokens, vec!["llo".to_string(), " you".to_string()]);
    engine.accept("!");
    assert_eq!(engine.finish(), "Hello you!");
}

#[test]
fn provider_settings_and_answers() {
    let provider = OllamaProvider::new("http://h:1".to_string(), 9);
    assert_eq!(provider.timeout_seconds, 9);
    assert_eq!(provider.generate_url(), "http://h:1/api/generate");
    assert_eq!(provider.health_url(), "http://h:1/api/tags");
    let answer = completion(Some("text".to_string()), "m");
    assert_eq!(answer.output, "text");
    assert_eq!(answer.model, "m");
    assert_eq!(answer.tokens_used, None);
    assert_eq!(completion(None, "m").output, "");
    let local = LocalProvider::new();
    assert_eq!(local.generate(true, "hi".to_string()), Ok("hi".to_string()));
    assert_eq!(
        local.generate(false, "busy".to_string()),
        Err("Ollama API Error: busy".to_string())
    );
    assert_eq!(route_and_query("x"), "DeepSeek Response to: x");
}

#[test]
fn inference_bridge_answers_requests() {
    let request = AxonEvent::AiRequest {
        id: 3,
        prompt: "p".to_string(),
        model: None,
        context: None,
    };
    assert_eq!(request_of(&request), Some((3, "p".to_string())));
    assert_eq!(request_of(&AxonEvent::Startup), None);
    let (mut bus, mut rx) = create_event_bus(4);
    assert!(respond(3, Ok("fine".to_string()), &mut bus));
    assert!(respond(4, Err("down".to_string()), &mut bus));
    assert_eq!(
        rx.try_recv(&bus),
        RecvOutcome::Event(AxonEvent::AiResponse {
            request_id: 3,
            output: "fine".to_string(),
            model: "qwen2.5:7b".to_string(),
            context: None,
            response: "fine".to_string(),
        })
    );
    assert_eq!(
        rx.try_recv(&bus),
        RecvOutcome::Event(AxonEvent::AiError { request_id: 4, error: "down".to_string() })
    );
}

#[test]
fn chat_session_keeps_messages_in_order() {
    let mut session = ChatSession::with_id(1);
    assert_eq!(session.id, "00000000-0000-0000-0000-000000000001");
    session.push(ChatRole::User, "hi".to_string());
    session.push(ChatRole::Assistant, "hello".to_string());
    assert_eq!(
        session.history,
        vec![(ChatRole::User, "hi".to_string()), (ChatRole::Assistant, "hello".to_string())]
    );
    let drawn = ChatSession::new();
    assert_eq!(drawn.id.len(), 36);
    assert!(uuid::Uuid::parse_str(&drawn.id).is_ok());
    assert_ne!(drawn.id, ChatSession::new().id);
    assert!(drawn.history.is_empty());
}

#[test]
fn jobs() {
    assert_eq!(JobStore::path(1), "axon_state/jobs/00000000-0000-0000-0000-000000000001.json");
    let mut job = JobStore::create_with(1, "index", Some("p".to_string()));
    assert_eq!(job.status, JobStatus::Pending);
    assert_eq!(job.last_step, None);
    JobStore::update_status(&mut job, JobStatus::Running);
    JobStore::update_step(&mut job, "half");
    assert_eq!(
        job,
        JobRecord {
            id: 1,
            job_type: "index".to_string(),
            status: JobStatus::Running,
            last_step: Some("half".to_string()),
            payload: Some("p".to_string()),
        }
    );
    let mut done = JobStore::create_with(2, "build", None);
    JobStore::update_status(&mut done, JobStatus::Completed);
    let mut failed = JobStore::create_with(3, "build", None);
    JobStore::update_status(&mut failed, JobStatus::Failed);
    let pending = JobStore::create_with(4, "build", None);
    let open = JobStore::load_incomplete(vec![done, job.clone(), failed, pending.clone()]);
    assert_eq!(open, vec![job, pending]);
    assert!(JobStore::load_incomplete(vec![]).is_empty());
    let drawn = JobStore::create("x", None);
    assert_ne!(drawn.id, JobStore::create("x", None).id);
}

#[test]
fn configuration_defaults() {
    let config = AxonConfig::default();
    assert_eq!(config.ai.provider, "ollama");
    assert_eq!(config.ai.model, "Qwen2.5:7b");
    assert_eq!(config.ai.endpoint, None);
    assert_eq!(config.ai.api_key, None);
    assert_eq!(config.ai.ollama_endpoint, Some("http://127.0.0.1:11434".to_string()));
    assert_eq!(config.ai.timeout_seconds, 60);
    assert_eq!(config.ai.default_model, ModelInfo { name: "Qwen2.5:7b".to_string(), max_tokens: 4096 });
    assert_eq!(config.ai.coder_model, ModelInfo::default());
    assert_eq!(
        config.ai.embed_model,
        ModelInfo { name: "nomic-embed-text".to_string(), max_tokens: 2048 }
    );
    assert_eq!(config.ai.max_tokens, 4096);
    assert_eq!(config.discord.token, "");
    assert_eq!(config.discord.channel_id, 0);
    assert_eq!(config.telegram.bot_token, "");
    assert_eq!(config.telegram.admin_id, 0);
    assert_eq!(config.filesystem.watch_path, ".");
    assert_eq!(
        config.shell,
        ShellConfig { allowed_commands: vec![], timeout_seconds: 60, require_approval_for: vec![] }
    );
    assert_eq!(AiConfig::default().duplicate(), AiConfig::default());
    assert_eq!(config.duplicate(), config);
}

fn text_member(text: &str) -> JsonMember {
    JsonMember { text: Some(text.to_string()), flag: None, rendered: format!("{:?}", text) }
}

#[test]
fn members_are_looked_up_by_key() {
    let members = vec![
        ("a".to_string(), text_member("x")),
        ("b".to_string(), JsonMember { text: None, flag: Some(true), rendered: "true".to_string() }),
        ("a".to_string(), text_member("second")),
    ];
    assert_eq!(member(&members, "a"), Some(&members[0].1));
    assert_eq!(member(&members, "c"), None);
    assert_eq!(member_text(&members, "a"), Some("x".to_string()));
    assert_eq!(member_text(&members, "b"), None);
    assert_eq!(member_flag(&members, "b"), Some(true));
    assert_eq!(member_flag(&members, "a"), None);
    assert_eq!(member_rendered(&members, "b"), Some("true".to_string()));
    assert_eq!(member_rendered(&members, "missing"), None);
}

#[test]
fn decisions_on_parsed_members() {
    let members = vec![
        ("args".to_string(), JsonMember { text: None, flag: None, rendered: "[1]".to_string() }),
        ("reason".to_string(), text_member("because")),
        ("response".to_string(), text_member("tok")),
        ("retry".to_string(), JsonMember { text: None, flag: Some(true), rendered: "true".to_string() }),
        ("tool".to_string(), text_member("sh")),
    ];
    assert_eq!(
        axon_core::ai::prompt_builder::tool_call_among(&members),
        Some(ToolCall { tool: "sh".to_string(), args: "[1]".to_string() })
    );
    assert_eq!(
        whole_answer::tool_call_among(&members),
        Some(("sh".to_string(), "[1]".to_string()))
    );
    assert_eq!(
        axon_core::ai::streaming_ollama::verdict_among(&members),
        ReflectionVerdict { reasoning: "because".to_string(), should_retry: true }
    );
    assert_eq!(axon_core::ai::tool_router::token_among(&members), Some("tok".to_string()));
    assert_eq!(axon_core::ai::prompt_builder::tool_call_among(&vec![]), None);
    assert_eq!(axon_core::ai::tool_router::token_among(&vec![]), None);
}

#[test]
fn agents_go_by_the_lower_case_form() {
    assert_eq!(select_by_keyword("a bug"), AgentType::Coder);
    assert_eq!(select_by_keyword("A BUG"), AgentType::General);
}

#[test]
fn small_pieces() {
    assert_eq!(AxonRuntime::init(), AxonRuntime::init());
    let mut memory = DiskMemory::new(9);
    memory.remember("first".to_string());
    memory.remember("second".to_string());
    assert_eq!(memory.conversation_id, 9);
    assert_eq!(memory.entries, vec!["first".to_string(), "second".to_string()]);
    assert_eq!(
        axon_core::ai::tool_json_detector::handle_potential_tool_call("x"),
        AxonEvent::WorkerStatus {
            name: "tool_detector".to_string(),
            health: WorkerHealth::Healthy,
        }
    );
}

#[test]
fn every_line_with_a_token_gives_exactly_one_token() {
    let mut engine = StreamingEngine::new();
    let tokens = engine.accept_chunk(
        "{\"response\":\"\"}\n{\"response\":\"a\"}\n\n{\"x\":1}\n{\"response\":\"\"}\n{\"response\":\"b\"}",
    );
    assert_eq!(
        tokens,
        vec![String::new(), "a".to_string(), String::new(), "b".to_string()]
    );
    assert!(engine.accept_chunk("").is_empty());
    assert!(engine.accept_chunk("no json\nat all\n").is_empty());
    assert_eq!(engine.finish(), "ab");
}
