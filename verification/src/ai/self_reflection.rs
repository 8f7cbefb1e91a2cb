//! Agents and the choice among them.
//!
//! Each agent is a role with its own instructions and model. A request is
//! routed to an agent by keywords in its text; what is then sent to the
//! provider is described by an [`InferenceCall`], which the caller carries
//! out.

use vstd::prelude::*;
use vstd::string::StringExecFns;
use crate::ai::models::ModelRegistry;
use crate::ai::prompt_builder::PromptBuilder;
use crate::config::schema::ModelInfoView;
use crate::text::{chars_of, contains, has_infix, lowercase_of, to_lowercase};

verus! {

/// The roles an agent can have.
#[derive(Debug, Clone, Copy, PartialEq, Eq, Hash, Structural)]
pub enum AgentType {
    General,
    Coder,
    Analyst,
    Planner,
}

/// A configured agent.
#[derive(Debug, Clone, PartialEq, Eq)]
pub struct AiAgent {
    pub agent_type: AgentType,
    pub system_prompt: String,
    pub model_name: String,
    pub max_tokens: u32,
}

/// Mathematical view of [`AiAgent`].
pub struct AgentView {
    pub agent_type: AgentType,
    pub system_prompt: Seq<char>,
    pub model_name: Seq<char>,
    pub max_tokens: u32,
}

impl View for AiAgent {
    type V = AgentView;

    open spec fn view(&self) -> AgentView {
        AgentView {
            agent_type: self.agent_type,
            system_prompt: self.system_prompt@,
            model_name: self.model_name@,
            max_tokens: self.max_tokens,
        }
    }
}

/// What is sent to the provider for one request.
#[derive(Debug, Clone, PartialEq, Eq)]
pub struct InferenceCall {
    pub prompt: String,
    pub model_name: String,
    pub max_tokens: u32,
}

impl AiAgent {
    /// What this agent sends to the provider. The prompt is what an empty
    /// prompt builder yields: the agent sends no text of its own.
    pub fn execute(&self, input: &str) -> (call: InferenceCall)
        ensures
            call.prompt@ == Seq::<char>::empty(),
            call.model_name@ == self.model_name@,
            call.max_tokens == self.max_tokens,
    {
        let builder = PromptBuilder::new();
        let prompt = builder.build();
        InferenceCall { prompt, model_name: self.model_name.clone(), max_tokens: self.max_tokens }
    }
}

/// Position of a role in the agent table.
pub open spec fn slot_of(agent: AgentType) -> int {
    match agent {
        AgentType::General => 0,
        AgentType::Coder => 1,
        AgentType::Analyst => 2,
        AgentType::Planner => 3,
    }
}

/// The instructions of a role.
pub open spec fn instructions_of(agent: AgentType) -> Seq<char> {
    match agent {
        AgentType::General => "You are a helpful AI assistant."@,
        AgentType::Coder => "You are a senior software engineer. Provide precise code."@,
        AgentType::Analyst => "You analyze problems step by step with structured reasoning."@,
        AgentType::Planner => "You break complex tasks into actionable plans."@,
    }
}

/// The agent of a role, for a registry whose default model is `default`:
/// the coder uses the model called `default` with 4096 tokens, the others
/// the registry's default model.
pub open spec fn agent_of(agent: AgentType, default: ModelInfoView) -> AgentView {
    match agent {
        AgentType::Coder => AgentView {
            agent_type: agent,
            system_prompt: instructions_of(agent),
            model_name: "default"@,
            max_tokens: 4096,
        },
        _ => AgentView {
            agent_type: agent,
            system_prompt: instructions_of(agent),
            model_name: default.name,
            max_tokens: default.max_tokens,
        },
    }
}

/// The role that a request is routed to, by keywords in its lower-case
/// form: code, bug or error for the coder; plan or steps for the planner;
/// analyze for the analyst; the general agent otherwise.
pub open spec fn routed_by(lower: Seq<char>) -> AgentType {
    if has_infix(lower, "code"@) || has_infix(lower, "bug"@) || has_infix(lower, "error"@) {
        AgentType::Coder
    } else if has_infix(lower, "plan"@) || has_infix(lower, "steps"@) {
        AgentType::Planner
    } else if has_infix(lower, "analyze"@) {
        AgentType::Analyst
    } else {
        AgentType::General
    }
}

/// The role that a request is routed to, letter case ignored.
pub open spec fn routed_to(input: Seq<char>) -> AgentType {
    routed_by(lowercase_of(input))
}

/// Chooses the role for a request.
pub fn select_agent(input: &str) -> (agent: AgentType)
    ensures
        agent == routed_to(input@),
{
    let lowered = to_lowercase(input);
    select_by_keyword(lowered.as_str())
}

/// Chooses the role for a request in lower case.
pub fn select_by_keyword(lowered: &str) -> (agent: AgentType)
    ensures
        agent == routed_by(lowered@),
{
    let lower = chars_of(lowered);
    if contains(&lower, &chars_of("code")) || contains(&lower, &chars_of("bug")) || contains(
        &lower,
        &chars_of("error"),
    ) {
        AgentType::Coder
    } else if contains(&lower, &chars_of("plan")) || contains(&lower, &chars_of("steps")) {
        AgentType::Planner
    } else if contains(&lower, &chars_of("analyze")) {
        AgentType::Analyst
    } else {
        AgentType::General
    }
}

/// Routes requests among the four agents.
pub struct MultiAgentRouter {
    agents: Vec<AiAgent>,
}

impl MultiAgentRouter {
    /// The table holds one agent per role, each at the slot of its role.
    pub closed spec fn wf(&self) -> bool {
        &&& self.agents@.len() == 4
        &&& forall|i: int| 0 <= i < 4 ==> slot_of((#[trigger] self.agents@[i]).agent_type) == i
    }

    /// The agent of a role.
    pub closed spec fn agent(&self, agent: AgentType) -> AgentView {
        self.agents@[slot_of(agent)]@
    }

    /// One agent per role, configured from the registry's default model.
    pub fn new(registry: &ModelRegistry) -> (router: MultiAgentRouter)
        ensures
            router.wf(),
            forall|agent: AgentType| #[trigger]
                router.agent(agent) == agent_of(agent, registry@.default_model()),
    {
        let mut agents: Vec<AiAgent> = Vec::new();
        let general = registry.default_model();
        agents.push(
            AiAgent {
                agent_type: AgentType::General,
                system_prompt: String::from_str("You are a helpful AI assistant."),
                model_name: general.name,
                max_tokens: general.max_tokens,
            },
        );
        agents.push(
            AiAgent {
                agent_type: AgentType::Coder,
                system_prompt: String::from_str(
                    "You are a senior software engineer. Provide precise code.",
                ),
                model_name: String::from_str("default"),
                max_tokens: 4096,
            },
        );
        let analyst = registry.default_model();
        agents.push(
            AiAgent {
                agent_type: AgentType::Analyst,
                system_prompt: String::from_str(
                    "You analyze problems step by step with structured reasoning.",
                ),
                model_name: analyst.name,
                max_tokens: analyst.max_tokens,
            },
        );
        let planner = registry.default_model();
        agents.push(
            AiAgent {
                agent_type: AgentType::Planner,
                system_prompt: String::from_str("You break complex tasks into actionable plans."),
                model_name: planner.name,
                max_tokens: planner.max_tokens,
            },
        );
        MultiAgentRouter { agents }
    }

    /// The agent of a role.
    pub fn get(&self, agent: AgentType) -> (found: &AiAgent)
        requires
            self.wf(),
        ensures
            found@ == self.agent(agent),
            found.agent_type == agent,
    {
        let slot: usize = match agent {
            AgentType::General => 0,
            AgentType::Coder => 1,
            AgentType::Analyst => 2,
            AgentType::Planner => 3,
        };
        &self.agents[slot]
    }

    /// Routes a request: chooses the agent by keywords and says what that
    /// agent sends to the provider.
    pub fn route(&self, input: &str) -> (plan: (AgentType, InferenceCall))
        requires
            self.wf(),
        ensures
            plan.0 == routed_to(input@),
            plan.1.prompt@ == Seq::<char>::empty(),
            plan.1.model_name@ == self.agent(plan.0).model_name,
            plan.1.max_tokens == self.agent(plan.0).max_tokens,
    {
        let agent = select_agent(input);
        let call = self.get(agent).execute(input);
        (agent, call)
    }
}

/// Placeholder for an engine that lets a model judge its own answers.
#[derive(Debug, Clone, Copy, PartialEq, Eq, Structural)]
pub struct SelfReflectionEngine;

impl SelfReflectionEngine {
    pub fn new() -> (engine: SelfReflectionEngine)
        ensures
            engine == SelfReflectionEngine,
    {
        SelfReflectionEngine
    }
}

} // verus!
