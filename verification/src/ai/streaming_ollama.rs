//! Letting a model judge an answer.

use vstd::prelude::*;
use vstd::string::StringExecFns;
use crate::ai::json::{
    flag_of, json_members_of, member_flag, member_text, members_view, parse_members, text_of,
    JsonMember,
};
use crate::event::event::opt_text;

verus! {

/// Tokens granted to the judging model.
pub const REFLECTION_MAX_TOKENS: u32 = 512;

/// The verdict of the judging model, without its confidence score.
#[derive(Debug, Clone, PartialEq, Eq)]
pub struct ReflectionVerdict {
    pub reasoning: String,
    pub should_retry: bool,
}

/// The prompt that asks a model to judge an answer.
pub open spec fn reflection_prompt_of(question: Seq<char>, answer: Seq<char>) -> Seq<
    char,
> {
    "You are evaluating an AI response.\n\nOriginal prompt:\n"@ + question
        + "\n\nAI response:\n"@ + answer
        + "\n\nEvaluate:\n1. Is the answer logically correct?\n2. Does it contain hallucinations?\n3. Rate confidence from 0.0 to 1.0\n4. Should it be retried?\nRespond strictly in JSON:\n{\"confidence\":0.0,\"retry\":false,\"reason\":\"...\"}"@
}

/// Builds the prompt that asks a model to judge an answer.
pub fn reflection_prompt(question: &str, answer: &str) -> (prompt: String)
    ensures
        prompt@ == reflection_prompt_of(question@, answer@),
{
    let mut prompt = String::from_str("You are evaluating an AI response.\n\nOriginal prompt:\n");
    prompt.append(question);
    prompt.append("\n\nAI response:\n");
    prompt.append(answer);
    prompt.append(
        "\n\nEvaluate:\n1. Is the answer logically correct?\n2. Does it contain hallucinations?\n3. Rate confidence from 0.0 to 1.0\n4. Should it be retried?\nRespond strictly in JSON:\n{\"confidence\":0.0,\"retry\":false,\"reason\":\"...\"}",
    );
    prompt
}

/// Mathematical view of [`ReflectionVerdict`].
pub struct VerdictView {
    pub reasoning: Seq<char>,
    pub should_retry: bool,
}

impl View for ReflectionVerdict {
    type V = VerdictView;

    open spec fn view(&self) -> VerdictView {
        VerdictView { reasoning: self.reasoning@, should_retry: self.should_retry }
    }
}

/// The verdict that a flag and a reason make up: no retry unless the flag
/// asks for one, and a stock reason if none is given.
pub open spec fn verdict_of(retry: Option<bool>, reason: Option<Seq<char>>) -> VerdictView {
    VerdictView {
        should_retry: match retry {
            Some(flag) => flag,
            None => false,
        },
        reasoning: match reason {
            Some(text) => text,
            None => "No reasoning provided"@,
        },
    }
}

/// The verdict from what was read out of the judging model's answer.
pub fn verdict_from(retry: Option<bool>, reason: Option<String>) -> (verdict: ReflectionVerdict)
    ensures
        verdict@ == verdict_of(retry, opt_text(reason)),
{
    let should_retry = match retry {
        Some(flag) => flag,
        None => false,
    };
    let reasoning = match reason {
        Some(text) => text,
        None => String::from_str("No reasoning provided"),
    };
    ReflectionVerdict { reasoning, should_retry }
}

/// Reads the verdict out of the judging model's answer: the boolean member
/// `retry` and the string member `reason` of the JSON object it is. An
/// answer that is no JSON object gives neither.
pub fn read_verdict(answer: &str) -> (verdict: ReflectionVerdict)
    ensures
        verdict@ == verdict_of(
            flag_of(json_members_of(answer@), "retry"@),
            text_of(json_members_of(answer@), "reason"@),
        ),
{
    verdict_among(&parse_members(answer))
}

/// The verdict that the members of a document make up.
pub fn verdict_among(members: &Vec<(String, JsonMember)>) -> (verdict: ReflectionVerdict)
    ensures
        verdict@ == verdict_of(
            flag_of(members_view(members@), "retry"@),
            text_of(members_view(members@), "reason"@),
        ),
{
    verdict_from(member_flag(members, "retry"), member_text(members, "reason"))
}

/// Placeholder for an engine that streams a model's answer.
#[derive(Debug, Clone, Copy, PartialEq, Eq, Structural)]
pub struct StreamingEngine;

impl StreamingEngine {
    pub fn new() -> (engine: StreamingEngine)
        ensures
            engine == StreamingEngine,
    {
        StreamingEngine
    }
}

/// Asks a model to judge answers.
#[derive(Debug, Clone, Copy, PartialEq, Eq, Structural)]
pub struct SelfReflectionEngine;

impl SelfReflectionEngine {
    pub fn new() -> (engine: SelfReflectionEngine)
        ensures
            engine == SelfReflectionEngine,
    {
        SelfReflectionEngine
    }
}

} // verus!
