//! What the model is asked when code is to be fixed.

use vstd::prelude::*;
use vstd::string::StringExecFns;
use crate::ai::model_router::{canned_answer, route_and_query as ask_router};
use crate::text::{chars_of, contains, has_infix};

verus! {

/// Answers a prompt as the model router does.
pub fn route_and_query(prompt: &str) -> (answer: String)
    ensures
        answer@ == canned_answer(prompt@),
{
    ask_router(prompt)
}

/// The prompt that asks for a fix.
pub open spec fn fix_prompt(code: Seq<char>, instruction: Seq<char>) -> Seq<char> {
    "Code:\n"@ + code + "\n\nInstruction: "@ + instruction
}

/// Builds the prompt that asks for a fix.
pub fn build_fix_prompt(code: &str, instruction: &str) -> (prompt: String)
    ensures
        prompt@ == fix_prompt(code@, instruction@),
{
    let mut prompt = String::from_str("Code:\n");
    prompt.append(code);
    prompt.append("\n\nInstruction: ");
    prompt.append(instruction);
    prompt
}

/// Asks for a fix of the code.
pub fn suggest_fix(code: &str, instruction: &str) -> (answer: String)
    ensures
        answer@ == canned_answer(fix_prompt(code@, instruction@)),
{
    let prompt = build_fix_prompt(code, instruction);
    route_and_query(prompt.as_str())
}

/// The prompt that asks whether a fix is valid.
pub open spec fn validation_prompt(code: Seq<char>, fix: Seq<char>) -> Seq<char> {
    "Code: "@ + code + "\nFix: "@ + fix + "\nIs this valid? Reply ONLY with VALID or INVALID"@
}

/// Builds the prompt that asks whether a fix is valid.
pub fn build_validation_prompt(code: &str, fix: &str) -> (prompt: String)
    ensures
        prompt@ == validation_prompt(code@, fix@),
{
    let mut prompt = String::from_str("Code: ");
    prompt.append(code);
    prompt.append("\nFix: ");
    prompt.append(fix);
    prompt.append("\nIs this valid? Reply ONLY with VALID or INVALID");
    prompt
}

/// Whether an answer accepts the fix: it holds the word `VALID`.
pub fn accepts_fix(answer: &str) -> (valid: bool)
    ensures
        valid == has_infix(answer@, "VALID"@),
{
    contains(&chars_of(answer), &chars_of("VALID"))
}

/// Asks whether a fix is valid and reads the answer.
pub fn validate_fix(code: &str, fix: &str) -> (valid: bool)
    ensures
        valid == has_infix(canned_answer(validation_prompt(code@, fix@)), "VALID"@),
{
    let prompt = build_validation_prompt(code, fix);
    let answer = route_and_query(prompt.as_str());
    accepts_fix(answer.as_str())
}

} // verus!
