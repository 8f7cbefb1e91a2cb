//! Prompts, and the tool calls found in what a model answers.

use vstd::prelude::*;
use vstd::string::StringExecFns;
use crate::ai::json::{
    json_members_of, member_rendered, member_text, members_view, parse_members, rendered_of,
    text_of, JsonMember, Members,
};
use crate::event::event::opt_text;
use crate::text::{
    chars_of, find_char, first_index, from_chars, last_index, push_char, rfind_char, slice_of,
};

verus! {

/// A tool call as a model writes it: the tool's name and its arguments,
/// the arguments kept as JSON text.
#[derive(Debug, Clone, PartialEq, Eq)]
pub struct ToolCall {
    pub tool: String,
    pub args: String,
}

/// The part of `output` that may hold a JSON object: from the first `{` to
/// the last `}`, both included, if they occur in this order.
pub open spec fn candidate_of(output: Seq<char>) -> Option<Seq<char>> {
    if output.contains('{') && output.contains('}') && first_index(output, '{') < last_index(
        output,
        '}',
    ) {
        Some(output.subrange(first_index(output, '{'), last_index(output, '}') + 1))
    } else {
        None
    }
}

/// Cuts the part that may hold a JSON object out of a model's answer.
pub fn json_candidate(output: &str) -> (candidate: Option<String>)
    ensures
        opt_text(candidate) == candidate_of(output@),
{
    let chars = chars_of(output);
    let start = match find_char(&chars, '{') {
        Some(at) => at,
        None => {
            return None;
        },
    };
    let end = match rfind_char(&chars, '}') {
        Some(at) => at,
        None => {
            return None;
        },
    };
    if end <= start {
        return None;
    }
    let cut = slice_of(&chars, start, end + 1);
    Some(from_chars(&cut))
}

/// The tool call that the members of a document make up: the member
/// `tool` has to be a string, and a member `args` has to be there.
pub open spec fn tool_call_in(members: Members) -> Option<(Seq<char>, Seq<char>)> {
    match (text_of(members, "tool"@), rendered_of(members, "args"@)) {
        (Some(tool), Some(args)) => Some((tool, args)),
        _ => None,
    }
}

/// The tool call in a model's answer: the one that the members of the
/// JSON object between the first `{` and the last `}` make up.
pub open spec fn tool_call_of(output: Seq<char>) -> Option<(Seq<char>, Seq<char>)> {
    match candidate_of(output) {
        Some(text) => tool_call_in(json_members_of(text)),
        None => None,
    }
}

/// The view of a tool call: its name and its arguments.
pub open spec fn call_view(call: Option<ToolCall>) -> Option<(Seq<char>, Seq<char>)> {
    match call {
        Some(c) => Some((c.tool@, c.args@)),
        None => None,
    }
}

/// A tool call from what was read out of a document: both the tool's name
/// and the arguments have to be there.
pub fn tool_call_from(tool: Option<String>, args: Option<String>) -> (call: Option<ToolCall>)
    ensures
        call_view(call) == match (opt_text(tool), opt_text(args)) {
            (Some(t), Some(a)) => Some((t, a)),
            _ => None,
        },
{
    match (tool, args) {
        (Some(tool), Some(args)) => Some(ToolCall { tool, args }),
        _ => None,
    }
}

/// Detects a tool call in a model's answer: the text from the first `{` to
/// the last `}` has to be a JSON object with a string member `tool` and a
/// member `args`.
pub fn detect_tool_call(output: &str) -> (call: Option<ToolCall>)
    ensures
        call_view(call) == tool_call_of(output@),
{
    let text = match json_candidate(output) {
        Some(text) => text,
        None => {
            return None;
        },
    };
    tool_call_among(&parse_members(text.as_str()))
}

/// The tool call that the members of a document make up.
pub fn tool_call_among(members: &Vec<(String, JsonMember)>) -> (call: Option<ToolCall>)
    ensures
        call_view(call) == tool_call_in(members_view(members@)),
{
    let tool = member_text(members, "tool");
    let args = member_rendered(members, "args");
    tool_call_from(tool, args)
}

/// Builds a prompt line by line.
#[derive(Debug, Clone, Default)]
pub struct PromptBuilder {
    buf: String,
}

impl View for PromptBuilder {
    type V = Seq<char>;

    closed spec fn view(&self) -> Seq<char> {
        self.buf@
    }
}

impl PromptBuilder {
    /// An empty prompt.
    pub fn new() -> (builder: PromptBuilder)
        ensures
            builder@ == Seq::<char>::empty(),
    {
        PromptBuilder { buf: String::new() }
    }

    /// Adds a line: the text and a line feed.
    pub fn push_line(self, s: &str) -> (builder: PromptBuilder)
        ensures
            builder@ == self@ + s@ + seq!['\n'],
    {
        let mut buf = self.buf;
        buf.append(s);
        push_char(&mut buf, '\n');
        assert(buf@ =~= self@ + s@ + seq!['\n']);
        PromptBuilder { buf }
    }

    /// The prompt built so far.
    pub fn build(self) -> (prompt: String)
        ensures
            prompt@ == self@,
    {
        self.buf
    }
}

} // verus!
