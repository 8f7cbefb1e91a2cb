//! Detection of a tool call in an answer that is one JSON document.

use vstd::prelude::*;
use vstd::string::StringExecFns;
use crate::ai::json::{
    json_members_of, member, member_of, member_rendered, members_view, parse_members,
    rendered_of, JsonMember, Members,
};
use crate::event::event::copy_opt_text;

verus! {

/// The tool call that the members of a document make up: the member `tool`
/// has to be a string; arguments that are missing count as JSON `null`.
pub open spec fn tool_call_in(members: Members) -> Option<(Seq<char>, Seq<char>)> {
    match member_of(members, "tool"@) {
        Some(tool) => match tool.text {
            Some(name) => Some(
                (
                    name,
                    match rendered_of(members, "args"@) {
                        Some(args) => args,
                        None => "null"@,
                    },
                ),
            ),
            None => None,
        },
        None => None,
    }
}

/// The view of a detected call: its name and its arguments.
pub open spec fn pair_view(call: Option<(String, String)>) -> Option<(Seq<char>, Seq<char>)> {
    match call {
        Some(pair) => Some((pair.0@, pair.1@)),
        None => None,
    }
}

/// Detects a tool call in an answer: the whole answer has to be a JSON
/// object whose member `tool` is a string. Returns the tool's name and its
/// arguments as JSON text.
pub fn detect_tool_call(response: &str) -> (call: Option<(String, String)>)
    ensures
        pair_view(call) == tool_call_in(json_members_of(response@)),
{
    tool_call_among(&parse_members(response))
}

/// The tool call that the members of a document make up.
pub fn tool_call_among(members: &Vec<(String, JsonMember)>) -> (call: Option<(String, String)>)
    ensures
        pair_view(call) == tool_call_in(members_view(members@)),
{
    let name = match member(members, "tool") {
        Some(tool) => match copy_opt_text(&tool.text) {
            Some(name) => name,
            None => {
                return None;
            },
        },
        None => {
            return None;
        },
    };
    let args = match member_rendered(members, "args") {
        Some(text) => text,
        None => String::from_str("null"),
    };
    Some((name, args))
}

} // verus!
