//! Classification of incoming text commands.
//!
//! Free text is classified by keywords: a command is recognised by the word
//! it starts with or by a keyword it holds, after lower-casing and after
//! leading slashes and surrounding white space are dropped. Chat messages
//! go by a stricter grammar of exact command words.

use vstd::prelude::*;
use vstd::string::StringExecFns;
use crate::event::event::opt_text;
use crate::text::{
    chars_of, contains, ends_with, first_word, first_word_of, from_chars, has_infix, has_prefix,
    has_suffix, longer_than, lowercase_of, starts_with, to_lowercase, trim, trim_start_matches,
    trimmed, utf8_len, without_leading,
};

verus! {

/// What a text command asks for.
#[derive(Debug, Clone, Copy, PartialEq, Eq, Structural)]
pub enum CommandClass {
    Build,
    Status,
    AiQuery,
    RagSearch,
    Unknown,
}

/// The text that the keywords are looked up in: the lower-case form of
/// the input without leading slashes and surrounding white space.
pub open spec fn normalized(lowered: Seq<char>) -> Seq<char> {
    trimmed(without_leading(lowered, '/'))
}

/// A build command.
pub open spec fn is_build(t: Seq<char>) -> bool {
    ||| has_prefix(t, "build"@)
    ||| has_prefix(t, "cargo"@)
    ||| has_infix(t, "compile"@)
    ||| has_infix(t, "rebuild"@)
}

/// A status query.
pub open spec fn is_status(t: Seq<char>) -> bool {
    ||| has_prefix(t, "status"@)
    ||| has_prefix(t, "stat"@)
    ||| has_infix(t, "worker"@)
    ||| has_infix(t, "health"@)
}

/// A search of the indexed knowledge.
pub open spec fn is_search(t: Seq<char>) -> bool {
    ||| has_prefix(t, "search"@)
    ||| has_prefix(t, "find"@)
    ||| has_prefix(t, "rag"@)
    ||| has_infix(t, "lookup"@)
}

/// A question or a natural sentence: it ends with a question mark, holds a
/// space, or takes more than twenty bytes.
pub open spec fn is_sentence(t: Seq<char>) -> bool {
    ||| has_suffix(t, "?"@)
    ||| has_infix(t, " "@)
    ||| utf8_len(t) > 20
}

/// The class of a command, given its lower-case form. Blank input is
/// unknown; otherwise the first rule that matches the normalized text wins,
/// in the order build, status, search, sentence.
pub open spec fn classify_with(input: Seq<char>, lowered: Seq<char>) -> CommandClass {
    let t = normalized(lowered);
    if trimmed(input).len() == 0 {
        CommandClass::Unknown
    } else if is_build(t) {
        CommandClass::Build
    } else if is_status(t) {
        CommandClass::Status
    } else if is_search(t) {
        CommandClass::RagSearch
    } else if is_sentence(t) {
        CommandClass::AiQuery
    } else {
        CommandClass::Unknown
    }
}

/// The class of a command.
pub open spec fn classify(input: Seq<char>) -> CommandClass {
    classify_with(input, lowercase_of(input))
}

/// The command word of a chat message: the command that the transport
/// split off, if it did, else the first word of the text.
pub open spec fn command_word(text: Seq<char>, command: Option<Seq<char>>) -> Seq<char> {
    match command {
        Some(word) => word,
        None => first_word(text),
    }
}

/// The command that a command word stands for in the chat grammar:
/// `/build` and `/status`, letter for letter; any other word is unknown.
pub open spec fn chat_class(word: Seq<char>) -> CommandClass {
    if word == "/build"@ {
        CommandClass::Build
    } else if word == "/status"@ {
        CommandClass::Status
    } else {
        CommandClass::Unknown
    }
}

/// Parses a chat message by the chat grammar.
pub fn chat_command(text: &str, command: &Option<String>) -> (class: CommandClass)
    ensures
        class == chat_class(command_word(text@, opt_text(*command))),
{
    let word = match command {
        Some(word) => word.clone(),
        None => from_chars(&first_word_of(&chars_of(text))),
    };
    if word == String::from_str("/build") {
        CommandClass::Build
    } else if word == String::from_str("/status") {
        CommandClass::Status
    } else {
        CommandClass::Unknown
    }
}

/// Whether any of two prefixes or two keywords matches.
fn matches_rule(
    t: &Vec<char>,
    first: &str,
    second: &str,
    third: &str,
    keyword: &str,
    third_is_prefix: bool,
) -> (b: bool)
    ensures
        b == (has_prefix(t@, first@) || has_prefix(t@, second@) || (if third_is_prefix {
            has_prefix(t@, third@)
        } else {
            has_infix(t@, third@)
        }) || has_infix(t@, keyword@)),
{
    let a = chars_of(first);
    if starts_with(t, &a) {
        return true;
    }
    let b = chars_of(second);
    if starts_with(t, &b) {
        return true;
    }
    let c = chars_of(third);
    if third_is_prefix {
        if starts_with(t, &c) {
            return true;
        }
    } else {
        if contains(t, &c) {
            return true;
        }
    }
    let d = chars_of(keyword);
    contains(t, &d)
}

/// Classifies raw user input into a command category.
pub fn classify_command(input: &str) -> (class: CommandClass)
    ensures
        class == classify(input@),
{
    let lowered = to_lowercase(input);
    classify_lowered(input, lowered.as_str())
}

/// Classifies raw user input, given its lower-case form.
pub fn classify_lowered(input: &str, lowered: &str) -> (class: CommandClass)
    ensures
        class == classify_with(input@, lowered@),
{
    let raw = chars_of(input);
    if trim(&raw).len() == 0 {
        return CommandClass::Unknown;
    }
    let lowered = chars_of(lowered);
    let t = trim(&trim_start_matches(&lowered, '/'));
    if matches_rule(&t, "build", "cargo", "compile", "rebuild", false) {
        return CommandClass::Build;
    }
    if matches_rule(&t, "status", "stat", "worker", "health", false) {
        return CommandClass::Status;
    }
    if matches_rule(&t, "search", "find", "rag", "lookup", true) {
        return CommandClass::RagSearch;
    }
    let mark = chars_of("?");
    let space = chars_of(" ");
    if ends_with(&t, &mark) || contains(&t, &space) || longer_than(&t, 20) {
        return CommandClass::AiQuery;
    }
    CommandClass::Unknown
}

} // verus!
