//! Commands found in the log.
//!
//! A log line that holds the marker `COMMANDER_INPUT:` carries a task for
//! the commander: the text after the last marker, without surrounding
//! white space.

use vstd::prelude::*;
use crate::text::{
    chars_of, from_chars, has_infix, is_last_occurrence, occurs_at, rfind, slice_of, trim,
    trimmed,
};

verus! {

/// The marker that announces a task.
pub open spec fn marker() -> Seq<char> {
    "COMMANDER_INPUT:"@
}

/// `payload` is what the line carries: the text after the last marker,
/// trimmed.
pub open spec fn is_payload(line: Seq<char>, payload: Seq<char>) -> bool {
    exists|at: int|
        #[trigger] is_last_occurrence(line, marker(), at) && payload == trimmed(
            line.subrange(at + marker().len(), line.len() as int),
        )
}

/// The task text that a log line carries, if it holds the marker.
pub fn commander_payload(line: &str) -> (payload: Option<String>)
    ensures
        payload is Some == has_infix(line@, marker()),
        payload matches Some(text) ==> is_payload(line@, text@),
{
    let chars = chars_of(line);
    let mark = chars_of("COMMANDER_INPUT:");
    match rfind(&chars, &mark) {
        Some(at) => {
            assert(occurs_at(chars@, mark@, at as int));
            let end = chars.len();
            let rest = slice_of(&chars, at + mark.len(), end);
            let text = from_chars(&trim(&rest));
            assert(is_last_occurrence(line@, marker(), at as int));
            Some(text)
        },
        None => None,
    }
}

} // verus!
