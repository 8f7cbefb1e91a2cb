//! The allow-list of binaries and the commands that need approval.

use vstd::prelude::*;
use vstd::string::StringExecFns;
use crate::config::schema::AxonConfig;
use crate::text::{chars_of, contains, has_infix, lowercase_of, to_lowercase};

verus! {

/// Whether `bin` is one of `allowed`.
pub open spec fn listed(allowed: Seq<Seq<char>>, bin: Seq<char>) -> bool {
    exists|i: int| 0 <= i < allowed.len() && allowed[i] == bin
}

/// Whether the configuration allows a binary: it has to be on the list,
/// letter for letter.
pub fn is_allowed(bin: &str, config: &AxonConfig) -> (allowed: bool)
    ensures
        allowed == listed(config@.shell.allowed_commands, bin@),
{
    let key = String::from_str(bin);
    let list = &config.shell.allowed_commands;
    let mut i: usize = 0;
    while i < list.len()
        invariant
            i <= list.len(),
            list == &config.shell.allowed_commands,
            key@ == bin@,
            forall|j: int| 0 <= j < i ==> config@.shell.allowed_commands[j] != bin@,
        decreases list.len() - i,
    {
        if list[i] == key {
            assert(config@.shell.allowed_commands[i as int] == bin@);
            return true;
        }
        i += 1;
    }
    false
}

/// The arguments `args[from..]`, each with a space before it.
pub open spec fn spaced(args: Seq<Seq<char>>, from: int) -> Seq<char>
    decreases args.len() - from,
{
    if 0 <= from < args.len() {
        seq![' '] + args[from] + spaced(args, from + 1)
    } else {
        Seq::empty()
    }
}

/// The arguments with single spaces between them.
pub open spec fn joined(args: Seq<Seq<char>>) -> Seq<char> {
    if args.len() == 0 {
        Seq::empty()
    } else {
        args[0] + spaced(args, 1)
    }
}

/// A command line as it is matched: the command, a space, and the
/// arguments with single spaces between them.
pub open spec fn command_line(command: Seq<char>, args: Seq<Seq<char>>) -> Seq<char> {
    command + seq![' '] + joined(args)
}

/// Writes a command line out.
pub fn build_command_line(command: &str, args: &Vec<String>) -> (line: String)
    ensures
        line@ == command_line(command@, args.deep_view()),
{
    let ghost texts = args.deep_view();
    let mut line = String::from_str(command);
    line.append(" ");
    proof {
        reveal_strlit(" ");
        assert(" "@ =~= seq![' ']);
    }
    if args.len() == 0 {
        assert(line@ =~= command_line(command@, texts));
        return line;
    }
    line.append(args[0].as_str());
    let mut i: usize = 1;
    while i < args.len()
        invariant
            1 <= i <= args.len(),
            texts == args.deep_view(),
            " "@ == seq![' '],
            line@ + spaced(texts, i as int) == command_line(command@, texts),
        decreases args.len() - i,
    {
        let ghost before = line@;
        line.append(" ");
        line.append(args[i].as_str());
        assert(line@ + spaced(texts, i + 1) =~= before + spaced(texts, i as int));
        i += 1;
    }
    assert(line@ + spaced(texts, args.len() as int) =~= line@);
    line
}

/// Whether one of `patterns` occurs in `line`, letter for letter.
pub open spec fn any_occurs(patterns: Seq<Seq<char>>, line: Seq<char>) -> bool {
    exists|i: int| 0 <= i < patterns.len() && has_infix(line, #[trigger] patterns[i])
}

/// The lower-case forms of `texts`.
pub open spec fn lowered(texts: Seq<Seq<char>>) -> Seq<Seq<char>> {
    Seq::new(texts.len(), |i: int| lowercase_of(texts[i]))
}

/// Whether a pattern of the list occurs in the command line, both taken
/// in lower case.
pub open spec fn needs_approval(patterns: Seq<Seq<char>>, line: Seq<char>) -> bool {
    any_occurs(lowered(patterns), lowercase_of(line))
}

/// Whether one of `patterns` occurs in `line`, letter for letter.
pub fn occurs_any(patterns: &Vec<String>, line: &str) -> (found: bool)
    ensures
        found == any_occurs(patterns.deep_view(), line@),
{
    let full = chars_of(line);
    let ghost shown = patterns.deep_view();
    let mut i: usize = 0;
    while i < patterns.len()
        invariant
            i <= patterns.len(),
            shown == patterns.deep_view(),
            full@ == line@,
            forall|j: int| 0 <= j < i ==> !has_infix(line@, #[trigger] shown[j]),
        decreases patterns.len() - i,
    {
        assert(shown[i as int] == patterns[i as int]@);
        if contains(&full, &chars_of(patterns[i].as_str())) {
            assert(has_infix(line@, shown[i as int]));
            return true;
        }
        i += 1;
    }
    false
}

/// The lower-case form of each text.
pub fn lowercase_all(texts: &Vec<String>) -> (out: Vec<String>)
    ensures
        out.deep_view() == lowered(texts.deep_view()),
{
    let mut out: Vec<String> = Vec::new();
    let mut i: usize = 0;
    while i < texts.len()
        invariant
            i <= texts.len(),
            out.len() == i,
            forall|j: int| 0 <= j < i ==> out@[j]@ == lowercase_of(texts@[j]@),
        decreases texts.len() - i,
    {
        out.push(to_lowercase(texts[i].as_str()));
        i += 1;
    }
    assert(out.deep_view() =~= lowered(texts.deep_view()));
    out
}

/// Whether a command requires explicit approval: some configured pattern
/// occurs in its command line, letter case ignored.
pub fn requires_approval(command: &str, args: &Vec<String>, config: &AxonConfig) -> (needed: bool)
    ensures
        needed == needs_approval(
            config@.shell.require_approval_for,
            command_line(command@, args.deep_view()),
        ),
{
    let line = build_command_line(command, args);
    let full = to_lowercase(line.as_str());
    let patterns = lowercase_all(&config.shell.require_approval_for);
    occurs_any(&patterns, full.as_str())
}

} // verus!
