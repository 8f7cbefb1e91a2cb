//! Streaming of a model's answer, token by token.

use vstd::prelude::*;
use vstd::string::StringExecFns;
use crate::ai::json::{
    json_members_of, member_text, members_view, parse_members, text_of, JsonMember,
};
use crate::event::event::opt_text;
use crate::text::{chars_of, from_chars, lines_from, lines_of, texts_of};

verus! {

/// The texts of `parts` one after another.
pub open spec fn concat_all(parts: Seq<Seq<char>>) -> Seq<char>
    decreases parts.len(),
{
    if parts.len() == 0 {
        Seq::empty()
    } else {
        concat_all(parts.drop_last()) + parts.last()
    }
}

/// The token that a line of the stream carries: the string member
/// `response` of the JSON object it is.
pub open spec fn token_in(line: Seq<char>) -> Option<Seq<char>> {
    text_of(json_members_of(line), "response"@)
}

/// The tokens that the lines `lines[from..]` carry, in order: one token for
/// each line that carries one, none for the others.
pub open spec fn token_list(lines: Seq<Seq<char>>, from: int) -> Seq<Seq<char>>
    decreases lines.len() - from,
{
    if 0 <= from < lines.len() {
        (match token_in(lines[from]) {
            Some(text) => seq![text],
            None => Seq::empty(),
        }) + token_list(lines, from + 1)
    } else {
        Seq::empty()
    }
}

/// The token that the members of a line make up: the text of the string
/// member `response`.
pub fn token_among(members: &Vec<(String, JsonMember)>) -> (token: Option<String>)
    ensures
        opt_text(token) == text_of(members_view(members@), "response"@),
{
    member_text(members, "response")
}

/// Collects the answer that a provider streams.
#[derive(Debug, Clone, Default)]
pub struct StreamingEngine {
    full_output: String,
}

impl View for StreamingEngine {
    type V = Seq<char>;

    closed spec fn view(&self) -> Seq<char> {
        self.full_output@
    }
}

impl StreamingEngine {
    /// An engine that has collected nothing yet.
    pub fn new() -> (engine: StreamingEngine)
        ensures
            engine@ == Seq::<char>::empty(),
    {
        StreamingEngine { full_output: String::new() }
    }

    /// Adds one token to the answer.
    pub fn accept(&mut self, token: &str)
        ensures
            final(self)@ == old(self)@ + token@,
    {
        self.full_output.append(token);
    }

    /// Takes one line of the stream: if it is a JSON object with a string
    /// member `response`, that text is added to the answer and returned.
    pub fn accept_line(&mut self, line: &str) -> (token: Option<String>)
        ensures
            opt_text(token) == token_in(line@),
            final(self)@ == old(self)@ + match token_in(line@) {
                Some(text) => text,
                None => Seq::empty(),
            },
    {
        let token = token_among(&parse_members(line));
        match &token {
            Some(text) => {
                self.accept(text.as_str());
            },
            None => {
                assert(self@ + Seq::<char>::empty() =~= self@);
            },
        }
        token
    }

    /// Takes one chunk of the stream, line by line, and returns the tokens
    /// found in it: exactly one for each line that carries one, in the
    /// order of the lines. The answer grows by exactly these tokens.
    pub fn accept_chunk(&mut self, chunk: &str) -> (tokens: Vec<String>)
        ensures
            tokens.deep_view() == token_list(lines_from(chunk@, 0), 0),
            final(self)@ == old(self)@ + concat_all(tokens.deep_view()),
    {
        let lines = lines_of(&chars_of(chunk));
        let mut tokens: Vec<String> = Vec::new();
        let ghost start = self@;
        let ghost texts = texts_of(lines@);
        let mut i: usize = 0;
        proof {
            assert(tokens.deep_view() =~= Seq::<Seq<char>>::empty());
            assert(start + concat_all(tokens.deep_view()) =~= start);
            assert(tokens.deep_view() + token_list(texts, 0) =~= token_list(texts, 0));
        }
        while i < lines.len()
            invariant
                i <= lines.len(),
                texts == texts_of(lines@),
                self@ == start + concat_all(tokens.deep_view()),
                tokens.deep_view() + token_list(texts, i as int) == token_list(texts, 0),
            decreases lines.len() - i,
        {
            let line = from_chars(&lines[i]);
            let ghost before = tokens.deep_view();
            assert(line@ == texts[i as int]);
            match self.accept_line(line.as_str()) {
                Some(token) => {
                    tokens.push(token);
                    proof {
                        let after = tokens.deep_view();
                        assert(after =~= before.push(token@));
                        assert(after.drop_last() =~= before);
                        assert(start + (concat_all(before) + after.last()) =~= start + concat_all(
                            before,
                        ) + after.last());
                        assert(before + (seq![token@] + token_list(texts, i + 1)) =~= after
                            + token_list(texts, i + 1));
                    }
                },
                None => {
                    assert(before + (Seq::<Seq<char>>::empty() + token_list(texts, i + 1))
                        =~= before + token_list(texts, i + 1));
                },
            }
            i += 1;
        }
        assert(tokens.deep_view() + token_list(texts, lines.len() as int) =~= tokens.deep_view());
        tokens
    }

    /// The answer collected so far.
    pub fn finish(self) -> (output: String)
        ensures
            output@ == self@,
    {
        self.full_output
    }
}

/// Placeholder for a router of tool calls.
#[derive(Debug, Clone, Copy, PartialEq, Eq, Structural)]
pub struct ToolRouter;

impl ToolRouter {
    pub fn new() -> (router: ToolRouter)
        ensures
            router == ToolRouter,
    {
        ToolRouter
    }
}

} // verus!
