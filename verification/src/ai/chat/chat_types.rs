//! A chat session: an identifier and the messages exchanged so far.

use vstd::prelude::*;
use crate::event::event::CorrelationId;
use crate::kernel::correlation::{id_text, id_text_of, random_id};

verus! {

/// Who wrote a message.
#[derive(Debug, Clone, Copy, PartialEq, Eq, Structural)]
pub enum ChatRole {
    User,
    Assistant,
    System,
}

/// The messages of one conversation, oldest first.
#[derive(Debug, Clone, PartialEq, Eq)]
pub struct ChatSession {
    pub id: String,
    pub history: Vec<(ChatRole, String)>,
}

impl ChatSession {
    /// The history as pairs of role and text.
    pub open spec fn messages(&self) -> Seq<(ChatRole, Seq<char>)> {
        Seq::new(self.history@.len(), |i: int| (self.history@[i].0, self.history@[i].1@))
    }

    /// An empty session named by the written form of `id`.
    pub fn with_id(id: CorrelationId) -> (session: ChatSession)
        ensures
            session.id@ == id_text_of(id),
            session.messages() == Seq::<(ChatRole, Seq<char>)>::empty(),
    {
        let session = ChatSession { id: id_text(id), history: Vec::new() };
        assert(session.messages() =~= Seq::<(ChatRole, Seq<char>)>::empty());
        session
    }

    /// An empty session named by an identifier drawn at random.
    pub fn new() -> (session: ChatSession)
        ensures
            exists|id: CorrelationId| session.id@ == #[trigger] id_text_of(id),
            session.messages() == Seq::<(ChatRole, Seq<char>)>::empty(),
    {
        ChatSession::with_id(random_id())
    }

    /// Appends a message.
    pub fn push(&mut self, role: ChatRole, msg: String)
        ensures
            final(self).messages() == old(self).messages().push((role, msg@)),
            final(self).id == old(self).id,
    {
        self.history.push((role, msg));
        assert(self.messages() =~= old(self).messages().push((role, msg@)));
    }
}

} // verus!
