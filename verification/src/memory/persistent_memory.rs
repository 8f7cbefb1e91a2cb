//! What is kept of a conversation between runs.

use vstd::prelude::*;
use crate::event::event::CorrelationId;

verus! {

/// The entries of one conversation.
#[derive(Debug, Clone, PartialEq, Eq)]
pub struct DiskMemory {
    pub conversation_id: CorrelationId,
    pub entries: Vec<String>,
}

impl DiskMemory {
    /// A memory without entries.
    pub fn new(conversation_id: CorrelationId) -> (memory: DiskMemory)
        ensures
            memory.conversation_id == conversation_id,
            memory.entries@.len() == 0,
    {
        DiskMemory { conversation_id, entries: Vec::new() }
    }

    /// Appends an entry.
    pub fn remember(&mut self, entry: String)
        ensures
            final(self).entries@ == old(self).entries@.push(entry),
            final(self).conversation_id == old(self).conversation_id,
    {
        self.entries.push(entry);
    }
}

} // verus!
