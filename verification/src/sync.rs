//! Multiplayer world synchronisation: the outgoing message queue and the
//! version count of every chunk.

use vstd::prelude::*;
use std::collections::HashMap;
use crate::math::{ChunkPos, chunk_key, spec_chunk_key, law_chunk_key_injective};

verus! {

broadcast use vstd::std_specs::hash::group_hash_axioms;

/// The synchronisation state: messages waiting to be sent, of type `M`, and
/// how often each chunk has changed.
pub struct SyncManager<M> {
    pending_messages: Vec<M>,
    chunk_version: HashMap<u64, u64>,
}

impl<M> SyncManager<M> {
    /// The messages waiting to be sent, oldest first.
    pub closed spec fn pending(&self) -> Seq<M> {
        self.pending_messages@
    }

    /// The version of chunk `c`: how many changes were applied to it.
    pub closed spec fn version(&self, c: ChunkPos) -> u64 {
        if self.chunk_version@.contains_key(spec_chunk_key(c)) {
            self.chunk_version@[spec_chunk_key(c)]
        } else {
            0
        }
    }

    /// No pending messages, every chunk at version 0.
    pub fn new() -> (s: Self)
        ensures
            s.pending() == Seq::<M>::empty(),
            forall|c: ChunkPos| s.version(c) == 0,
    {
        SyncManager { pending_messages: Vec::new(), chunk_version: HashMap::new() }
    }

    /// Queues a message.
    pub fn queue(&mut self, msg: M)
        ensures
            final(self).pending() == old(self).pending().push(msg),
            forall|c: ChunkPos| final(self).version(c) == old(self).version(c),
    {
        self.pending_messages.push(msg);
    }

    /// Takes every pending message, leaving none.
    pub fn get_pending(&mut self) -> (out: Vec<M>)
        ensures
            out@ == old(self).pending(),
            final(self).pending() == Seq::<M>::empty(),
            forall|c: ChunkPos| final(self).version(c) == old(self).version(c),
    {
        let mut out: Vec<M> = Vec::new();
        std::mem::swap(&mut out, &mut self.pending_messages);
        out
    }

    /// Counts one more change of chunk `pos`.
    pub fn update_chunk_version(&mut self, pos: ChunkPos)
        requires
            old(self).version(pos) < u64::MAX,
        ensures
            final(self).pending() == old(self).pending(),
            forall|c: ChunkPos| #[trigger] final(self).version(c)
                == (if c == pos { (old(self).version(c) + 1) as u64 } else { old(self).version(c) }),
    {
        let key = chunk_key(pos);
        let current = match self.chunk_version.get(&key) {
            Some(v) => *v,
            None => 0,
        };
        self.chunk_version.insert(key, current + 1);
        proof {
            assert forall|c: ChunkPos| #[trigger] self.version(c)
                == (if c == pos { (old(self).version(c) + 1) as u64 } else { old(self).version(c) }) by {
                law_chunk_key_injective(c, pos);
            }
        }
    }

    /// The version of chunk `pos`.
    pub fn get_chunk_version(&self, pos: &ChunkPos) -> (v: u64)
        ensures
            v == self.version(*pos),
    {
        let key = chunk_key(*pos);
        match self.chunk_version.get(&key) {
            Some(v) => *v,
            None => 0,
        }
    }

    /// Applies a received message that touched chunk `touched` (a whole
    /// chunk, or a block of it); messages that touch no chunk change nothing.
    pub fn apply(&mut self, touched: Option<ChunkPos>)
        requires
            touched matches Some(c) ==> old(self).version(c) < u64::MAX,
        ensures
            final(self).pending() == old(self).pending(),
            forall|c: ChunkPos| #[trigger] final(self).version(c)
                == (if touched == Some(c) { (old(self).version(c) + 1) as u64 } else { old(self).version(c) }),
    {
        match touched {
            Some(pos) => self.update_chunk_version(pos),
            None => {},
        }
    }
}

impl<M> Default for SyncManager<M> {
    fn default() -> (s: Self)
        ensures
            s.pending() == Seq::<M>::empty(),
            forall|c: ChunkPos| s.version(c) == 0,
    {
        SyncManager::new()
    }
}

} // verus!
