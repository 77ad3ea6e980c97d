//! Game events: what the systems tell each other.

use vstd::prelude::*;
use crate::entity::EntityId;
use crate::math::BlockPos;
use crate::audio::str_eq;

verus! {

/// Something that happened in the game, known by its name.
pub trait Event {
    /// The name listeners subscribe under.
    fn event_name(&self) -> &'static str;
}

/// The listeners filed under event name `name` in `entries`: those of the
/// first entry with that name, none if there is no such entry.
pub open spec fn subscribed<L>(entries: Seq<(String, Vec<L>)>, name: Seq<char>) -> Seq<L>
    decreases entries.len(),
{
    if entries.len() == 0 {
        Seq::empty()
    } else if entries[0].0@ == name {
        entries[0].1@
    } else {
        subscribed(entries.drop_first(), name)
    }
}

proof fn lemma_subscribed_at<L>(entries: Seq<(String, Vec<L>)>, i: int, name: Seq<char>)
    requires
        0 <= i < entries.len(),
        entries[i].0@ == name,
        forall|j: int| 0 <= j < i ==> (#[trigger] entries[j]).0@ != name,
    ensures
        subscribed(entries, name) == entries[i].1@,
    decreases i,
{
    if i > 0 {
        assert forall|j: int| 0 <= j < i - 1 implies (#[trigger] entries.drop_first()[j]).0@ != name by {
            assert(entries[j + 1].0@ != name);
        }
        lemma_subscribed_at(entries.drop_first(), i - 1, name);
        assert(entries[0].0@ != name);
    }
}

proof fn lemma_subscribed_none<L>(entries: Seq<(String, Vec<L>)>, name: Seq<char>)
    requires
        forall|j: int| 0 <= j < entries.len() ==> (#[trigger] entries[j]).0@ != name,
    ensures
        subscribed(entries, name) == Seq::<L>::empty(),
    decreases entries.len(),
{
    if entries.len() > 0 {
        assert forall|j: int| 0 <= j < entries.drop_first().len() implies (#[trigger] entries.drop_first()[j]).0@ != name by {
            assert(entries[j + 1].0@ != name);
        }
        lemma_subscribed_none(entries.drop_first(), name);
        assert(entries[0].0@ != name);
    }
}

proof fn lemma_subscribed_update<L>(entries: Seq<(String, Vec<L>)>, i: int, x: (String, Vec<L>), name: Seq<char>)
    requires
        0 <= i < entries.len(),
        entries[i].0@ == x.0@,
        forall|j: int| 0 <= j < i ==> (#[trigger] entries[j]).0@ != x.0@,
    ensures
        subscribed(entries.update(i, x), name) == if name == x.0@ { x.1@ } else { subscribed(entries, name) },
    decreases i,
{
    if i > 0 {
        assert(entries.update(i, x).drop_first() =~= entries.drop_first().update(i - 1, x));
        assert forall|j: int| 0 <= j < i - 1 implies (#[trigger] entries.drop_first()[j]).0@ != x.0@ by {
            assert(entries[j + 1].0@ != x.0@);
        }
        lemma_subscribed_update(entries.drop_first(), i - 1, x, name);
        assert(entries[0].0@ != x.0@);
    } else {
        assert(entries.update(i, x).drop_first() =~= entries.drop_first());
    }
}

proof fn lemma_subscribed_push<L>(entries: Seq<(String, Vec<L>)>, x: (String, Vec<L>), name: Seq<char>)
    requires
        forall|j: int| 0 <= j < entries.len() ==> (#[trigger] entries[j]).0@ != x.0@,
    ensures
        subscribed(entries.push(x), name) == if name == x.0@ { x.1@ } else { subscribed(entries, name) },
    decreases entries.len(),
{
    if entries.len() > 0 {
        assert(entries.push(x).drop_first() =~= entries.drop_first().push(x));
        assert forall|j: int| 0 <= j < entries.drop_first().len() implies (#[trigger] entries.drop_first()[j]).0@ != x.0@ by {
            assert(entries[j + 1].0@ != x.0@);
        }
        lemma_subscribed_push(entries.drop_first(), x, name);
        assert(entries[0].0@ != x.0@);
        assert(entries.push(x)[0] == entries[0]);
    } else {
        assert(entries.push(x).drop_first() =~= Seq::<(String, Vec<L>)>::empty());
        assert(entries.push(x)[0] == x);
        assert(subscribed(Seq::<(String, Vec<L>)>::empty(), name) == Seq::<L>::empty());
        assert(subscribed(entries, name) == Seq::<L>::empty());
    }
}

/// Listeners (`L`, the game's callbacks) filed by the name of the event
/// they listen to, each name's in the order they subscribed.
pub struct EventBus<L> {
    listeners: Vec<(String, Vec<L>)>,
}

impl<L> EventBus<L> {
    /// The listeners of events called `name`, in subscription order.
    pub closed spec fn subscribers(&self, name: Seq<char>) -> Seq<L> {
        subscribed(self.listeners@, name)
    }

    /// A bus without listeners.
    pub fn new() -> (b: Self)
        ensures
            forall|name: Seq<char>| #[trigger] b.subscribers(name) == Seq::<L>::empty(),
    {
        EventBus { listeners: Vec::new() }
    }

    /// The index of the first entry for `name`.
    fn find(&self, name: &str) -> (r: Option<usize>)
        ensures
            match r {
                Some(i) => i < self.listeners.len() && self.listeners@[i as int].0@ == name@
                    && forall|j: int| 0 <= j < i ==> (#[trigger] self.listeners@[j]).0@ != name@,
                None => forall|j: int| 0 <= j < self.listeners.len() ==> (#[trigger] self.listeners@[j]).0@ != name@,
            },
    {
        let mut i: usize = 0;
        while i < self.listeners.len()
            invariant
                i <= self.listeners.len(),
                forall|j: int| 0 <= j < i ==> (#[trigger] self.listeners@[j]).0@ != name@,
            decreases self.listeners.len() - i,
        {
            if str_eq(self.listeners[i].0.as_str(), name) {
                return Some(i);
            }
            i = i + 1;
        }
        None
    }

    /// Adds `callback` after the listeners of events called `event_name`.
    pub fn subscribe(&mut self, event_name: &str, callback: L)
        ensures
            forall|name: Seq<char>| #[trigger] final(self).subscribers(name) == if name == event_name@ {
                old(self).subscribers(name).push(callback)
            } else {
                old(self).subscribers(name)
            },
    {
        match self.find(event_name) {
            Some(i) => {
                let ghost before = self.listeners@;
                let mut entry = self.listeners.remove(i);
                proof {
                    lemma_subscribed_at(before, i as int, event_name@);
                }
                entry.1.push(callback);
                let ghost updated = entry;
                self.listeners.insert(i, entry);
                proof {
                    assert(self.listeners@ =~= before.update(i as int, updated));
                    assert forall|name: Seq<char>| #[trigger] self.subscribers(name) == if name == event_name@ {
                        old(self).subscribers(name).push(callback)
                    } else {
                        old(self).subscribers(name)
                    } by {
                        lemma_subscribed_update(before, i as int, updated, name);
                    }
                }
            },
            None => {
                let ghost before = self.listeners@;
                let mut list: Vec<L> = Vec::new();
                list.push(callback);
                let entry = (event_name.to_owned(), list);
                let ghost added = entry;
                self.listeners.push(entry);
                proof {
                    lemma_subscribed_none(before, event_name@);
                    assert forall|name: Seq<char>| #[trigger] self.subscribers(name) == if name == event_name@ {
                        old(self).subscribers(name).push(callback)
                    } else {
                        old(self).subscribers(name)
                    } by {
                        lemma_subscribed_push(before, added, name);
                        assert(Seq::<L>::empty().push(callback) =~= seq![callback]);
                    }
                }
            },
        }
    }

    /// The listeners to call, in order, when an event called `event_name` is
    /// published.
    pub fn listeners(&self, event_name: &str) -> (r: &[L])
        ensures
            r@ == self.subscribers(event_name@),
    {
        match self.find(event_name) {
            Some(i) => {
                proof {
                    lemma_subscribed_at(self.listeners@, i as int, event_name@);
                }
                self.listeners[i].1.as_slice()
            },
            None => {
                proof {
                    lemma_subscribed_none(self.listeners@, event_name@);
                }
                &[]
            },
        }
    }
}

impl<L> Default for EventBus<L> {
    fn default() -> (b: Self)
        ensures
            forall|name: Seq<char>| #[trigger] b.subscribers(name) == Seq::<L>::empty(),
    {
        Self::new()
    }
}

#[verifier::external_type_specification]
#[verifier::external_body]
pub struct ExTypeId(std::any::TypeId);

/// The type identity of an event.
#[derive(Debug, Clone, Copy, PartialEq, Eq, Hash)]
pub struct EventTypeId(pub std::any::TypeId);

/// A player joined the game.
#[derive(Debug, Clone)]
pub struct PlayerJoinedEvent {
    pub entity_id: EntityId,
    pub username: String,
}

impl PlayerJoinedEvent {
    pub fn new(entity_id: EntityId, username: String) -> (e: Self)
        ensures
            e.entity_id == entity_id,
            e.username@ == username@,
    {
        PlayerJoinedEvent { entity_id, username }
    }
}

impl Event for PlayerJoinedEvent {
    fn event_name(&self) -> (n: &'static str)
        ensures
            n@ == "player_joined"@,
    {
        "player_joined"
    }
}

/// A player left the game.
#[derive(Debug, Clone)]
pub struct PlayerLeftEvent {
    pub entity_id: EntityId,
    pub username: String,
}

impl PlayerLeftEvent {
    pub fn new(entity_id: EntityId, username: String) -> (e: Self)
        ensures
            e.entity_id == entity_id,
            e.username@ == username@,
    {
        PlayerLeftEvent { entity_id, username }
    }
}

impl Event for PlayerLeftEvent {
    fn event_name(&self) -> (n: &'static str)
        ensures
            n@ == "player_left"@,
    {
        "player_left"
    }
}

/// A block was broken.
#[derive(Debug, Clone, Copy)]
pub struct BlockBrokenEvent {
    pub position: BlockPos,
    pub block_id: u16,
    pub player_id: EntityId,
}

impl BlockBrokenEvent {
    pub fn new(position: BlockPos, block_id: u16, player_id: EntityId) -> (e: Self)
        ensures
            e.position == position,
            e.block_id == block_id,
            e.player_id == player_id,
    {
        BlockBrokenEvent { position, block_id, player_id }
    }
}

impl Event for BlockBrokenEvent {
    fn event_name(&self) -> (n: &'static str)
        ensures
            n@ == "block_broken"@,
    {
        "block_broken"
    }
}

/// A block was placed.
#[derive(Debug, Clone, Copy)]
pub struct BlockPlacedEvent {
    pub position: BlockPos,
    pub block_id: u16,
    pub player_id: EntityId,
}

impl BlockPlacedEvent {
    pub fn new(position: BlockPos, block_id: u16, player_id: EntityId) -> (e: Self)
        ensures
            e.position == position,
            e.block_id == block_id,
            e.player_id == player_id,
    {
        BlockPlacedEvent { position, block_id, player_id }
    }
}

impl Event for BlockPlacedEvent {
    fn event_name(&self) -> (n: &'static str)
        ensures
            n@ == "block_placed"@,
    {
        "block_placed"
    }
}

/// What dealt damage.
#[derive(Debug, Clone, Copy, PartialEq, Eq, Structural)]
pub enum DamageSource {
    Melee,
    Projectile,
    Fall,
    Fire,
    Drowning,
    Suffocation,
    Cactus,
    FallBlock,
    Void,
    Starvation,
    Poison,
    Wither,
    EntityExplosion,
    Lightning,
    Custom,
}

/// A player died.
#[derive(Debug, Clone, Copy)]
pub struct PlayerDeathEvent {
    pub entity_id: EntityId,
    pub cause: DamageSource,
}

impl PlayerDeathEvent {
    pub fn new(entity_id: EntityId, cause: DamageSource) -> (e: Self)
        ensures
            e.entity_id == entity_id,
            e.cause == cause,
    {
        PlayerDeathEvent { entity_id, cause }
    }
}

impl Event for PlayerDeathEvent {
    fn event_name(&self) -> (n: &'static str)
        ensures
            n@ == "player_death"@,
    {
        "player_death"
    }
}

/// A chunk finished loading.
#[derive(Debug, Clone, Copy)]
pub struct ChunkLoadedEvent {
    pub chunk_x: i32,
    pub chunk_z: i32,
}

impl ChunkLoadedEvent {
    pub fn new(chunk_x: i32, chunk_z: i32) -> (e: Self)
        ensures
            e.chunk_x == chunk_x,
            e.chunk_z == chunk_z,
    {
        ChunkLoadedEvent { chunk_x, chunk_z }
    }
}

impl Event for ChunkLoadedEvent {
    fn event_name(&self) -> (n: &'static str)
        ensures
            n@ == "chunk_loaded"@,
    {
        "chunk_loaded"
    }
}

/// A chat message was sent.
#[derive(Debug, Clone)]
pub struct ChatMessageEvent {
    pub sender_id: EntityId,
    pub username: String,
    pub message: String,
}

impl ChatMessageEvent {
    pub fn new(sender_id: EntityId, username: String, message: String) -> (e: Self)
        ensures
            e.sender_id == sender_id,
            e.username@ == username@,
            e.message@ == message@,
    {
        ChatMessageEvent { sender_id, username, message }
    }
}

impl Event for ChatMessageEvent {
    fn event_name(&self) -> (n: &'static str)
        ensures
            n@ == "chat_message"@,
    {
        "chat_message"
    }
}

} // verus!
