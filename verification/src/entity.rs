//! Entity identifiers and kinds.

use vstd::prelude::*;
use std::collections::HashMap;
use std::collections::hash_map::Entry;

verus! {

broadcast use vstd::std_specs::hash::group_hash_axioms;

/// Entity identifier.
pub type EntityId = u32;

/// The id that no entity ever has.
pub const INVALID_ENTITY_ID: EntityId = 0;

/// What an entity is.
#[derive(Debug, Clone, Copy, PartialEq, Eq, Structural, Hash)]
pub enum EntityType {
    Player,
    Mob,
    Item,
    Projectile,
    Vehicle,
}

/// How a mob behaves towards players.
#[derive(Debug, Clone, Copy, PartialEq, Eq, Structural, Hash)]
pub enum MobType {
    Passive,
    Neutral,
    Hostile,
}

impl MobType {
    /// The display name of the mob type.
    pub fn as_str(&self) -> (s: &'static str)
        ensures
            s@ == (match *self {
                MobType::Passive => "Passive"@,
                MobType::Neutral => "Neutral"@,
                MobType::Hostile => "Hostile"@,
            }),
    {
        match self {
            MobType::Passive => "Passive",
            MobType::Neutral => "Neutral",
            MobType::Hostile => "Hostile",
        }
    }
}

/// The players, mobs and dropped items of a world, each filed under an id
/// handed out in increasing order from 1. The records themselves (`P`, `M`,
/// `I`) are the game's; the manager only files them.
pub struct EntityManager<P, M, I> {
    players: HashMap<EntityId, P>,
    mobs: HashMap<EntityId, M>,
    items: HashMap<EntityId, I>,
    next_id: EntityId,
}

/// The ids filed in `p`, `m` and `i` are distinct and lie between 1 and
/// `next`, exclusive of `next`.
pub open spec fn ids_ok<P, M, I>(p: Map<EntityId, P>, m: Map<EntityId, M>, i: Map<EntityId, I>, next: EntityId) -> bool {
    &&& next >= 1
    &&& forall|k: EntityId| #[trigger] p.contains_key(k) ==> 1 <= k < next
    &&& forall|k: EntityId| #[trigger] m.contains_key(k) ==> 1 <= k < next
    &&& forall|k: EntityId| #[trigger] i.contains_key(k) ==> 1 <= k < next
    &&& forall|k: EntityId| #[trigger] p.contains_key(k) ==> !m.contains_key(k) && !i.contains_key(k)
    &&& forall|k: EntityId| #[trigger] m.contains_key(k) ==> !i.contains_key(k)
}

/// Filing fewer ids keeps them distinct and in range.
proof fn lemma_ids_shrink<P, M, I>(
    p: Map<EntityId, P>, m: Map<EntityId, M>, i: Map<EntityId, I>,
    p2: Map<EntityId, P>, m2: Map<EntityId, M>, i2: Map<EntityId, I>, next: EntityId,
)
    requires
        ids_ok(p, m, i, next),
        p2.dom().subset_of(p.dom()),
        m2.dom().subset_of(m.dom()),
        i2.dom().subset_of(i.dom()),
    ensures
        ids_ok(p2, m2, i2, next),
{
    assert forall|k: EntityId| #[trigger] p2.contains_key(k) implies 1 <= k < next && !m2.contains_key(k) && !i2.contains_key(k) by {
        assert(p.contains_key(k));
    }
    assert forall|k: EntityId| #[trigger] m2.contains_key(k) implies 1 <= k < next && !i2.contains_key(k) by {
        assert(m.contains_key(k));
    }
    assert forall|k: EntityId| #[trigger] i2.contains_key(k) implies 1 <= k < next by {
        assert(i.contains_key(k));
    }
}

/// Keys below `n` are below any larger bound.
proof fn lemma_keys_below<V>(m: Map<EntityId, V>, n: int, n2: int)
    requires
        forall|k: EntityId| #[trigger] m.contains_key(k) ==> 1 <= k < n,
        n <= n2,
    ensures
        forall|k: EntityId| #[trigger] m.contains_key(k) ==> 1 <= k < n2,
{
}

impl<P, M, I> EntityManager<P, M, I> {
    pub closed spec fn player_map(&self) -> Map<EntityId, P> {
        self.players@
    }

    pub closed spec fn mob_map(&self) -> Map<EntityId, M> {
        self.mobs@
    }

    pub closed spec fn item_map(&self) -> Map<EntityId, I> {
        self.items@
    }

    /// The id the next entity will get.
    pub closed spec fn next(&self) -> EntityId {
        self.next_id
    }

    /// Every filed id is below the next one to be handed out, which is never
    /// the invalid id 0, and no id is filed twice.
    pub open spec fn wf(&self) -> bool {
        ids_ok(self.player_map(), self.mob_map(), self.item_map(), self.next())
    }

    /// A manager with no entities; the first id handed out is 1.
    pub fn new() -> (m: Self)
        ensures
            m.wf(),
            m.next() == 1,
            m.player_map() == Map::<EntityId, P>::empty(),
            m.mob_map() == Map::<EntityId, M>::empty(),
            m.item_map() == Map::<EntityId, I>::empty(),
    {
        EntityManager { players: HashMap::new(), mobs: HashMap::new(), items: HashMap::new(), next_id: 1 }
    }

    /// The id the next spawn will hand out; spawning needs it below
    /// `EntityId::MAX`.
    pub fn next_entity_id(&self) -> (id: EntityId)
        ensures
            id == self.next(),
    {
        self.next_id
    }

    /// Files the player that `make` builds for the next id; returns that id.
    pub fn spawn_player<F: FnOnce(EntityId) -> P>(&mut self, make: F) -> (id: EntityId)
        requires
            old(self).wf(),
            old(self).next() < EntityId::MAX,
            forall|k: EntityId| make.requires((k,)),
        ensures
            final(self).wf(),
            id == old(self).next(),
            final(self).next() == old(self).next() + 1,
            final(self).player_map().contains_key(id),
            make.ensures((id,), final(self).player_map()[id]),
            final(self).player_map() == old(self).player_map().insert(id, final(self).player_map()[id]),
            final(self).mob_map() == old(self).mob_map(),
            final(self).item_map() == old(self).item_map(),
    {
        let id = self.next_id;
        proof {
            lemma_keys_below(self.player_map(), id as int, id as int + 1);
            lemma_keys_below(self.mob_map(), id as int, id as int + 1);
            lemma_keys_below(self.item_map(), id as int, id as int + 1);
        }
        self.next_id = self.next_id + 1;
        let player = make(id);
        self.players.insert(id, player);
        id
    }

    /// Files the mob that `make` builds for the next id; returns that id.
    pub fn spawn_mob<F: FnOnce(EntityId) -> M>(&mut self, make: F) -> (id: EntityId)
        requires
            old(self).wf(),
            old(self).next() < EntityId::MAX,
            forall|k: EntityId| make.requires((k,)),
        ensures
            final(self).wf(),
            id == old(self).next(),
            final(self).next() == old(self).next() + 1,
            final(self).mob_map().contains_key(id),
            make.ensures((id,), final(self).mob_map()[id]),
            final(self).mob_map() == old(self).mob_map().insert(id, final(self).mob_map()[id]),
            final(self).player_map() == old(self).player_map(),
            final(self).item_map() == old(self).item_map(),
    {
        let id = self.next_id;
        proof {
            lemma_keys_below(self.player_map(), id as int, id as int + 1);
            lemma_keys_below(self.mob_map(), id as int, id as int + 1);
            lemma_keys_below(self.item_map(), id as int, id as int + 1);
        }
        self.next_id = self.next_id + 1;
        let mob = make(id);
        self.mobs.insert(id, mob);
        id
    }

    /// Files the dropped item that `make` builds for the next id; returns
    /// that id.
    pub fn spawn_item<F: FnOnce(EntityId) -> I>(&mut self, make: F) -> (id: EntityId)
        requires
            old(self).wf(),
            old(self).next() < EntityId::MAX,
            forall|k: EntityId| make.requires((k,)),
        ensures
            final(self).wf(),
            id == old(self).next(),
            final(self).next() == old(self).next() + 1,
            final(self).item_map().contains_key(id),
            make.ensures((id,), final(self).item_map()[id]),
            final(self).item_map() == old(self).item_map().insert(id, final(self).item_map()[id]),
            final(self).player_map() == old(self).player_map(),
            final(self).mob_map() == old(self).mob_map(),
    {
        let id = self.next_id;
        proof {
            lemma_keys_below(self.player_map(), id as int, id as int + 1);
            lemma_keys_below(self.mob_map(), id as int, id as int + 1);
            lemma_keys_below(self.item_map(), id as int, id as int + 1);
        }
        self.next_id = self.next_id + 1;
        let item = make(id);
        self.items.insert(id, item);
        id
    }

    /// Removes the entity with id `id`, whatever it is.
    pub fn remove_entity(&mut self, id: EntityId)
        requires
            old(self).wf(),
        ensures
            final(self).wf(),
            final(self).next() == old(self).next(),
            final(self).player_map() == old(self).player_map().remove(id),
            final(self).mob_map() == old(self).mob_map().remove(id),
            final(self).item_map() == old(self).item_map().remove(id),
    {
        self.players.remove(&id);
        self.mobs.remove(&id);
        self.items.remove(&id);
        proof {
            lemma_ids_shrink(old(self).player_map(), old(self).mob_map(), old(self).item_map(),
                self.player_map(), self.mob_map(), self.item_map(), self.next());
        }
    }

    pub fn get_player(&self, id: EntityId) -> (r: Option<&P>)
        ensures
            r == (if self.player_map().contains_key(id) { Some(&self.player_map()[id]) } else { None }),
    {
        self.players.get(&id)
    }

    pub fn get_player_mut(&mut self, id: EntityId) -> (r: Option<&mut P>)
        ensures
            match r {
                Some(v) => old(self).player_map().contains_key(id) && *v == old(self).player_map()[id]
                    && final(self).player_map() == old(self).player_map().insert(id, *final(v)),
                None => !old(self).player_map().contains_key(id) && final(self).player_map() == old(self).player_map(),
            },
            final(self).mob_map() == old(self).mob_map(),
            final(self).item_map() == old(self).item_map(),
            final(self).next() == old(self).next(),
            old(self).wf() ==> final(self).wf(),
    {
        match self.players.entry(id) {
            Entry::Occupied(o) => {
                proof {
                    assert forall|v: P| old(self).wf() implies
                        #[trigger] ids_ok(old(self).player_map().insert(id, v), old(self).mob_map(), old(self).item_map(), old(self).next()) by {
                        assert(old(self).player_map().contains_key(id));
                        lemma_ids_shrink(old(self).player_map(), old(self).mob_map(), old(self).item_map(),
                            old(self).player_map().insert(id, v), old(self).mob_map(), old(self).item_map(), old(self).next());
                    }
                }
                Some(o.into_mut())
            },
            Entry::Vacant(_) => None,
        }
    }

    pub fn get_mob(&self, id: EntityId) -> (r: Option<&M>)
        ensures
            r == (if self.mob_map().contains_key(id) { Some(&self.mob_map()[id]) } else { None }),
    {
        self.mobs.get(&id)
    }

    pub fn get_mob_mut(&mut self, id: EntityId) -> (r: Option<&mut M>)
        ensures
            match r {
                Some(v) => old(self).mob_map().contains_key(id) && *v == old(self).mob_map()[id]
                    && final(self).mob_map() == old(self).mob_map().insert(id, *final(v)),
                None => !old(self).mob_map().contains_key(id) && final(self).mob_map() == old(self).mob_map(),
            },
            final(self).player_map() == old(self).player_map(),
            final(self).item_map() == old(self).item_map(),
            final(self).next() == old(self).next(),
            old(self).wf() ==> final(self).wf(),
    {
        match self.mobs.entry(id) {
            Entry::Occupied(o) => {
                proof {
                    assert forall|v: M| old(self).wf() implies
                        #[trigger] ids_ok(old(self).player_map(), old(self).mob_map().insert(id, v), old(self).item_map(), old(self).next()) by {
                        assert(old(self).mob_map().contains_key(id));
                        lemma_ids_shrink(old(self).player_map(), old(self).mob_map(), old(self).item_map(),
                            old(self).player_map(), old(self).mob_map().insert(id, v), old(self).item_map(), old(self).next());
                    }
                }
                Some(o.into_mut())
            },
            Entry::Vacant(_) => None,
        }
    }

    pub fn get_item(&self, id: EntityId) -> (r: Option<&I>)
        ensures
            r == (if self.item_map().contains_key(id) { Some(&self.item_map()[id]) } else { None }),
    {
        self.items.get(&id)
    }

    pub fn get_item_mut(&mut self, id: EntityId) -> (r: Option<&mut I>)
        ensures
            match r {
                Some(v) => old(self).item_map().contains_key(id) && *v == old(self).item_map()[id]
                    && final(self).item_map() == old(self).item_map().insert(id, *final(v)),
                None => !old(self).item_map().contains_key(id) && final(self).item_map() == old(self).item_map(),
            },
            final(self).player_map() == old(self).player_map(),
            final(self).mob_map() == old(self).mob_map(),
            final(self).next() == old(self).next(),
            old(self).wf() ==> final(self).wf(),
    {
        match self.items.entry(id) {
            Entry::Occupied(o) => {
                proof {
                    assert forall|v: I| old(self).wf() implies
                        #[trigger] ids_ok(old(self).player_map(), old(self).mob_map(), old(self).item_map().insert(id, v), old(self).next()) by {
                        assert(old(self).item_map().contains_key(id));
                        lemma_ids_shrink(old(self).player_map(), old(self).mob_map(), old(self).item_map(),
                            old(self).player_map(), old(self).mob_map(), old(self).item_map().insert(id, v), old(self).next());
                    }
                }
                Some(o.into_mut())
            },
            Entry::Vacant(_) => None,
        }
    }

    pub fn players(&self) -> (r: &HashMap<EntityId, P>)
        ensures
            r@ == self.player_map(),
    {
        &self.players
    }

    pub fn mobs(&self) -> (r: &HashMap<EntityId, M>)
        ensures
            r@ == self.mob_map(),
    {
        &self.mobs
    }

    pub fn items(&self) -> (r: &HashMap<EntityId, I>)
        ensures
            r@ == self.item_map(),
    {
        &self.items
    }
}

/// The id the next spawn hands out is held by no entity, so every spawned
/// entity gets an id of its own.
pub proof fn law_next_id_is_fresh<P, M, I>(m: &EntityManager<P, M, I>)
    requires
        m.wf(),
    ensures
        !m.player_map().contains_key(m.next()),
        !m.mob_map().contains_key(m.next()),
        !m.item_map().contains_key(m.next()),
        m.next() != INVALID_ENTITY_ID,
{
}

impl<P, M, I> Default for EntityManager<P, M, I> {
    fn default() -> (m: Self)
        ensures
            m.wf(),
            m.next() == 1,
            m.player_map() == Map::<EntityId, P>::empty(),
            m.mob_map() == Map::<EntityId, M>::empty(),
            m.item_map() == Map::<EntityId, I>::empty(),
    {
        Self::new()
    }
}

} // verus!
