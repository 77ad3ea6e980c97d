//! Mob definitions by name, and a queue of mobs waiting to be spawned.

use vstd::prelude::*;
use crate::audio::str_eq;
use crate::entity::{EntityId, MobType};
use crate::math::BlockPos;
use crate::world_types::Biome;

verus! {

/// A kind of mob: its name, how it treats players, where and in what light
/// it spawns, whether it swims, and its combat stats `S` (health, damage,
/// speed, ranges, cooldown and armour, floating point in the game).
#[derive(Debug, Clone)]
pub struct MobDefinition<S> {
    pub name: String,
    pub mob_type: MobType,
    pub spawn_biomes: Vec<Biome>,
    pub spawn_light_min: i32,
    pub spawn_light_max: i32,
    pub can_swim: bool,
    pub stats: S,
}

impl<S> MobDefinition<S> {
    /// A definition that spawns in no particular biome, at any light level
    /// from 0 to 15, and does not swim.
    pub fn new(name: &str, mob_type: MobType, stats: S) -> (d: Self)
        ensures
            d.name@ == name@,
            d.mob_type == mob_type,
            d.spawn_biomes@ == Seq::<Biome>::empty(),
            d.spawn_light_min == 0,
            d.spawn_light_max == 15,
            !d.can_swim,
            d.stats == stats,
    {
        MobDefinition {
            name: name.to_owned(),
            mob_type,
            spawn_biomes: Vec::new(),
            spawn_light_min: 0,
            spawn_light_max: 15,
            can_swim: false,
            stats,
        }
    }
}

/// The index of the first definition in `defs` called `name`.
pub open spec fn first_named<S>(defs: Seq<MobDefinition<S>>, name: Seq<char>) -> Option<int>
    decreases defs.len(),
{
    if defs.len() == 0 {
        None
    } else {
        match first_named(defs.drop_last(), name) {
            Some(i) => Some(i),
            None => if defs.last().name@ == name { Some(defs.len() - 1) } else { None },
        }
    }
}

proof fn lemma_first_named_prefix<S>(defs: Seq<MobDefinition<S>>, name: Seq<char>, k: int)
    requires
        0 <= k <= defs.len(),
        forall|j: int| 0 <= j < k ==> (#[trigger] defs[j]).name@ != name,
    ensures
        first_named(defs.take(k), name) is None,
        k < defs.len() && defs[k].name@ == name ==> first_named(defs, name) == Some(k),
        k == defs.len() ==> first_named(defs, name) is None,
    decreases k,
{
    if k > 0 {
        assert(defs.take(k).drop_last() =~= defs.take(k - 1));
        lemma_first_named_prefix(defs, name, k - 1);
    }
    if k < defs.len() && defs[k].name@ == name {
        lemma_first_named_found(defs, name, k);
    }
    if k == defs.len() {
        assert(defs.take(k) =~= defs);
    }
}

proof fn lemma_first_named_found<S>(defs: Seq<MobDefinition<S>>, name: Seq<char>, k: int)
    requires
        0 <= k < defs.len(),
        defs[k].name@ == name,
        first_named(defs.take(k), name) is None,
    ensures
        first_named(defs, name) == Some(k),
    decreases defs.len(),
{
    if k < defs.len() - 1 {
        assert(defs.drop_last().take(k) =~= defs.take(k));
        lemma_first_named_found(defs.drop_last(), name, k);
    } else {
        assert(defs.drop_last() =~= defs.take(k));
    }
}

/// The mob definitions, in the order they were registered.
pub struct MobRegistry<S> {
    mobs: Vec<MobDefinition<S>>,
}

impl<S> MobRegistry<S> {
    pub closed spec fn defs(&self) -> Seq<MobDefinition<S>> {
        self.mobs@
    }

    /// A registry without definitions.
    pub fn empty() -> (r: Self)
        ensures
            r.defs() == Seq::<MobDefinition<S>>::empty(),
    {
        MobRegistry { mobs: Vec::new() }
    }

    /// Adds `mob` after the definitions already there.
    pub fn register(&mut self, mob: MobDefinition<S>)
        ensures
            final(self).defs() == old(self).defs().push(mob),
    {
        self.mobs.push(mob);
    }

    /// The first definition called `name`.
    pub fn get(&self, name: &str) -> (r: Option<&MobDefinition<S>>)
        ensures
            match r {
                Some(d) => first_named(self.defs(), name@) matches Some(i) && *d == self.defs()[i],
                None => first_named(self.defs(), name@) is None,
            },
    {
        let mut i: usize = 0;
        while i < self.mobs.len()
            invariant
                i <= self.mobs.len(),
                forall|j: int| 0 <= j < i ==> (#[trigger] self.mobs@[j]).name@ != name@,
            decreases self.mobs.len() - i,
        {
            if str_eq(self.mobs[i].name.as_str(), name) {
                proof {
                    lemma_first_named_prefix(self.mobs@, name@, i as int);
                }
                return Some(&self.mobs[i]);
            }
            i = i + 1;
        }
        proof {
            lemma_first_named_prefix(self.mobs@, name@, i as int);
        }
        None
    }

    /// The definitions of mobs of type `mob_type`, in registration order.
    pub fn get_by_type(&self, mob_type: MobType) -> (r: Vec<&MobDefinition<S>>)
        ensures
            r@.map_values(|d: &MobDefinition<S>| *d) == self.defs().filter(|d: MobDefinition<S>| d.mob_type == mob_type),
    {
        let mut r: Vec<&MobDefinition<S>> = Vec::new();
        let mut i: usize = 0;
        while i < self.mobs.len()
            invariant
                i <= self.mobs.len(),
                r@.map_values(|d: &MobDefinition<S>| *d) == self.defs().take(i as int).filter(|d: MobDefinition<S>| d.mob_type == mob_type),
            decreases self.mobs.len() - i,
        {
            let ghost before = r@;
            let d = &self.mobs[i];
            proof {
                assert(self.defs().take(i as int + 1).drop_last() =~= self.defs().take(i as int));
                reveal(Seq::filter);
            }
            if d.mob_type == mob_type {
                r.push(d);
                assert(r@.map_values(|d: &MobDefinition<S>| *d) =~= before.map_values(|d: &MobDefinition<S>| *d).push(*d));
            }
            i = i + 1;
        }
        assert(self.defs().take(i as int) =~= self.defs());
        r
    }
}

/// The queued spawns, in order, that name a registered mob.
pub open spec fn spawnable<S>(defs: Seq<MobDefinition<S>>, queue: Seq<(BlockPos, String)>) -> Seq<(BlockPos, String)> {
    queue.filter(|e: (BlockPos, String)| first_named(defs, e.1@) is Some)
}

/// Mobs waiting to be spawned, each at a position under a mob name, and the
/// registry their names are looked up in.
pub struct MobSpawner<S> {
    registry: MobRegistry<S>,
    spawn_queue: Vec<(BlockPos, String)>,
}

impl<S> MobSpawner<S> {
    pub closed spec fn registry_defs(&self) -> Seq<MobDefinition<S>> {
        self.registry.defs()
    }

    pub closed spec fn queue(&self) -> Seq<(BlockPos, String)> {
        self.spawn_queue@
    }

    /// A spawner with nothing queued, looking names up in `registry`.
    pub fn with_registry(registry: MobRegistry<S>) -> (s: Self)
        ensures
            s.registry_defs() == registry.defs(),
            s.queue() == Seq::<(BlockPos, String)>::empty(),
    {
        MobSpawner { registry, spawn_queue: Vec::new() }
    }

    /// The number of queued spawns; processing them needs fewer than
    /// `EntityId::MAX`.
    pub fn queued_count(&self) -> (n: usize)
        ensures
            n == self.queue().len(),
    {
        self.spawn_queue.len()
    }

    /// Queues a mob called `mob_name` to spawn at `position`.
    pub fn queue_spawn(&mut self, position: BlockPos, mob_name: &str)
        ensures
            final(self).registry_defs() == old(self).registry_defs(),
            final(self).queue().len() == old(self).queue().len() + 1,
            final(self).queue().drop_last() == old(self).queue(),
            final(self).queue().last().0 == position,
            final(self).queue().last().1@ == mob_name@,
    {
        self.spawn_queue.push((position, mob_name.to_owned()));
        assert(self.spawn_queue@.drop_last() =~= old(self).spawn_queue@);
    }

    /// Empties the queue and spawns, in queue order, every queued mob whose
    /// name is registered, handing out ids from 1 upwards; `make` builds each
    /// mob from its id, its definition and its position. Entries naming no
    /// registered mob are dropped.
    pub fn process_spawns<M, F: Fn(EntityId, &MobDefinition<S>, BlockPos) -> M>(&mut self, make: F) -> (spawned: Vec<(EntityId, M)>)
        requires
            old(self).queue().len() < EntityId::MAX,
            forall|id: EntityId, d: &MobDefinition<S>, p: BlockPos| make.requires((id, d, p)),
        ensures
            final(self).registry_defs() == old(self).registry_defs(),
            final(self).queue() == Seq::<(BlockPos, String)>::empty(),
            spawned.len() == spawnable(old(self).registry_defs(), old(self).queue()).len(),
            forall|k: int| 0 <= k < spawned.len() ==> {
                let e = spawnable(old(self).registry_defs(), old(self).queue())[k];
                &&& (#[trigger] spawned@[k]).0 == k + 1
                &&& first_named(old(self).registry_defs(), e.1@) matches Some(i)
                    && make.ensures((spawned@[k].0, &old(self).registry_defs()[i], e.0), spawned@[k].1)
            },
    {
        let mut spawned: Vec<(EntityId, M)> = Vec::new();
        let mut id: EntityId = 1;
        let n = self.spawn_queue.len();
        let ghost defs = self.registry.defs();
        let ghost queue = self.spawn_queue@;
        let mut i: usize = 0;
        while i < n
            invariant
                n == queue.len(),
                n < EntityId::MAX,
                i <= n,
                self.registry.defs() == defs,
                self.spawn_queue@ == queue,
                forall|id: EntityId, d: &MobDefinition<S>, p: BlockPos| make.requires((id, d, p)),
                spawned.len() == spawnable(defs, queue.take(i as int)).len(),
                id == spawned.len() + 1,
                spawned.len() <= i,
                forall|k: int| 0 <= k < spawned.len() ==> {
                    let e = spawnable(defs, queue.take(i as int))[k];
                    &&& (#[trigger] spawned@[k]).0 == k + 1
                    &&& first_named(defs, e.1@) matches Some(j)
                        && make.ensures((spawned@[k].0, &defs[j], e.0), spawned@[k].1)
                },
            decreases n - i,
        {
            let ghost before = spawned@;
            proof {
                assert(queue.take(i as int + 1).drop_last() =~= queue.take(i as int));
                reveal(Seq::filter);
            }
            let pos = self.spawn_queue[i].0;
            match self.registry.get(self.spawn_queue[i].1.as_str()) {
                Some(def) => {
                    let mob = make(id, def, pos);
                    spawned.push((id, mob));
                    id = id + 1;
                },
                None => {},
            }
            i = i + 1;
        }
        assert(queue.take(n as int) =~= queue);
        self.spawn_queue.clear();
        spawned
    }
}

} // verus!
