//! The dimensions of a world, and which of them the player is in and has
//! been to.

use vstd::prelude::*;
use std::collections::{HashMap, HashSet};
use std::collections::hash_map::Entry;
use crate::world_types::{Biome, DimensionId, DIM_OVERWORLD};
use crate::audio::str_eq;
use crate::waypoints::{lowercase, to_lowercase};

verus! {

broadcast use vstd::std_specs::hash::group_hash_axioms;

/// The number of dimensions a world has.
pub const DIMENSION_COUNT: u16 = 14;

/// A dimension: its name and description, whether it has a sky and lets the
/// player respawn, the crystal that opens it, its terrain seed offset, the
/// height travellers arrive at and the biomes its terrain is made of.
#[derive(Debug, Clone)]
pub struct Dimension {
    pub id: DimensionId,
    pub name: String,
    pub description: String,
    pub has_sky: bool,
    pub can_respawn: bool,
    /// Item id of the crystal needed to enter; 0 when none is.
    pub required_crystal: u16,
    pub seed_offset: u64,
    pub spawn_y: i32,
    pub biomes: Vec<Biome>,
}

/// The name of the `i`-th dimension.
pub open spec fn default_name(i: int) -> Seq<char> {
    if i == 0 {
        "Overworld"@
    } else if i == 1 {
        "The Moon"@
    } else if i == 2 {
        "Mars"@
    } else if i == 3 {
        "Venus"@
    } else if i == 4 {
        "Mercury"@
    } else if i == 5 {
        "Jupiter"@
    } else if i == 6 {
        "Saturn"@
    } else if i == 7 {
        "Neptune"@
    } else if i == 8 {
        "Pluto"@
    } else if i == 9 {
        "Asteroid Belt"@
    } else if i == 10 {
        "The Void"@
    } else if i == 11 {
        "Crystal Realm"@
    } else if i == 12 {
        "Ember Realm"@
    } else {
        "Frost Realm"@
    }
}

/// The description of the `i`-th dimension.
pub open spec fn default_description(i: int) -> Seq<char> {
    if i == 0 {
        "The default world with diverse biomes"@
    } else if i == 1 {
        "A barren satellite with craters and dust"@
    } else if i == 2 {
        "The red planet with giant volcanoes"@
    } else if i == 3 {
        "A scorching world with acidic clouds"@
    } else if i == 4 {
        "Closest to the sun with extreme temperatures"@
    } else if i == 5 {
        "A massive gas giant with extreme storms"@
    } else if i == 6 {
        "Famous for its beautiful ring system"@
    } else if i == 7 {
        "An ice giant with supersonic winds"@
    } else if i == 8 {
        "A cold, distant world with nitrogen ice plains"@
    } else if i == 9 {
        "Floating among ancient space rocks"@
    } else if i == 10 {
        "An empty dimension between dimensions"@
    } else if i == 11 {
        "A mystical dimension of giant crystals"@
    } else if i == 12 {
        "A dimension of fire and lava"@
    } else {
        "An endless winter dimension"@
    }
}

/// The biomes of the `i`-th dimension.
pub open spec fn default_biomes(i: int) -> Seq<Biome> {
    if i == 0 {
        seq![Biome::Plains, Biome::Desert, Biome::Mountains, Biome::Forest, Biome::Taiga, Biome::SnowyTundra]
    } else if i == 1 {
        seq![Biome::LunarPlains, Biome::LunarCrater, Biome::LunarHighland]
    } else if i == 2 {
        seq![Biome::MartianPlains, Biome::MartianCanyon, Biome::Volcanic]
    } else if i == 3 {
        seq![Biome::VenusianLowlands, Biome::VenusianHighlands, Biome::SulphurSea]
    } else if i == 4 {
        seq![Biome::MercurianPlain]
    } else if i == 5 {
        seq![Biome::JovianStorm]
    } else if i == 6 {
        seq![Biome::SaturnRing, Biome::SaturnCloud]
    } else if i == 7 {
        seq![Biome::NeptunianCore]
    } else if i == 8 {
        seq![Biome::PlutonianIcePlain]
    } else if i == 9 {
        seq![Biome::Asteroid]
    } else if i == 10 {
        seq![Biome::Void]
    } else if i == 11 {
        seq![Biome::CrystalForest]
    } else if i == 12 {
        seq![Biome::EmberPlains]
    } else {
        seq![Biome::FrostWastes]
    }
}

/// Whether `d` is the `i`-th of the world's dimensions: the overworld (0),
/// the planets and moons (1 to 9), and the Void, the Crystal, Ember and
/// Frost realms (10 to 13). Only the overworld lets the player respawn and
/// needs no crystal; the Asteroid Belt and the Void have no sky; the others
/// need crystal `219 + i`, offset their seed by `1000 * i`, and travellers
/// arrive at height 128 on the gas giants (5 to 7) and 64 elsewhere, 80 in
/// the overworld.
pub open spec fn is_default_dimension(d: Dimension, i: int) -> bool {
    &&& d.id.0 == i
    &&& d.name@ == default_name(i)
    &&& d.description@ == default_description(i)
    &&& d.has_sky == (i != 9 && i != 10)
    &&& d.can_respawn == (i == 0)
    &&& d.required_crystal == (if i == 0 { 0int } else { 219 + i })
    &&& d.seed_offset == 1000 * i
    &&& d.spawn_y == (if i == 0 { 80int } else if 5 <= i <= 7 { 128int } else { 64int })
    &&& d.biomes@ == default_biomes(i)
}

impl Dimension {
    /// The `i`-th of the world's dimensions.
    fn default_at(i: u16) -> (d: Dimension)
        requires
            i < DIMENSION_COUNT,
        ensures
            is_default_dimension(d, i as int),
    {
        let (name, description, biomes) = match i {
            0 => ("Overworld", "The default world with diverse biomes",
                vec![Biome::Plains, Biome::Desert, Biome::Mountains, Biome::Forest, Biome::Taiga, Biome::SnowyTundra]),
            1 => ("The Moon", "A barren satellite with craters and dust",
                vec![Biome::LunarPlains, Biome::LunarCrater, Biome::LunarHighland]),
            2 => ("Mars", "The red planet with giant volcanoes",
                vec![Biome::MartianPlains, Biome::MartianCanyon, Biome::Volcanic]),
            3 => ("Venus", "A scorching world with acidic clouds",
                vec![Biome::VenusianLowlands, Biome::VenusianHighlands, Biome::SulphurSea]),
            4 => ("Mercury", "Closest to the sun with extreme temperatures", vec![Biome::MercurianPlain]),
            5 => ("Jupiter", "A massive gas giant with extreme storms", vec![Biome::JovianStorm]),
            6 => ("Saturn", "Famous for its beautiful ring system", vec![Biome::SaturnRing, Biome::SaturnCloud]),
            7 => ("Neptune", "An ice giant with supersonic winds", vec![Biome::NeptunianCore]),
            8 => ("Pluto", "A cold, distant world with nitrogen ice plains", vec![Biome::PlutonianIcePlain]),
            9 => ("Asteroid Belt", "Floating among ancient space rocks", vec![Biome::Asteroid]),
            10 => ("The Void", "An empty dimension between dimensions", vec![Biome::Void]),
            11 => ("Crystal Realm", "A mystical dimension of giant crystals", vec![Biome::CrystalForest]),
            12 => ("Ember Realm", "A dimension of fire and lava", vec![Biome::EmberPlains]),
            _ => ("Frost Realm", "An endless winter dimension", vec![Biome::FrostWastes]),
        };
        let spawn_y: i32 = if i == 0 { 80 } else if i >= 5 && i <= 7 { 128 } else { 64 };
        let d = Dimension {
            id: DimensionId(i),
            name: name.to_owned(),
            description: description.to_owned(),
            has_sky: i != 9 && i != 10,
            can_respawn: i == 0,
            required_crystal: if i == 0 { 0 } else { 219 + i },
            seed_offset: 1000 * (i as u64),
            spawn_y,
            biomes,
        };
        assert(d.biomes@ =~= default_biomes(i as int));
        d
    }

    /// All the world's dimensions, in order of id.
    pub fn default_dimensions() -> (r: Vec<Dimension>)
        ensures
            r.len() == DIMENSION_COUNT,
            forall|i: int| 0 <= i < r.len() ==> is_default_dimension(#[trigger] r@[i], i),
    {
        let mut r: Vec<Dimension> = Vec::new();
        let mut i: u16 = 0;
        while i < DIMENSION_COUNT
            invariant
                i <= DIMENSION_COUNT,
                r.len() == i,
                forall|j: int| 0 <= j < r.len() ==> is_default_dimension(#[trigger] r@[j], j),
            decreases DIMENSION_COUNT - i,
        {
            r.push(Self::default_at(i));
            i = i + 1;
        }
        r
    }
}

/// The dimensions of a world by id, the one the player is in, and the ones
/// the player has been to.
pub struct DimensionManager {
    dimensions: HashMap<u16, Dimension>,
    current_dimension: DimensionId,
    visited_dimensions: HashSet<u16>,
}

/// Whether `d` is called `name`, ignoring case.
pub open spec fn named(d: Dimension, name: Seq<char>) -> bool {
    lowercase(d.name@) == lowercase(name)
}

impl DimensionManager {
    /// The dimensions, by id.
    pub closed spec fn dims(&self) -> Map<u16, Dimension> {
        self.dimensions@
    }

    /// The dimension the player is in.
    pub closed spec fn current_id(&self) -> DimensionId {
        self.current_dimension
    }

    /// The ids of the dimensions the player has been to.
    pub closed spec fn visited_ids(&self) -> Set<u16> {
        self.visited_dimensions@
    }

    /// Each of the fourteen dimension ids is a key of `m`, and no other, and
    /// each dimension is filed under its own id.
    pub open spec fn map_wf(m: Map<u16, Dimension>) -> bool {
        &&& forall|k: u16| #[trigger] m.contains_key(k) <==> k < DIMENSION_COUNT
        &&& forall|k: u16| #[trigger] m.contains_key(k) ==> m[k].id.0 == k
    }

    /// The world has its fourteen dimensions, each filed under its id; the
    /// player has been to every dimension they have been in, the current one
    /// included, and all of them exist.
    pub open spec fn wf(&self) -> bool {
        &&& Self::map_wf(self.dims())
        &&& self.visited_ids().contains(self.current_id().0)
        &&& forall|k: u16| #[trigger] self.visited_ids().contains(k) ==> k < DIMENSION_COUNT
    }

    /// A world in the overworld, with every dimension in its default state;
    /// the player has been to the overworld only.
    pub fn new() -> (m: Self)
        ensures
            m.wf(),
            forall|k: u16| k < DIMENSION_COUNT ==> is_default_dimension(#[trigger] m.dims()[k], k as int),
            m.current_id() == DimensionId(DIM_OVERWORLD),
            m.visited_ids() == set![DIM_OVERWORLD],
    {
        let mut defs = Dimension::default_dimensions();
        let mut dimensions: HashMap<u16, Dimension> = HashMap::new();
        while defs.len() > 0
            invariant
                defs.len() <= DIMENSION_COUNT,
                forall|j: int| 0 <= j < defs.len() ==> is_default_dimension(#[trigger] defs@[j], j),
                dimensions@.dom() == Set::new(|k: u16| defs.len() <= k < DIMENSION_COUNT),
                forall|k: u16| #[trigger] dimensions@.contains_key(k) ==> is_default_dimension(dimensions@[k], k as int),
            decreases defs.len(),
        {
            let ghost n = defs.len();
            let d = defs.pop().unwrap();
            assert(is_default_dimension(defs@.push(d)[n - 1], n - 1));
            let id = d.id.0;
            dimensions.insert(id, d);
            assert(dimensions@.dom() =~= Set::new(|k: u16| defs.len() <= k < DIMENSION_COUNT));
        }
        assert(dimensions@.dom() =~= Set::new(|k: u16| k < DIMENSION_COUNT));
        assert forall|k: u16| k < DIMENSION_COUNT implies is_default_dimension(#[trigger] dimensions@[k], k as int) by {
            assert(dimensions@.contains_key(k));
        }
        let mut visited_dimensions: HashSet<u16> = HashSet::new();
        visited_dimensions.insert(DIM_OVERWORLD);
        let m = DimensionManager { dimensions, current_dimension: DimensionId(DIM_OVERWORLD), visited_dimensions };
        assert(m.visited_ids() =~= set![DIM_OVERWORLD]);
        m
    }

    /// The dimension the player is in.
    pub fn current(&self) -> (d: DimensionId)
        ensures
            d == self.current_id(),
    {
        self.current_dimension
    }

    /// The dimension with id `id`, if the world has it.
    pub fn get(&self, id: DimensionId) -> (r: Option<&Dimension>)
        ensures
            match r {
                Some(d) => self.dims().contains_key(id.0) && *d == self.dims()[id.0],
                None => !self.dims().contains_key(id.0),
            },
    {
        self.dimensions.get(&id.0)
    }

    /// Moves the player to dimension `id`, if the world has it, and marks it
    /// visited; hands back that dimension. Otherwise nothing changes.
    pub fn change_dimension(&mut self, id: DimensionId) -> (r: Option<&Dimension>)
        requires
            old(self).wf(),
        ensures
            final(self).wf(),
            final(self).dims() == old(self).dims(),
            match r {
                Some(d) => old(self).dims().contains_key(id.0) && *d == old(self).dims()[id.0]
                    && final(self).current_id() == id
                    && final(self).visited_ids() == old(self).visited_ids().insert(id.0),
                None => !old(self).dims().contains_key(id.0)
                    && final(self).current_id() == old(self).current_id()
                    && final(self).visited_ids() == old(self).visited_ids(),
            },
    {
        if self.dimensions.contains_key(&id.0) {
            assert(self.dims().contains_key(id.0));
            self.current_dimension = id;
            self.visited_dimensions.insert(id.0);
            self.dimensions.get(&id.0)
        } else {
            None
        }
    }

    /// Whether the player has been to dimension `id`.
    pub fn has_visited(&self, id: DimensionId) -> (b: bool)
        ensures
            b == self.visited_ids().contains(id.0),
    {
        self.visited_dimensions.contains(&id.0)
    }

    /// The ids of the dimensions the player has been to, each once, in
    /// increasing order.
    pub fn visited(&self) -> (r: Vec<DimensionId>)
        requires
            self.wf(),
        ensures
            r@.map_values(|d: DimensionId| d.0).to_set() == self.visited_ids(),
            r@.map_values(|d: DimensionId| d.0).no_duplicates(),
    {
        let mut r: Vec<DimensionId> = Vec::new();
        let mut k: u16 = 0;
        while k < DIMENSION_COUNT
            invariant
                self.wf(),
                k <= DIMENSION_COUNT,
                r@.map_values(|d: DimensionId| d.0).to_set() == self.visited_ids().filter(|x: u16| x < k),
                forall|i: int| 0 <= i < r.len() ==> (#[trigger] r@[i]).0 < k,
                forall|i: int, j: int| 0 <= i < j < r.len() ==> (#[trigger] r@[i]).0 < (#[trigger] r@[j]).0,
            decreases DIMENSION_COUNT - k,
        {
            let ghost before = r@;
            if self.visited_dimensions.contains(&k) {
                r.push(DimensionId(k));
                assert(r@.map_values(|d: DimensionId| d.0) =~= before.map_values(|d: DimensionId| d.0).push(k));
                proof {
                    before.map_values(|d: DimensionId| d.0).lemma_push_to_set_commute(k);
                }
            }
            assert(r@.map_values(|d: DimensionId| d.0).to_set() =~= self.visited_ids().filter(|x: u16| x < k + 1));
            k = k + 1;
        }
        assert(self.visited_ids().filter(|x: u16| x < k) =~= self.visited_ids());
        let ghost ids = r@.map_values(|d: DimensionId| d.0);
        assert forall|i: int, j: int| 0 <= i < ids.len() && 0 <= j < ids.len() && i != j implies ids[i] != ids[j] by {
            if i < j {
                assert(r@[i].0 < r@[j].0);
            } else {
                assert(r@[j].0 < r@[i].0);
            }
        }
        r
    }

    /// Whether the player may enter dimension `id`: the overworld always,
    /// any other dimension the world has.
    pub fn can_access(&self, id: DimensionId) -> (b: bool)
        ensures
            b == (id.0 == DIM_OVERWORLD || self.dims().contains_key(id.0)),
    {
        if id.0 == DIM_OVERWORLD {
            return true;
        }
        self.dimensions.contains_key(&id.0)
    }

    /// The dimension with id `id`, if the world has it, to change in place;
    /// nothing else changes. The manager stays well formed as long as the
    /// dimension keeps its id.
    pub fn get_mut(&mut self, id: DimensionId) -> (r: Option<&mut Dimension>)
        ensures
            final(self).current_id() == old(self).current_id(),
            final(self).visited_ids() == old(self).visited_ids(),
            match r {
                Some(d) => old(self).dims().contains_key(id.0) && *d == old(self).dims()[id.0]
                    && final(self).dims() == old(self).dims().insert(id.0, *final(d))
                    && (old(self).wf() && final(d).id == id ==> final(self).wf()),
                None => !old(self).dims().contains_key(id.0) && final(self).dims() == old(self).dims()
                    && (old(self).wf() ==> final(self).wf()),
            },
    {
        match self.dimensions.entry(id.0) {
            Entry::Occupied(o) => {
                proof {
                    assert forall|v: Dimension| v.id == id && old(self).wf() implies
                        #[trigger] Self::map_wf(old(self).dims().insert(id.0, v)) by {
                        assert(old(self).dims().contains_key(id.0));
                    }
                }
                Some(o.into_mut())
            },
            Entry::Vacant(_) => None,
        }
    }

    /// Every dimension, in order of id.
    pub fn all(&self) -> (r: Vec<&Dimension>)
        requires
            self.wf(),
        ensures
            r.len() == DIMENSION_COUNT,
            forall|i: int| 0 <= i < r.len() ==> *(#[trigger] r@[i]) == self.dims()[i as u16],
    {
        let mut r: Vec<&Dimension> = Vec::new();
        let mut k: u16 = 0;
        while k < DIMENSION_COUNT
            invariant
                self.wf(),
                k <= DIMENSION_COUNT,
                r.len() == k,
                forall|i: int| 0 <= i < r.len() ==> *(#[trigger] r@[i]) == self.dims()[i as u16],
            decreases DIMENSION_COUNT - k,
        {
            assert(self.dims().contains_key(k));
            match self.dimensions.get(&k) {
                Some(d) => r.push(d),
                None => {},
            }
            k = k + 1;
        }
        r
    }

    /// A dimension called `name`, ignoring case, if there is one.
    pub fn get_by_name(&self, name: &str) -> (r: Option<&Dimension>)
        requires
            self.wf(),
        ensures
            match r {
                Some(d) => self.dims().contains_key(d.id.0) && *d == self.dims()[d.id.0] && named(*d, name@),
                None => forall|k: u16| #[trigger] self.dims().contains_key(k) ==> !named(self.dims()[k], name@),
            },
    {
        let wanted = to_lowercase(name);
        let mut k: u16 = 0;
        while k < DIMENSION_COUNT
            invariant
                self.wf(),
                k <= DIMENSION_COUNT,
                wanted@ == lowercase(name@),
                forall|j: u16| j < k ==> !named(#[trigger] self.dims()[j], name@),
            decreases DIMENSION_COUNT - k,
        {
            assert(self.dims().contains_key(k));
            match self.dimensions.get(&k) {
                Some(d) => {
                    let lower = to_lowercase(d.name.as_str());
                    if str_eq(lower.as_str(), wanted.as_str()) {
                        return Some(d);
                    }
                },
                None => {},
            }
            k = k + 1;
        }
        None
    }

    /// The id of a dimension called `name`, ignoring case, if there is one.
    pub fn get_id_by_name(&self, name: &str) -> (r: Option<DimensionId>)
        requires
            self.wf(),
        ensures
            match r {
                Some(id) => self.dims().contains_key(id.0) && named(self.dims()[id.0], name@),
                None => forall|k: u16| #[trigger] self.dims().contains_key(k) ==> !named(self.dims()[k], name@),
            },
    {
        match self.get_by_name(name) {
            Some(d) => Some(d.id),
            None => None,
        }
    }

    /// The number of dimensions.
    pub fn count(&self) -> (n: usize)
        ensures
            n == self.dims().len(),
    {
        self.dimensions.len()
    }
}

impl Default for DimensionManager {
    fn default() -> (m: Self)
        ensures
            m.wf(),
            forall|k: u16| k < DIMENSION_COUNT ==> is_default_dimension(#[trigger] m.dims()[k], k as int),
            m.current_id() == DimensionId(DIM_OVERWORLD),
            m.visited_ids() == set![DIM_OVERWORLD],
    {
        Self::new()
    }
}

} // verus!
