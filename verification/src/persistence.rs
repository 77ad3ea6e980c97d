//! What a saved world holds for chunks and player inventories, and the
//! game statistics kept while playing.

use vstd::prelude::*;
use crate::chunk::Chunk;
use crate::clock::unix_seconds_now;
use crate::entity::EntityId;
use crate::math::ChunkPos;
use crate::world_types::{DimensionId, DIM_OVERWORLD};

verus! {

/// A chunk as it is written to disk.
#[derive(Debug, Clone)]
pub struct ChunkSaveData {
    pub chunk_pos: ChunkPos,
    pub dimension: DimensionId,
    pub blocks: Vec<u16>,
    pub modified_at: u64,
}

impl ChunkSaveData {
    /// The save record of an overworld chunk, stamped with the current time.
    pub fn from_chunk(chunk: &Chunk) -> (d: Self)
        ensures
            d.chunk_pos == chunk.position,
            d.dimension == DimensionId(DIM_OVERWORLD),
            d.blocks@ == chunk.blocks@,
    {
        ChunkSaveData::stamped(chunk, unix_seconds_now())
    }

    /// The save record of an overworld chunk with the given modification time.
    pub fn stamped(chunk: &Chunk, modified_at: u64) -> (d: Self)
        ensures
            d.chunk_pos == chunk.position,
            d.dimension == DimensionId(DIM_OVERWORLD),
            d.blocks@ == chunk.blocks@,
            d.modified_at == modified_at,
    {
        ChunkSaveData {
            chunk_pos: chunk.position,
            dimension: DimensionId(DIM_OVERWORLD),
            blocks: chunk.blocks.clone(),
            modified_at,
        }
    }
}

/// A player's inventory as it is written to disk: each slot holds an item id
/// and a count, or nothing.
#[derive(Debug, Clone)]
pub struct PlayerInventoryState {
    pub entity_id: EntityId,
    pub hotbar: Vec<Option<(u16, u8)>>,
    pub main: Vec<Option<(u16, u8)>>,
    pub armor: Vec<Option<(u16, u8)>>,
    pub offhand: Option<(u16, u8)>,
    pub experience: u32,
    pub level: u32,
}

/// Game statistics. `distance_traveled` is the distance walked so far, in
/// whatever measure the caller keeps it; `time_played` is in seconds.
#[derive(Debug, Clone)]
pub struct GameStats<F> {
    pub blocks_mined: u64,
    pub blocks_placed: u64,
    pub distance_traveled: F,
    pub time_played: u64,
    pub deaths: u32,
    pub mobs_killed: u32,
    pub items_crafted: u64,
    pub dimensions_visited: Vec<DimensionId>,
    pub jumps_made: u32,
    pub dimension_travels: u32,
}

impl<F: Default> Default for GameStats<F> {
    /// All counters at zero, no dimension visited, and the default distance.
    fn default() -> (g: Self)
        ensures
            g.blocks_mined == 0,
            g.blocks_placed == 0,
            call_ensures(F::default, (), g.distance_traveled),
            g.time_played == 0,
            g.deaths == 0,
            g.mobs_killed == 0,
            g.items_crafted == 0,
            g.dimensions_visited@ == Seq::<DimensionId>::empty(),
            g.jumps_made == 0,
            g.dimension_travels == 0,
    {
        GameStats {
            blocks_mined: 0,
            blocks_placed: 0,
            distance_traveled: F::default(),
            time_played: 0,
            deaths: 0,
            mobs_killed: 0,
            items_crafted: 0,
            dimensions_visited: Vec::new(),
            jumps_made: 0,
            dimension_travels: 0,
        }
    }
}

/// Whether `s` holds dimension `d`.
fn holds_dimension(s: &Vec<DimensionId>, d: DimensionId) -> (b: bool)
    ensures
        b == s@.contains(d),
{
    let mut i: usize = 0;
    while i < s.len()
        invariant
            i <= s.len(),
            forall|j: int| 0 <= j < i ==> s@[j] != d,
        decreases s.len() - i,
    {
        if s[i] == d {
            return true;
        }
        i = i + 1;
    }
    false
}

/// The statistics of the game being played. The playing time is measured by
/// the caller, who keeps the moment play started.
pub struct StatsTracker<F> {
    pub stats: GameStats<F>,
}

/// `new` is `old` with counter `field` raised by one and the other counters,
/// the distance and the visited dimensions as they were. Fields are numbered
/// in the order of `GameStats`: mined 0, placed 1, deaths 4, kills 5, crafted
/// 6, jumps 8, dimension travels 9.
pub open spec fn one_more<F>(old: GameStats<F>, new: GameStats<F>, field: int) -> bool {
    &&& new.blocks_mined == old.blocks_mined + (if field == 0 { 1int } else { 0 })
    &&& new.blocks_placed == old.blocks_placed + (if field == 1 { 1int } else { 0 })
    &&& new.distance_traveled == old.distance_traveled
    &&& new.time_played == old.time_played
    &&& new.deaths == old.deaths + (if field == 4 { 1int } else { 0 })
    &&& new.mobs_killed == old.mobs_killed + (if field == 5 { 1int } else { 0 })
    &&& new.items_crafted == old.items_crafted + (if field == 6 { 1int } else { 0 })
    &&& new.dimensions_visited@ == old.dimensions_visited@
    &&& new.jumps_made == old.jumps_made + (if field == 8 { 1int } else { 0 })
    &&& new.dimension_travels == old.dimension_travels + (if field == 9 { 1int } else { 0 })
}

impl<F> StatsTracker<F> {
    /// A tracker with all counters at zero.
    pub fn new() -> (t: Self)
        where F: Default
        ensures
            t.stats.blocks_mined == 0,
            t.stats.blocks_placed == 0,
            call_ensures(F::default, (), t.stats.distance_traveled),
            t.stats.time_played == 0,
            t.stats.deaths == 0,
            t.stats.mobs_killed == 0,
            t.stats.items_crafted == 0,
            t.stats.dimensions_visited@ == Seq::<DimensionId>::empty(),
            t.stats.jumps_made == 0,
            t.stats.dimension_travels == 0,
    {
        StatsTracker { stats: GameStats::default() }
    }

    /// Counts a mined block.
    pub fn record_block_mined(&mut self)
        requires
            old(self).stats.blocks_mined < u64::MAX,
        ensures
            one_more(old(self).stats, final(self).stats, 0),
    {
        self.stats.blocks_mined = self.stats.blocks_mined + 1;
    }

    /// Counts a placed block.
    pub fn record_block_placed(&mut self)
        requires
            old(self).stats.blocks_placed < u64::MAX,
        ensures
            one_more(old(self).stats, final(self).stats, 1),
    {
        self.stats.blocks_placed = self.stats.blocks_placed + 1;
    }

    /// Counts a death.
    pub fn record_death(&mut self)
        requires
            old(self).stats.deaths < u32::MAX,
        ensures
            one_more(old(self).stats, final(self).stats, 4),
    {
        self.stats.deaths = self.stats.deaths + 1;
    }

    /// Counts a killed mob.
    pub fn record_mob_kill(&mut self)
        requires
            old(self).stats.mobs_killed < u32::MAX,
        ensures
            one_more(old(self).stats, final(self).stats, 5),
    {
        self.stats.mobs_killed = self.stats.mobs_killed + 1;
    }

    /// Counts a crafted item.
    pub fn record_item_crafted(&mut self)
        requires
            old(self).stats.items_crafted < u64::MAX,
        ensures
            one_more(old(self).stats, final(self).stats, 6),
    {
        self.stats.items_crafted = self.stats.items_crafted + 1;
    }

    /// Notes a visit to `dimension`: a dimension not seen before is added at
    /// the end of the list, one seen before changes nothing.
    pub fn record_visit_dimension(&mut self, dimension: DimensionId)
        ensures
            final(self).stats.dimensions_visited@ == (if old(self).stats.dimensions_visited@.contains(dimension) {
                old(self).stats.dimensions_visited@
            } else {
                old(self).stats.dimensions_visited@.push(dimension)
            }),
            old(self).stats.dimensions_visited@.no_duplicates() ==> final(self).stats.dimensions_visited@.no_duplicates(),
            one_more(
                old(self).stats,
                GameStats { dimensions_visited: old(self).stats.dimensions_visited, ..final(self).stats },
                -1,
            ),
    {
        if !holds_dimension(&self.stats.dimensions_visited, dimension) {
            self.stats.dimensions_visited.push(dimension);
        }
    }

    /// Counts a jump.
    pub fn record_jump(&mut self)
        requires
            old(self).stats.jumps_made < u32::MAX,
        ensures
            one_more(old(self).stats, final(self).stats, 8),
    {
        self.stats.jumps_made = self.stats.jumps_made + 1;
    }

    /// Counts a travel between dimensions.
    pub fn record_dimension_travel(&mut self)
        requires
            old(self).stats.dimension_travels < u32::MAX,
        ensures
            one_more(old(self).stats, final(self).stats, 9),
    {
        self.stats.dimension_travels = self.stats.dimension_travels + 1;
    }

    /// The statistics so far.
    pub fn get_stats(&self) -> (g: &GameStats<F>)
        ensures
            *g == self.stats,
    {
        &self.stats
    }
}

impl<F: Default> Default for StatsTracker<F> {
    fn default() -> (t: Self)
        ensures
            t.stats.blocks_mined == 0,
            t.stats.blocks_placed == 0,
            call_ensures(F::default, (), t.stats.distance_traveled),
            t.stats.time_played == 0,
            t.stats.deaths == 0,
            t.stats.mobs_killed == 0,
            t.stats.items_crafted == 0,
            t.stats.dimensions_visited@ == Seq::<DimensionId>::empty(),
            t.stats.jumps_made == 0,
            t.stats.dimension_travels == 0,
    {
        StatsTracker::new()
    }
}

} // verus!
