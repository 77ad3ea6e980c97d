//! The loaded chunks of a world, the chunks waiting to be generated, and
//! block access across chunk borders.

use vstd::prelude::*;
use std::collections::HashMap;
use crate::chunk::{Chunk, ChunkStats, world_to_local, local_index};
use crate::math::{BlockPos, ChunkPos, chunk_key, spec_chunk_key, spec_chunk_of, law_chunk_key_injective};

verus! {

broadcast use vstd::std_specs::hash::group_hash_axioms;

/// The block at world position `pos` given the loaded chunks `chunk_at`: the
/// block the chunk holding `pos` stores there, or air (0) when that chunk is
/// not loaded or `pos` is outside its height.
pub open spec fn block_in(chunk_at: spec_fn(ChunkPos) -> Option<Chunk>, pos: BlockPos) -> u16 {
    let c = spec_chunk_of(pos);
    match chunk_at(c) {
        Some(ch) => match world_to_local(c, pos) {
            Some((x, y, z)) => ch.blocks@[local_index(x, y, z)],
            None => 0u16,
        },
        None => 0u16,
    }
}

/// The index, in `s`, of the first loaded chunk that has no unsaved
/// changes, given the loaded chunks `at`.
pub open spec fn first_clean(s: Seq<ChunkPos>, at: spec_fn(ChunkPos) -> Option<Chunk>) -> Option<int>
    decreases s.len(),
{
    if s.len() == 0 {
        None
    } else {
        match first_clean(s.drop_last(), at) {
            Some(i) => Some(i),
            None => if (at(s.last()) matches Some(ch) && !ch.is_dirty) { Some(s.len() - 1) } else { None },
        }
    }
}

proof fn lemma_first_clean_prefix(s: Seq<ChunkPos>, at: spec_fn(ChunkPos) -> Option<Chunk>, k: int)
    requires
        0 <= k <= s.len(),
        first_clean(s.take(k), at) is Some,
    ensures
        first_clean(s, at) == first_clean(s.take(k), at),
    decreases s.len(),
{
    if k < s.len() {
        assert(s.drop_last().take(k) =~= s.take(k));
        lemma_first_clean_prefix(s.drop_last(), at, k);
    } else {
        assert(s.take(k) =~= s);
    }
}

proof fn lemma_first_clean_bounds(s: Seq<ChunkPos>, at: spec_fn(ChunkPos) -> Option<Chunk>)
    ensures
        first_clean(s, at) matches Some(i) ==> 0 <= i < s.len() && (at(s[i]) matches Some(ch) && !ch.is_dirty),
    decreases s.len(),
{
    if s.len() > 0 {
        lemma_first_clean_bounds(s.drop_last(), at);
    }
}

/// The number of chunks the pool has room for, from `HashMap::capacity`; the
/// pool is made with room for 4096 chunks. What the allocator gave is not
/// stated.
#[verifier::external_body]
fn pool_capacity(chunks: &HashMap<u64, Chunk>) -> usize {
    chunks.capacity()
}

/// The loaded chunks, each filed under its chunk key, in the order they were
/// loaded, and the chunks queued for generation.
pub struct ChunkManager {
    chunks: HashMap<u64, Chunk>,
    load_order: Vec<u64>,
    pub max_loaded_chunks: usize,
    pub max_generate_queue: usize,
    pub render_distance: i32,
    loaded_count: u64,
    generated_count: u64,
    pending_generation: Vec<ChunkPos>,
}

impl ChunkManager {
    /// The loaded chunk at `c`.
    pub closed spec fn chunk_at(&self, c: ChunkPos) -> Option<Chunk> {
        if self.chunks@.contains_key(spec_chunk_key(c)) {
            Some(self.chunks@[spec_chunk_key(c)])
        } else {
            None
        }
    }

    /// The loaded chunks as a function of position.
    pub open spec fn chunks_fn(&self) -> spec_fn(ChunkPos) -> Option<Chunk> {
        |c: ChunkPos| self.chunk_at(c)
    }

    /// The block at `pos`, as the loaded chunks hold it.
    pub open spec fn block(&self, pos: BlockPos) -> u16 {
        block_in(self.chunks_fn(), pos)
    }

    /// The positions of the loaded chunks, in the order they were loaded.
    pub closed spec fn loaded(&self) -> Seq<ChunkPos> {
        self.load_order@.map_values(|k: u64| self.chunks@[k].position)
    }

    /// The chunks queued for generation, oldest first.
    pub closed spec fn pending(&self) -> Seq<ChunkPos> {
        self.pending_generation@
    }

    /// The count of chunks loaded, less those unloaded, wrapping around.
    pub closed spec fn loaded_counter(&self) -> u64 {
        self.loaded_count
    }

    /// The count of chunks generated.
    pub closed spec fn generated_counter(&self) -> u64 {
        self.generated_count
    }

    pub closed spec fn max_loaded(&self) -> usize {
        self.max_loaded_chunks
    }

    pub closed spec fn max_queue(&self) -> usize {
        self.max_generate_queue
    }

    pub closed spec fn view_distance(&self) -> i32 {
        self.render_distance
    }

    /// Every chunk is complete and filed under its own key; the load order
    /// lists each loaded chunk once; no chunk is queued twice.
    pub closed spec fn wf(&self) -> bool {
        &&& forall|k: u64| #[trigger] self.chunks@.contains_key(k)
            ==> spec_chunk_key(self.chunks@[k].position) == k && self.chunks@[k].wf()
        &&& self.load_order@.no_duplicates()
        &&& forall|k: u64| #[trigger] self.chunks@.contains_key(k) <==> self.load_order@.contains(k)
        &&& self.pending_generation@.no_duplicates()
    }

    /// No chunk loaded or queued, room for `max_chunks` chunks, a queue of
    /// at most 64 and a render distance of 8.
    pub fn new(max_chunks: usize) -> (m: Self)
        ensures
            m.wf(),
            forall|c: ChunkPos| m.chunk_at(c).is_none(),
            m.loaded() == Seq::<ChunkPos>::empty(),
            m.pending() == Seq::<ChunkPos>::empty(),
            m.loaded_counter() == 0,
            m.generated_counter() == 0,
            m.max_loaded() == max_chunks,
            m.max_queue() == 64,
            m.view_distance() == 8,
    {
        let m = ChunkManager {
            chunks: HashMap::with_capacity(4096),
            load_order: Vec::new(),
            max_loaded_chunks: max_chunks,
            max_generate_queue: 64,
            render_distance: 8,
            loaded_count: 0,
            generated_count: 0,
            pending_generation: Vec::new(),
        };
        assert(m.loaded() =~= Seq::<ChunkPos>::empty());
        m
    }

    /// Sets the render distance used for visibility.
    pub fn set_render_distance(&mut self, distance: i32)
        ensures
            final(self).view_distance() == distance,
            final(self).wf() == old(self).wf(),
            forall|c: ChunkPos| final(self).chunk_at(c) == old(self).chunk_at(c),
            final(self).loaded() == old(self).loaded(),
            final(self).pending() == old(self).pending(),
    {
        self.render_distance = distance;
    }

    pub fn get_render_distance(&self) -> (d: i32)
        ensures
            d == self.view_distance(),
    {
        self.render_distance
    }

    /// The loaded chunk at `pos`.
    pub fn get_chunk(&self, pos: ChunkPos) -> (r: Option<&Chunk>)
        ensures
            match r {
                Some(ch) => self.chunk_at(pos) == Some(*ch),
                None => self.chunk_at(pos).is_none(),
            },
    {
        let key = chunk_key(pos);
        self.chunks.get(&key)
    }

    /// Whether the chunk at `pos` is loaded.
    pub fn is_loaded(&self, pos: ChunkPos) -> (b: bool)
        ensures
            b == self.chunk_at(pos).is_some(),
    {
        let key = chunk_key(pos);
        self.chunks.contains_key(&key)
    }

    /// Whether the chunk at `pos` is loaded and generated.
    pub fn is_generated(&self, pos: ChunkPos) -> (b: bool)
        ensures
            b == (self.chunk_at(pos) matches Some(ch) && ch.is_generated),
    {
        match self.get_chunk(pos) {
            Some(c) => c.is_generated,
            None => false,
        }
    }

    /// The block at world position `pos`: air when its chunk is not loaded.
    pub fn get_block(&self, pos: BlockPos) -> (b: u16)
        requires
            self.wf(),
        ensures
            b == self.block(pos),
    {
        let chunk_pos = ChunkPos::from_block(&pos);
        proof {
            self.lemma_chunk_at_position(chunk_pos);
        }
        match self.get_chunk(chunk_pos) {
            Some(c) => c.get_block_world(pos),
            None => 0,
        }
    }

    /// Sets the block at world position `pos`, when its chunk is loaded and
    /// `pos` lies within the chunk's height; the chunk becomes dirty.
    /// Reading any position afterwards gives the new block at `pos` and the
    /// old block everywhere else.
    pub fn set_block(&mut self, pos: BlockPos, block_id: u16)
        requires
            old(self).wf(),
            old(self).chunk_at(spec_chunk_of(pos)) matches Some(ch) ==> ch.version < u64::MAX,
        ensures
            final(self).wf(),
            forall|q: BlockPos| #[trigger] final(self).block(q) == (if q == pos && old(self).chunk_at(spec_chunk_of(pos)).is_some()
                && 0 <= pos.y < 32 {
                block_id
            } else {
                old(self).block(q)
            }),
            forall|c: ChunkPos| c != spec_chunk_of(pos) ==> #[trigger] final(self).chunk_at(c) == old(self).chunk_at(c),
            forall|c: ChunkPos| #[trigger] final(self).chunk_at(c).is_some() == old(self).chunk_at(c).is_some(),
            final(self).loaded() == old(self).loaded(),
            final(self).pending() == old(self).pending(),
            final(self).loaded_counter() == old(self).loaded_counter(),
            final(self).generated_counter() == old(self).generated_counter(),
            final(self).max_loaded() == old(self).max_loaded(),
            final(self).max_queue() == old(self).max_queue(),
    {
        let chunk_pos = ChunkPos::from_block(&pos);
        let key = chunk_key(chunk_pos);
        proof {
            self.lemma_chunk_at_position(chunk_pos);
        }
        let ghost before = *self;
        match self.chunks.remove(&key) {
            Some(mut chunk) => {
                let ghost old_chunk = chunk;
                chunk.set_block_world(pos, block_id);
                self.chunks.insert(key, chunk);
                proof {
                    assert(self.chunks@ == before.chunks@.insert(key, chunk));
                    assert forall|k: u64| #[trigger] self.chunks@.contains_key(k) implies
                        spec_chunk_key(self.chunks@[k].position) == k && self.chunks@[k].wf() by {
                    }
                    assert forall|c: ChunkPos| c != chunk_pos implies #[trigger] self.chunk_at(c) == before.chunk_at(c) by {
                        law_chunk_key_injective(c, chunk_pos);
                    }
                    assert(self.loaded() =~= before.loaded()) by {
                        assert forall|i: int| 0 <= i < self.load_order@.len() implies
                            self.chunks@[#[trigger] self.load_order@[i]].position == before.chunks@[self.load_order@[i]].position by {
                            let k = self.load_order@[i];
                            assert(before.load_order@.contains(k));
                        }
                    }
                    assert forall|q: BlockPos| #[trigger] self.block(q) == (if q == pos && before.chunk_at(spec_chunk_of(pos)).is_some()
                        && 0 <= pos.y < 32 { block_id } else { before.block(q) }) by {
                        let cq = spec_chunk_of(q);
                        if cq == chunk_pos {
                            if q != pos {
                                if 0 <= q.y < 32 && 0 <= pos.y < 32 {
                                    let lq = (q.x - 32 * cq.x, q.y as int, q.z - 32 * cq.z);
                                    let lp = (pos.x - 32 * chunk_pos.x, pos.y as int, pos.z - 32 * chunk_pos.z);
                                    assert(local_index(lq.0, lq.1, lq.2) != local_index(lp.0, lp.1, lp.2));
                                }
                            }
                        } else {
                            law_chunk_key_injective(cq, chunk_pos);
                        }
                    }
                }
            },
            None => {
                proof {
                    assert(self.chunks@ == before.chunks@);
                }
            },
        }
    }

    /// Where key `key` stands in the load order.
    fn order_index(&self, key: u64) -> (r: Option<usize>)
        ensures
            match r {
                Some(i) => i < self.load_order@.len() && self.load_order@[i as int] == key,
                None => !self.load_order@.contains(key),
            },
    {
        let n = self.load_order.len();
        let mut i: usize = 0;
        while i < n
            invariant
                n == self.load_order@.len(),
                i <= n,
                forall|j: int| 0 <= j < i ==> self.load_order@[j] != key,
            decreases n - i,
        {
            if self.load_order[i] == key {
                return Some(i);
            }
            i = i + 1;
        }
        None
    }

    /// Unloads the chunk at `pos`; returns whether it was loaded.
    pub fn unload_chunk(&mut self, pos: ChunkPos) -> (b: bool)
        requires
            old(self).wf(),
        ensures
            final(self).wf(),
            b == old(self).chunk_at(pos).is_some(),
            forall|c: ChunkPos| #[trigger] final(self).chunk_at(c) == (if c == pos { None } else { old(self).chunk_at(c) }),
            b ==> exists|i: int| 0 <= i < old(self).loaded().len() && old(self).loaded()[i] == pos
                && final(self).loaded() == old(self).loaded().remove(i),
            !b ==> final(self).loaded() == old(self).loaded(),
            final(self).loaded_counter() == (if b { old(self).loaded_counter().wrapping_sub(1) } else { old(self).loaded_counter() }),
            final(self).pending() == old(self).pending(),
            final(self).generated_counter() == old(self).generated_counter(),
            final(self).max_loaded() == old(self).max_loaded(),
            final(self).max_queue() == old(self).max_queue(),
    {
        let key = chunk_key(pos);
        let ghost before = *self;
        match self.chunks.remove(&key) {
            Some(_chunk) => {
                assert(before.load_order@.contains(key));
                let idx = match self.order_index(key) {
                    Some(i) => i,
                    None => {
                        assert(false);
                        0
                    },
                };
                self.load_order.remove(idx);
                self.loaded_count = self.loaded_count.wrapping_sub(1);
                proof {
                    assert(self.chunks@ == before.chunks@.remove(key));
                    assert forall|c: ChunkPos| #[trigger] self.chunk_at(c) == (if c == pos { None } else { before.chunk_at(c) }) by {
                        law_chunk_key_injective(c, pos);
                    }
                    assert(self.load_order@ == before.load_order@.remove(idx as int));
                    assert forall|k: u64| #[trigger] self.chunks@.contains_key(k) <==> self.load_order@.contains(k) by {
                        if self.load_order@.contains(k) {
                            let j = choose|j: int| 0 <= j < self.load_order@.len() && self.load_order@[j] == k;
                            if j < idx {
                                assert(before.load_order@[j] == k);
                            } else {
                                assert(before.load_order@[j + 1] == k);
                            }
                            assert(k != key);
                        }
                        if self.chunks@.contains_key(k) {
                            assert(before.load_order@.contains(k));
                            let j = choose|j: int| 0 <= j < before.load_order@.len() && before.load_order@[j] == k;
                            assert(j != idx);
                            if j < idx {
                                assert(self.load_order@[j] == k);
                            } else {
                                assert(self.load_order@[j - 1] == k);
                            }
                        }
                    }
                    let pos_k = before.chunks@[key].position;
                    law_chunk_key_injective(pos_k, pos);
                    assert(before.loaded()[idx as int] == pos);
                    assert(self.loaded() =~= before.loaded().remove(idx as int)) by {
                        assert forall|i: int| 0 <= i < self.load_order@.len() implies
                            self.chunks@[#[trigger] self.load_order@[i]].position
                                == before.chunks@[self.load_order@[i]].position by {
                            let k = self.load_order@[i];
                            assert(self.chunks@.contains_key(k));
                        }
                    }
                }
                true
            },
            None => {
                proof {
                    assert(self.chunks@ == before.chunks@);
                }
                false
            },
        }
    }

    /// Unloads the earliest loaded chunk that has no unsaved changes, if
    /// there is one.
    fn evict_lru(&mut self)
        requires
            old(self).wf(),
        ensures
            final(self).wf(),
            match first_clean(old(self).loaded(), old(self).chunks_fn()) {
                Some(i) => {
                    &&& final(self).loaded() == old(self).loaded().remove(i)
                    &&& forall|c: ChunkPos| #[trigger] final(self).chunk_at(c)
                        == (if c == old(self).loaded()[i] { None } else { old(self).chunk_at(c) })
                    &&& final(self).loaded_counter() == old(self).loaded_counter().wrapping_sub(1)
                },
                None => {
                    &&& final(self).loaded() == old(self).loaded()
                    &&& forall|c: ChunkPos| #[trigger] final(self).chunk_at(c) == old(self).chunk_at(c)
                    &&& final(self).loaded_counter() == old(self).loaded_counter()
                },
            },
            final(self).pending() == old(self).pending(),
            final(self).generated_counter() == old(self).generated_counter(),
            final(self).max_loaded() == old(self).max_loaded(),
            final(self).max_queue() == old(self).max_queue(),
    {
        let ghost s = self.loaded();
        let ghost at = self.chunks_fn();
        let n = self.load_order.len();
        let mut i: usize = 0;
        let mut victim: Option<ChunkPos> = None;
        while i < n
            invariant_except_break
                victim is None,
            invariant
                n == self.load_order@.len(),
                s == self.loaded(),
                at == self.chunks_fn(),
                s.len() == n,
                self.wf(),
                i <= n,
                victim is None ==> first_clean(s.take(i as int), at) is None,
                victim matches Some(p) ==> first_clean(s, at) matches Some(j) && s[j] == p,
            ensures
                victim is None ==> first_clean(s.take(n as int), at) is None,
                victim matches Some(p) ==> first_clean(s, at) matches Some(j) && s[j] == p,
            decreases n - i,
        {
            let key = self.load_order[i];
            assert(self.load_order@.contains(key));
            assert(self.chunks@.contains_key(key));
            let ghost p = self.chunks@[key].position;
            proof {
                assert(spec_chunk_key(p) == key);
                assert(s[i as int] == p);
                assert(at(p) == Some(self.chunks@[key]));
                assert(s.take(i as int + 1).drop_last() =~= s.take(i as int));
                assert(s.take(i as int + 1).last() == p);
            }
            match self.chunks.get(&key) {
                Some(c) => {
                    if !c.is_dirty {
                        victim = Some(c.position);
                        proof {
                            assert(first_clean(s.take(i as int + 1), at) == Some(i as int));
                            lemma_first_clean_prefix(s, at, i as int + 1);
                        }
                        break;
                    }
                },
                None => {},
            }
            i = i + 1;
        }
        proof {
            if victim is None {
                assert(s.take(n as int) =~= s);
            }
            lemma_first_clean_bounds(s, at);
        }
        match victim {
            Some(p) => {
                let ghost before = *self;
                proof {
                    let j = first_clean(s, at)->0;
                    before.lemma_chunk_at_position(p);
                    assert(before.loaded().no_duplicates()) by {
                        before.lemma_loaded_distinct();
                    }
                }
                let unloaded = self.unload_chunk(p);
                proof {
                    let j = first_clean(s, at)->0;
                    let i2 = choose|i2: int| 0 <= i2 < before.loaded().len() && before.loaded()[i2] == p
                        && self.loaded() == before.loaded().remove(i2);
                    assert(i2 == j);
                }
            },
            None => {},
        }
    }

    /// A loaded chunk sits at its own position.
    /// Loads `chunk`. A chunk already loaded at its position is replaced.
    /// Otherwise, when the manager is full, the earliest loaded chunk without
    /// unsaved changes is unloaded first (none when every chunk has some);
    /// then the chunk is added at the end of the load order.
    pub fn load_chunk(&mut self, chunk: Chunk)
        requires
            old(self).wf(),
            chunk.wf(),
        ensures
            final(self).wf(),
            final(self).chunk_at(chunk.position) == Some(chunk),
            old(self).chunk_at(chunk.position) is Some ==> {
                &&& forall|c: ChunkPos| c != chunk.position ==> #[trigger] final(self).chunk_at(c) == old(self).chunk_at(c)
                &&& final(self).loaded() == old(self).loaded()
                &&& final(self).loaded_counter() == old(self).loaded_counter()
            },
            old(self).chunk_at(chunk.position) is None ==> {
                let evicted = if old(self).loaded().len() >= old(self).max_loaded() {
                    first_clean(old(self).loaded(), old(self).chunks_fn())
                } else {
                    None
                };
                match evicted {
                    Some(i) => {
                        &&& final(self).loaded() == old(self).loaded().remove(i).push(chunk.position)
                        &&& forall|c: ChunkPos| c != chunk.position ==> #[trigger] final(self).chunk_at(c)
                            == (if c == old(self).loaded()[i] { None } else { old(self).chunk_at(c) })
                        &&& final(self).loaded_counter() == old(self).loaded_counter().wrapping_sub(1).wrapping_add(1)
                    },
                    None => {
                        &&& final(self).loaded() == old(self).loaded().push(chunk.position)
                        &&& forall|c: ChunkPos| c != chunk.position ==> #[trigger] final(self).chunk_at(c) == old(self).chunk_at(c)
                        &&& final(self).loaded_counter() == old(self).loaded_counter().wrapping_add(1)
                    },
                }
            },
            final(self).pending() == old(self).pending(),
            final(self).generated_counter() == old(self).generated_counter(),
            final(self).max_loaded() == old(self).max_loaded(),
            final(self).max_queue() == old(self).max_queue(),
    {
        let pos = chunk.position;
        let key = chunk_key(pos);
        let ghost start = *self;
        if self.chunks.contains_key(&key) {
            self.chunks.insert(key, chunk);
            proof {
                assert forall|c: ChunkPos| c != pos implies #[trigger] self.chunk_at(c) == start.chunk_at(c) by {
                    law_chunk_key_injective(c, pos);
                }
                assert(self.loaded() =~= start.loaded()) by {
                    assert forall|i: int| 0 <= i < self.load_order@.len() implies
                        self.chunks@[#[trigger] self.load_order@[i]].position == start.chunks@[self.load_order@[i]].position by {
                        let k = self.load_order@[i];
                        assert(start.load_order@.contains(k));
                        assert(start.chunks@.contains_key(k));
                        if k == key {
                            assert(spec_chunk_key(start.chunks@[k].position) == k);
                            law_chunk_key_injective(start.chunks@[k].position, pos);
                        }
                    }
                }
            }
            return;
        }
        if self.chunks.len() >= self.max_loaded_chunks {
            proof {
                start.lemma_loaded_distinct();
                assert(start.loaded().len() == start.load_order@.len());
                start.lemma_order_len();
            }
            self.evict_lru();
        } else {
            proof {
                start.lemma_order_len();
            }
        }
        let ghost mid = *self;
        proof {
            mid.lemma_chunk_at_position(pos);
            assert(!mid.chunks@.contains_key(key)) by {
                if mid.chunks@.contains_key(key) {
                    assert(mid.chunk_at(pos) is Some);
                }
            }
            assert(!mid.load_order@.contains(key));
        }
        self.chunks.insert(key, chunk);
        self.load_order.push(key);
        self.loaded_count = self.loaded_count.wrapping_add(1);
        proof {
            assert forall|c: ChunkPos| c != pos implies #[trigger] self.chunk_at(c) == mid.chunk_at(c) by {
                law_chunk_key_injective(c, pos);
            }
            assert forall|k: u64| #[trigger] self.chunks@.contains_key(k) <==> self.load_order@.contains(k) by {
                if self.load_order@.contains(k) && k != key {
                    let j = choose|j: int| 0 <= j < self.load_order@.len() && self.load_order@[j] == k;
                    assert(mid.load_order@[j] == k);
                }
                if self.chunks@.contains_key(k) && k != key {
                    assert(mid.load_order@.contains(k));
                    let j = choose|j: int| 0 <= j < mid.load_order@.len() && mid.load_order@[j] == k;
                    assert(self.load_order@[j] == k);
                }
                if k == key {
                    assert(self.load_order@[self.load_order@.len() - 1] == key);
                }
            }
            assert(self.loaded() =~= mid.loaded().push(pos)) by {
                assert forall|i: int| 0 <= i < mid.load_order@.len() implies
                    self.chunks@[#[trigger] self.load_order@[i]].position == mid.chunks@[self.load_order@[i]].position by {
                    let k = self.load_order@[i];
                    assert(mid.load_order@[i] == k);
                    assert(mid.load_order@.contains(k));
                }
            }
        }
    }

    /// Queues the chunk at `pos` for generation, unless the queue is full or
    /// already holds it.
    pub fn queue_generation(&mut self, pos: ChunkPos)
        requires
            old(self).wf(),
        ensures
            final(self).wf(),
            final(self).pending() == (if old(self).pending().len() < old(self).max_queue() && !old(self).pending().contains(pos) {
                old(self).pending().push(pos)
            } else {
                old(self).pending()
            }),
            forall|c: ChunkPos| #[trigger] final(self).chunk_at(c) == old(self).chunk_at(c),
            final(self).loaded() == old(self).loaded(),
            final(self).loaded_counter() == old(self).loaded_counter(),
            final(self).generated_counter() == old(self).generated_counter(),
            final(self).max_loaded() == old(self).max_loaded(),
            final(self).max_queue() == old(self).max_queue(),
    {
        if self.pending_generation.len() < self.max_generate_queue {
            let n = self.pending_generation.len();
            let mut i: usize = 0;
            while i < n
                invariant
                    n == self.pending_generation@.len(),
                    i <= n,
                    *self == *old(self),
                    old(self).wf(),
                    forall|j: int| 0 <= j < i ==> self.pending_generation@[j] != pos,
                decreases n - i,
            {
                if self.pending_generation[i] == pos {
                    return;
                }
                i = i + 1;
            }
            let ghost before = *self;
            self.pending_generation.push(pos);
            proof {
                assert(!before.pending_generation@.contains(pos));
                assert(self.loaded() =~= before.loaded());
            }
        }
    }

    /// Takes the chunk queued longest ago off the generation queue.
    pub fn pop_generation_queue(&mut self) -> (r: Option<ChunkPos>)
        requires
            old(self).wf(),
        ensures
            final(self).wf(),
            old(self).pending().len() == 0 ==> r is None && final(self).pending() == old(self).pending(),
            old(self).pending().len() > 0 ==> r == Some(old(self).pending()[0])
                && final(self).pending() == old(self).pending().drop_first(),
            forall|c: ChunkPos| #[trigger] final(self).chunk_at(c) == old(self).chunk_at(c),
            final(self).loaded() == old(self).loaded(),
            final(self).loaded_counter() == old(self).loaded_counter(),
            final(self).generated_counter() == old(self).generated_counter(),
            final(self).max_loaded() == old(self).max_loaded(),
            final(self).max_queue() == old(self).max_queue(),
    {
        if self.pending_generation.len() == 0 {
            return None;
        }
        let ghost before = *self;
        let pos = self.pending_generation.remove(0);
        proof {
            assert(self.pending_generation@ =~= before.pending_generation@.drop_first());
            assert(self.loaded() =~= before.loaded());
        }
        Some(pos)
    }

    /// How many chunks wait for generation.
    pub fn pending_count(&self) -> (n: usize)
        ensures
            n == self.pending().len(),
    {
        self.pending_generation.len()
    }

    /// Counts of loaded, generated and pending chunks, and the size of the
    /// chunk pool.
    pub fn stats(&self) -> (s: ChunkStats)
        ensures
            s.loaded == self.loaded_counter(),
            s.generated == self.generated_counter(),
            s.pending == self.pending().len(),
    {
        ChunkStats {
            loaded: self.loaded_count,
            generated: self.generated_count,
            pending: self.pending_generation.len(),
            total_slots: pool_capacity(&self.chunks),
        }
    }

    /// The positions of the loaded chunks, in the order they were loaded.
    pub fn loaded_positions(&self) -> (r: Vec<ChunkPos>)
        requires
            self.wf(),
        ensures
            r@ == self.loaded(),
    {
        let mut out: Vec<ChunkPos> = Vec::new();
        let n = self.load_order.len();
        let mut i: usize = 0;
        while i < n
            invariant
                n == self.load_order@.len(),
                i <= n,
                self.wf(),
                out@ == self.loaded().take(i as int),
            decreases n - i,
        {
            let key = self.load_order[i];
            assert(self.load_order@.contains(key));
            assert(self.chunks@.contains_key(key));
            match self.chunks.get(&key) {
                Some(c) => {
                    out.push(c.position);
                },
                None => {},
            }
            proof {
                assert(out@ =~= self.loaded().take(i as int + 1));
            }
            i = i + 1;
        }
        assert(self.loaded().take(n as int) =~= self.loaded());
        out
    }

    /// Unloads every chunk, empties the queue and resets the counts.
    pub fn clear(&mut self)
        ensures
            final(self).wf(),
            forall|c: ChunkPos| #[trigger] final(self).chunk_at(c).is_none(),
            final(self).loaded() == Seq::<ChunkPos>::empty(),
            final(self).pending() == Seq::<ChunkPos>::empty(),
            final(self).loaded_counter() == 0,
            final(self).generated_counter() == 0,
            final(self).max_loaded() == old(self).max_loaded(),
            final(self).max_queue() == old(self).max_queue(),
    {
        self.chunks.clear();
        self.load_order.clear();
        self.pending_generation.clear();
        self.loaded_count = 0;
        self.generated_count = 0;
        assert(self.loaded() =~= Seq::<ChunkPos>::empty());
    }

    /// The load order lists as many keys as there are chunks.
    proof fn lemma_order_len(&self)
        requires
            self.wf(),
        ensures
            self.chunks@.len() == self.load_order@.len(),
            self.loaded().len() == self.load_order@.len(),
    {
        let keys = self.load_order@;
        keys.unique_seq_to_set();
        assert(keys.to_set() =~= self.chunks@.dom()) by {
            assert forall|k: u64| keys.to_set().contains(k) <==> self.chunks@.dom().contains(k) by {
                if self.chunks@.dom().contains(k) {
                    assert(self.chunks@.contains_key(k));
                }
                if keys.contains(k) {
                    assert(self.chunks@.contains_key(k));
                }
            }
        }
    }

    /// Each loaded chunk appears once in the load order.
    pub proof fn lemma_loaded_distinct(&self)
        requires
            self.wf(),
        ensures
            self.loaded().no_duplicates(),
            forall|i: int| 0 <= i < self.loaded().len() ==> #[trigger] self.chunk_at(self.loaded()[i]) is Some,
    {
        assert forall|i: int, j: int| 0 <= i < j < self.loaded().len() implies self.loaded()[i] != self.loaded()[j] by {
            let ki = self.load_order@[i];
            let kj = self.load_order@[j];
            assert(self.load_order@.contains(ki));
            assert(self.load_order@.contains(kj));
            assert(self.chunks@.contains_key(ki));
            assert(self.chunks@.contains_key(kj));
            assert(ki != kj);
            assert(self.loaded()[i] == self.chunks@[ki].position);
            assert(self.loaded()[j] == self.chunks@[kj].position);
        }
        assert forall|i: int| 0 <= i < self.loaded().len() implies #[trigger] self.chunk_at(self.loaded()[i]) is Some by {
            let k = self.load_order@[i];
            assert(self.load_order@.contains(k));
            assert(self.chunks@.contains_key(k));
            assert(self.loaded()[i] == self.chunks@[k].position);
        }
    }

    pub proof fn lemma_chunk_at_position(&self, c: ChunkPos)
        requires
            self.wf(),
        ensures
            self.chunk_at(c) matches Some(ch) ==> ch.position == c && ch.wf(),
    {
        if self.chunks@.contains_key(spec_chunk_key(c)) {
            law_chunk_key_injective(self.chunks@[spec_chunk_key(c)].position, c);
        }
    }
}

/// Places `block_id` at `position`, when its chunk is loaded.
pub fn place_block(manager: &mut ChunkManager, position: BlockPos, block_id: u16)
    requires
        old(manager).wf(),
        old(manager).chunk_at(spec_chunk_of(position)) matches Some(ch) ==> ch.version < u64::MAX,
    ensures
        final(manager).wf(),
        forall|q: BlockPos| #[trigger] final(manager).block(q) == (if q == position
            && old(manager).chunk_at(spec_chunk_of(position)).is_some() && 0 <= position.y < 32 {
            block_id
        } else {
            old(manager).block(q)
        }),
        final(manager).loaded() == old(manager).loaded(),
{
    manager.set_block(position, block_id);
}

/// Breaks the block at `position`: when there is one (not air), it is
/// replaced by air and its id returned.
pub fn break_block(manager: &mut ChunkManager, position: BlockPos) -> (r: Option<u16>)
    requires
        old(manager).wf(),
        old(manager).chunk_at(spec_chunk_of(position)) matches Some(ch) ==> ch.version < u64::MAX,
    ensures
        final(manager).wf(),
        r == (if old(manager).block(position) != 0 { Some(old(manager).block(position)) } else { None::<u16> }),
        forall|q: BlockPos| #[trigger] final(manager).block(q) == (if q == position { 0 } else { old(manager).block(q) }),
        final(manager).loaded() == old(manager).loaded(),
{
    let block_id = manager.get_block(position);
    if block_id != 0 {
        proof {
            // a block other than air lies in a loaded chunk, within its height
            old(manager).lemma_chunk_at_position(spec_chunk_of(position));
        }
        manager.set_block(position, 0);
        Some(block_id)
    } else {
        None
    }
}

impl Default for ChunkManager {
    /// Room for 256 chunks.
    fn default() -> (m: Self)
        ensures
            m.wf(),
            forall|c: ChunkPos| m.chunk_at(c).is_none(),
            m.loaded() == Seq::<ChunkPos>::empty(),
            m.pending() == Seq::<ChunkPos>::empty(),
            m.max_loaded() == 256,
    {
        ChunkManager::new(256)
    }
}

} // verus!
