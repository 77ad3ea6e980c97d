//! Chunks: 32×32×32 blocks of the world with their light and biome data.

use vstd::prelude::*;
use crate::math::{BlockPos, ChunkPos, CHUNK_VOLUME};

verus! {

/// Where a chunk is in its life.
#[derive(Debug, Clone, Copy, PartialEq, Eq, Structural)]
pub enum ChunkState {
    /// Being generated.
    Generating,
    /// Loaded and ready.
    Loaded,
    /// Being saved.
    Saving,
    /// Queued for unload.
    Unloading,
}

/// Index of local position (x, y, z) in a chunk's block array: y-major,
/// then z, then x.
pub open spec fn local_index(x: int, y: int, z: int) -> int {
    y * 1024 + z * 32 + x
}

/// All three local coordinates lie inside the chunk.
pub open spec fn in_chunk(x: int, y: int, z: int) -> bool {
    0 <= x < 32 && 0 <= y < 32 && 0 <= z < 32
}

/// The local position of block `pos` in the chunk at `origin`: the offset in
/// x and z from the chunk's first block (the chunk position times the chunk
/// size), and the height as it is; `None` when it falls outside the chunk.
pub open spec fn world_to_local(origin: ChunkPos, pos: BlockPos) -> Option<(int, int, int)> {
    let dx = pos.x - 32 * origin.x;
    let dy = pos.y as int;
    let dz = pos.z - 32 * origin.z;
    if in_chunk(dx, dy, dz) { Some((dx, dy, dz)) } else { None }
}

/// A chunk's data.
#[derive(Debug, Clone)]
pub struct Chunk {
    pub position: ChunkPos,
    pub blocks: Vec<u16>,
    pub block_light: Vec<u8>,
    pub sky_light: Vec<u8>,
    pub biome: Vec<u8>,
    pub state: ChunkState,
    pub last_update: u64,
    pub version: u64,
    pub is_dirty: bool,
    pub is_generated: bool,
}

impl Chunk {
    /// The arrays have their full sizes: one entry per block for blocks and
    /// light, one per column for biomes.
    pub open spec fn wf(&self) -> bool {
        &&& self.blocks@.len() == CHUNK_VOLUME
        &&& self.block_light@.len() == CHUNK_VOLUME
        &&& self.sky_light@.len() == CHUNK_VOLUME
        &&& self.biome@.len() == 1024
    }

    /// An empty chunk: all air, no block light, full sky light, being generated.
    pub fn new(position: ChunkPos) -> (c: Self)
        ensures
            c.wf(),
            c.position == position,
            forall|i: int| 0 <= i < CHUNK_VOLUME ==> #[trigger] c.blocks@[i] == 0,
            forall|i: int| 0 <= i < CHUNK_VOLUME ==> #[trigger] c.block_light@[i] == 0,
            forall|i: int| 0 <= i < CHUNK_VOLUME ==> #[trigger] c.sky_light@[i] == 15,
            forall|i: int| 0 <= i < 1024 ==> #[trigger] c.biome@[i] == 0,
            c.state == ChunkState::Generating,
            c.last_update == 0,
            c.version == 1,
            !c.is_dirty,
            !c.is_generated,
    {
        Chunk {
            position,
            blocks: vec![0u16; CHUNK_VOLUME],
            block_light: vec![0u8; CHUNK_VOLUME],
            sky_light: vec![15u8; CHUNK_VOLUME],
            biome: vec![0u8; 1024],
            state: ChunkState::Generating,
            last_update: 0,
            version: 1,
            is_dirty: false,
            is_generated: false,
        }
    }

    /// The block at local coordinates.
    pub fn get_block_local(&self, x: usize, y: usize, z: usize) -> (b: u16)
        requires
            self.wf(),
            in_chunk(x as int, y as int, z as int),
        ensures
            b == self.blocks@[local_index(x as int, y as int, z as int)],
    {
        let idx = y * 1024 + z * 32 + x;
        self.blocks[idx]
    }

    /// Sets the block at local coordinates; the chunk becomes dirty and its
    /// version goes up by one.
    pub fn set_block_local(&mut self, x: usize, y: usize, z: usize, block_id: u16)
        requires
            old(self).wf(),
            in_chunk(x as int, y as int, z as int),
            old(self).version < u64::MAX,
        ensures
            final(self).wf(),
            final(self).blocks@ == old(self).blocks@.update(local_index(x as int, y as int, z as int), block_id),
            final(self).is_dirty,
            final(self).version == old(self).version + 1,
            final(self).position == old(self).position,
            final(self).block_light@ == old(self).block_light@,
            final(self).sky_light@ == old(self).sky_light@,
            final(self).biome@ == old(self).biome@,
            final(self).state == old(self).state,
            final(self).last_update == old(self).last_update,
            final(self).is_generated == old(self).is_generated,
    {
        let idx = y * 1024 + z * 32 + x;
        self.blocks.set(idx, block_id);
        self.is_dirty = true;
        self.version = self.version + 1;
    }

    /// The local position of `pos`, if it lies in this chunk.
    fn local_of(&self, pos: BlockPos) -> (r: Option<(usize, usize, usize)>)
        ensures
            r matches Some((x, y, z)) ==> world_to_local(self.position, pos) == Some((x as int, y as int, z as int)),
            r is None ==> world_to_local(self.position, pos) is None,
    {
        let dx: i64 = pos.x as i64 - (self.position.x as i64) * 32;
        let dy = pos.y;
        let dz: i64 = pos.z as i64 - (self.position.z as i64) * 32;
        if dx < 0 || dx >= 32 || dy < 0 || dy >= 32 || dz < 0 || dz >= 32 {
            return None;
        }
        Some((dx as usize, dy as usize, dz as usize))
    }

    /// The block at world position `pos`, or air (0) when `pos` is not in
    /// this chunk.
    pub fn get_block_world(&self, pos: BlockPos) -> (b: u16)
        requires
            self.wf(),
        ensures
            b == (match world_to_local(self.position, pos) {
                Some((x, y, z)) => self.blocks@[local_index(x, y, z)],
                None => 0u16,
            }),
    {
        match self.local_of(pos) {
            Some((x, y, z)) => self.get_block_local(x, y, z),
            None => 0,
        }
    }

    /// Sets the block at world position `pos`; does nothing when `pos` is not
    /// in this chunk.
    pub fn set_block_world(&mut self, pos: BlockPos, block_id: u16)
        requires
            old(self).wf(),
            old(self).version < u64::MAX,
        ensures
            final(self).wf(),
            final(self).position == old(self).position,
            match world_to_local(old(self).position, pos) {
                Some((x, y, z)) => {
                    &&& final(self).blocks@ == old(self).blocks@.update(local_index(x, y, z), block_id)
                    &&& final(self).is_dirty
                    &&& final(self).version == old(self).version + 1
                    &&& final(self).block_light@ == old(self).block_light@
                    &&& final(self).sky_light@ == old(self).sky_light@
                    &&& final(self).biome@ == old(self).biome@
                    &&& final(self).state == old(self).state
                    &&& final(self).last_update == old(self).last_update
                    &&& final(self).is_generated == old(self).is_generated
                },
                None => *final(self) == *old(self),
            },
    {
        match self.local_of(pos) {
            Some((x, y, z)) => self.set_block_local(x, y, z, block_id),
            None => {},
        }
    }

    /// Marks the chunk generated and loaded.
    pub fn mark_generated(&mut self)
        ensures
            *final(self) == (Chunk { is_generated: true, state: ChunkState::Loaded, ..*old(self) }),
    {
        self.is_generated = true;
        self.state = ChunkState::Loaded;
    }

    /// Marks the chunk as needing a save.
    pub fn mark_dirty(&mut self)
        ensures
            *final(self) == (Chunk { is_dirty: true, ..*old(self) }),
    {
        self.is_dirty = true;
    }
}

/// A read after a write at the same local position gives the written block;
/// a read at any other position gives the block that was there before.
pub proof fn law_read_after_write(
    blocks: Seq<u16>,
    x: int, y: int, z: int,
    block_id: u16,
    qx: int, qy: int, qz: int,
)
    requires
        blocks.len() == CHUNK_VOLUME,
        in_chunk(x, y, z),
        in_chunk(qx, qy, qz),
    ensures
        blocks.update(local_index(x, y, z), block_id)[local_index(qx, qy, qz)]
            == (if x == qx && y == qy && z == qz { block_id } else { blocks[local_index(qx, qy, qz)] }),
{
}

/// Chunk manager statistics.
#[derive(Debug, Clone, Copy, PartialEq, Eq, Structural)]
pub struct ChunkStats {
    pub loaded: u64,
    pub generated: u64,
    pub pending: usize,
    pub total_slots: usize,
}

} // verus!
