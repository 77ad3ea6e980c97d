//! Integer positions and directions of the voxel grid.

use vstd::prelude::*;

verus! {

/// Chunk edge length in blocks.
pub const CHUNK_SIZE: usize = 32;

/// log2 of `CHUNK_SIZE`.
pub const CHUNK_BITS: i32 = 5;

/// Number of blocks in a chunk.
pub const CHUNK_VOLUME: usize = 32768;

/// A position on the block grid.
#[derive(Debug, Clone, Copy, PartialEq, Eq, Structural, Hash)]
pub struct BlockPos {
    pub x: i32,
    pub y: i32,
    pub z: i32,
}

/// `v` fits in an `i32`.
pub open spec fn fits_i32(v: int) -> bool {
    i32::MIN <= v <= i32::MAX
}

pub open spec fn spec_min(a: int, b: int) -> int {
    if a <= b { a } else { b }
}

pub open spec fn spec_max(a: int, b: int) -> int {
    if a >= b { a } else { b }
}

pub open spec fn spec_abs(a: int) -> int {
    if a < 0 { -a } else { a }
}

impl BlockPos {
    /// The origin.
    pub fn zero() -> (p: Self)
        ensures
            p == (BlockPos { x: 0, y: 0, z: 0 }),
    {
        BlockPos { x: 0, y: 0, z: 0 }
    }

    /// One step up (+y).
    pub fn up() -> (p: Self)
        ensures
            p == (BlockPos { x: 0, y: 1, z: 0 }),
    {
        BlockPos { x: 0, y: 1, z: 0 }
    }

    /// One step down (-y).
    pub fn down() -> (p: Self)
        ensures
            p == (BlockPos { x: 0, y: -1i32, z: 0 }),
    {
        BlockPos { x: 0, y: -1, z: 0 }
    }

    /// One step left (-x).
    pub fn left() -> (p: Self)
        ensures
            p == (BlockPos { x: -1i32, y: 0, z: 0 }),
    {
        BlockPos { x: -1, y: 0, z: 0 }
    }

    /// One step right (+x).
    pub fn right() -> (p: Self)
        ensures
            p == (BlockPos { x: 1, y: 0, z: 0 }),
    {
        BlockPos { x: 1, y: 0, z: 0 }
    }

    /// One step forward (+z).
    pub fn forward() -> (p: Self)
        ensures
            p == (BlockPos { x: 0, y: 0, z: 1 }),
    {
        BlockPos { x: 0, y: 0, z: 1 }
    }

    /// One step back (-z).
    pub fn back() -> (p: Self)
        ensures
            p == (BlockPos { x: 0, y: 0, z: -1i32 }),
    {
        BlockPos { x: 0, y: 0, z: -1 }
    }

    pub open spec fn spec_new(x: i32, y: i32, z: i32) -> BlockPos {
        BlockPos { x, y, z }
    }

    /// The dot product, computed over the integers.
    pub open spec fn spec_dot(self, other: BlockPos) -> int {
        self.x * other.x + self.y * other.y + self.z * other.z
    }

    /// The components of the cross product, computed over the integers.
    pub open spec fn cross_x(self, o: BlockPos) -> int {
        self.y * o.z - self.z * o.y
    }

    pub open spec fn cross_y(self, o: BlockPos) -> int {
        self.z * o.x - self.x * o.z
    }

    pub open spec fn cross_z(self, o: BlockPos) -> int {
        self.x * o.y - self.y * o.x
    }

    /// The position `self + d`, component-wise, over the integers.
    pub open spec fn plus(self, d: BlockPos) -> (int, int, int) {
        (self.x + d.x, self.y + d.y, self.z + d.z)
    }

    pub fn new(x: i32, y: i32, z: i32) -> (p: Self)
        ensures
            p == Self::spec_new(x, y, z),
    {
        BlockPos { x, y, z }
    }

    pub fn from_array(arr: [i32; 3]) -> (p: Self)
        ensures
            p.x == arr@[0],
            p.y == arr@[1],
            p.z == arr@[2],
    {
        BlockPos { x: arr[0], y: arr[1], z: arr[2] }
    }

    pub fn to_array(&self) -> (arr: [i32; 3])
        ensures
            arr@ == seq![self.x, self.y, self.z],
    {
        [self.x, self.y, self.z]
    }

    /// Dot product; the caller keeps every partial sum within `i32`.
    pub fn dot(&self, other: &Self) -> (d: i32)
        requires
            fits_i32(self.x * other.x),
            fits_i32(self.y * other.y),
            fits_i32(self.z * other.z),
            fits_i32(self.x * other.x + self.y * other.y),
            fits_i32(self.spec_dot(*other)),
        ensures
            d == self.spec_dot(*other),
    {
        let a = self.x * other.x;
        let b = self.y * other.y;
        let c = self.z * other.z;
        a + b + c
    }

    /// Cross product; every product and difference must fit in `i32`.
    pub fn cross(&self, other: &Self) -> (c: Self)
        requires
            fits_i32(self.y * other.z),
            fits_i32(self.z * other.y),
            fits_i32(self.z * other.x),
            fits_i32(self.x * other.z),
            fits_i32(self.x * other.y),
            fits_i32(self.y * other.x),
            fits_i32(self.cross_x(*other)),
            fits_i32(self.cross_y(*other)),
            fits_i32(self.cross_z(*other)),
        ensures
            c.x == self.cross_x(*other),
            c.y == self.cross_y(*other),
            c.z == self.cross_z(*other),
    {
        let yz = self.y * other.z;
        let zy = self.z * other.y;
        let zx = self.z * other.x;
        let xz = self.x * other.z;
        let xy = self.x * other.y;
        let yx = self.y * other.x;
        BlockPos { x: yz - zy, y: zx - xz, z: xy - yx }
    }

    /// Component-wise minimum.
    pub fn min(&self, other: &Self) -> (m: Self)
        ensures
            m.x == spec_min(self.x as int, other.x as int),
            m.y == spec_min(self.y as int, other.y as int),
            m.z == spec_min(self.z as int, other.z as int),
    {
        BlockPos {
            x: if self.x <= other.x { self.x } else { other.x },
            y: if self.y <= other.y { self.y } else { other.y },
            z: if self.z <= other.z { self.z } else { other.z },
        }
    }

    /// Component-wise maximum.
    pub fn max(&self, other: &Self) -> (m: Self)
        ensures
            m.x == spec_max(self.x as int, other.x as int),
            m.y == spec_max(self.y as int, other.y as int),
            m.z == spec_max(self.z as int, other.z as int),
    {
        BlockPos {
            x: if self.x >= other.x { self.x } else { other.x },
            y: if self.y >= other.y { self.y } else { other.y },
            z: if self.z >= other.z { self.z } else { other.z },
        }
    }

    /// Component-wise absolute value; `i32::MIN` has none.
    pub fn abs(&self) -> (a: Self)
        requires
            self.x != i32::MIN,
            self.y != i32::MIN,
            self.z != i32::MIN,
        ensures
            a.x == spec_abs(self.x as int),
            a.y == spec_abs(self.y as int),
            a.z == spec_abs(self.z as int),
    {
        BlockPos {
            x: if self.x < 0 { -self.x } else { self.x },
            y: if self.y < 0 { -self.y } else { self.y },
            z: if self.z < 0 { -self.z } else { self.z },
        }
    }
}

impl Default for BlockPos {
    /// The origin.
    fn default() -> (p: Self)
        ensures
            p == (BlockPos { x: 0, y: 0, z: 0 }),
    {
        BlockPos { x: 0, y: 0, z: 0 }
    }
}

/// A chunk column position, in chunk units.
#[derive(Debug, Clone, Copy, PartialEq, Eq, Structural, Hash)]
pub struct ChunkPos {
    pub x: i32,
    pub z: i32,
}

/// The chunk coordinate that holds block coordinate `b`: `b` divided by the
/// chunk size, rounded towards negative infinity.
pub open spec fn chunk_coord(b: int) -> int {
    b / (CHUNK_SIZE as int)
}

impl ChunkPos {
    pub fn new(x: i32, z: i32) -> (p: Self)
        ensures
            p.x == x,
            p.z == z,
    {
        ChunkPos { x, z }
    }

    /// The chunk that contains `block`.
    pub fn from_block(block: &BlockPos) -> (p: Self)
        ensures
            p.x == chunk_coord(block.x as int),
            p.z == chunk_coord(block.z as int),
            32 * p.x <= block.x < 32 * p.x + 32,
            32 * p.z <= block.z < 32 * p.z + 32,
    {
        let bx = block.x;
        let bz = block.z;
        let x = bx >> 5u32;
        let z = bz >> 5u32;
        proof {
            lemma_shr5_floor(bx);
            lemma_shr5_floor(bz);
        }
        ChunkPos { x, z }
    }

    /// The block position of this chunk's origin at height `y`; the chunk
    /// coordinates are multiplied by the chunk size, wrapping in `i32`.
    pub fn to_block(&self, y: i32) -> (b: BlockPos)
        ensures
            b.x == (self.x * 32) as i32,
            b.y == y,
            b.z == (self.z * 32) as i32,
            -0x4000000 <= self.x < 0x4000000 ==> b.x == self.x * 32,
            -0x4000000 <= self.z < 0x4000000 ==> b.z == self.z * 32,
    {
        let sx = self.x;
        let sz = self.z;
        let x = sx << 5u32;
        let z = sz << 5u32;
        proof {
            lemma_shl5(sx);
            lemma_shl5(sz);
        }
        BlockPos { x, y, z }
    }

    pub fn to_array(&self) -> (arr: [i32; 2])
        ensures
            arr@ == seq![self.x, self.z],
    {
        [self.x, self.z]
    }
}

impl Default for ChunkPos {
    /// The chunk at the origin.
    fn default() -> (p: Self)
        ensures
            p == (ChunkPos { x: 0, z: 0 }),
    {
        ChunkPos { x: 0, z: 0 }
    }
}

proof fn lemma_shr5_floor(v: i32)
    ensures
        (v >> 5u32) as int == chunk_coord(v as int),
{
    assert(32 * (v >> 5u32) <= v < 32 * (v >> 5u32) + 32) by (bit_vector);
}

proof fn lemma_shl5(v: i32)
    ensures
        (v << 5u32) == (v * 32) as i32,
        -0x4000000 <= v < 0x4000000 ==> (v << 5u32) == v * 32,
{
    assert((v << 5u32) == (v * 32) as i32) by (bit_vector);
    assert(-0x4000000 <= v < 0x4000000 ==> (v << 5u32) == v * 32) by (bit_vector);
}

/// The key under which a chunk is filed: its two coordinates, as 32-bit
/// patterns, side by side.
pub open spec fn spec_chunk_key(c: ChunkPos) -> u64 {
    ((c.x as u32 as u64) * 0x1_0000_0000 + (c.z as u32 as u64)) as u64
}

pub(crate) fn chunk_key(c: ChunkPos) -> (k: u64)
    ensures
        k == spec_chunk_key(c),
{
    let hi: u64 = c.x as u32 as u64;
    let lo: u64 = c.z as u32 as u64;
    assert(hi * 0x1_0000_0000 + lo <= u64::MAX) by (nonlinear_arith)
        requires
            hi <= u32::MAX,
            lo <= u32::MAX,
    ;
    hi * 0x1_0000_0000 + lo
}

/// Different chunks are filed under different keys.
pub proof fn law_chunk_key_injective(a: ChunkPos, b: ChunkPos)
    ensures
        spec_chunk_key(a) == spec_chunk_key(b) ==> a == b,
{
    let ax = a.x as u32 as u64;
    let az = a.z as u32 as u64;
    let bx = b.x as u32 as u64;
    let bz = b.z as u32 as u64;
    if spec_chunk_key(a) == spec_chunk_key(b) {
        assert(ax == bx && az == bz) by (nonlinear_arith)
            requires
                ax * 0x1_0000_0000 + az == bx * 0x1_0000_0000 + bz,
                ax <= u32::MAX,
                az <= u32::MAX,
                bx <= u32::MAX,
                bz <= u32::MAX,
        ;
        lemma_u32_pattern_injective(a.x, b.x);
        lemma_u32_pattern_injective(a.z, b.z);
    }
}

proof fn lemma_u32_pattern_injective(p: i32, q: i32)
    ensures
        (p as u32) == (q as u32) ==> p == q,
{
    assert((p as u32) == (q as u32) ==> p == q) by (bit_vector);
}

/// The chunk whose column holds block position `p`.
pub open spec fn spec_chunk_of(p: BlockPos) -> ChunkPos {
    ChunkPos { x: chunk_coord(p.x as int) as i32, z: chunk_coord(p.z as int) as i32 }
}

/// The six axis directions of a block face.
#[derive(Debug, Clone, Copy, PartialEq, Eq, Structural, Hash)]
pub enum Direction {
    Up,
    Down,
    North,
    South,
    East,
    West,
}

impl Direction {
    /// The unit step of this direction on the block grid.
    pub open spec fn spec_offset(self) -> BlockPos {
        match self {
            Direction::Up => BlockPos { x: 0, y: 1, z: 0 },
            Direction::Down => BlockPos { x: 0, y: -1i32, z: 0 },
            Direction::North => BlockPos { x: 0, y: 0, z: -1i32 },
            Direction::South => BlockPos { x: 0, y: 0, z: 1 },
            Direction::East => BlockPos { x: 1, y: 0, z: 0 },
            Direction::West => BlockPos { x: -1i32, y: 0, z: 0 },
        }
    }

    pub open spec fn spec_opposite(self) -> Direction {
        match self {
            Direction::Up => Direction::Down,
            Direction::Down => Direction::Up,
            Direction::North => Direction::South,
            Direction::South => Direction::North,
            Direction::East => Direction::West,
            Direction::West => Direction::East,
        }
    }

    pub fn all() -> (a: [Self; 6])
        ensures
            a@ == seq![
                Direction::Up,
                Direction::Down,
                Direction::North,
                Direction::South,
                Direction::East,
                Direction::West,
            ],
    {
        [Direction::Up, Direction::Down, Direction::North, Direction::South, Direction::East, Direction::West]
    }

    pub fn opposite(&self) -> (d: Self)
        ensures
            d == self.spec_opposite(),
    {
        match self {
            Direction::Up => Direction::Down,
            Direction::Down => Direction::Up,
            Direction::North => Direction::South,
            Direction::South => Direction::North,
            Direction::East => Direction::West,
            Direction::West => Direction::East,
        }
    }

    pub fn offset(&self) -> (p: BlockPos)
        ensures
            p == self.spec_offset(),
    {
        match self {
            Direction::Up => BlockPos { x: 0, y: 1, z: 0 },
            Direction::Down => BlockPos { x: 0, y: -1, z: 0 },
            Direction::North => BlockPos { x: 0, y: 0, z: -1 },
            Direction::South => BlockPos { x: 0, y: 0, z: 1 },
            Direction::East => BlockPos { x: 1, y: 0, z: 0 },
            Direction::West => BlockPos { x: -1, y: 0, z: 0 },
        }
    }
}

impl Default for Direction {
    fn default() -> (d: Self)
        ensures
            d == Direction::North,
    {
        Direction::North
    }
}

/// Turning a direction around twice gives it back, and a direction's step and
/// its opposite's step cancel out.
pub proof fn law_direction_opposite(d: Direction)
    ensures
        d.spec_opposite().spec_opposite() == d,
        d.spec_opposite() != d,
        d.spec_offset().x + d.spec_opposite().spec_offset().x == 0,
        d.spec_offset().y + d.spec_opposite().spec_offset().y == 0,
        d.spec_offset().z + d.spec_opposite().spec_offset().z == 0,
{
}

/// The chunk of a block holds the block: the block lies within the chunk's
/// span of 32 coordinates on each horizontal axis.
pub proof fn law_chunk_contains_block(b: int)
    ensures
        32 * chunk_coord(b) <= b < 32 * chunk_coord(b) + 32,
{
}

/// The cross product is anticommutative, vanishes on equal vectors, and is
/// orthogonal to both of its factors (all over the integers).
pub proof fn law_cross_product(a: BlockPos, b: BlockPos)
    ensures
        a.cross_x(b) == -b.cross_x(a),
        a.cross_y(b) == -b.cross_y(a),
        a.cross_z(b) == -b.cross_z(a),
        a.cross_x(a) == 0 && a.cross_y(a) == 0 && a.cross_z(a) == 0,
        a.x * a.cross_x(b) + a.y * a.cross_y(b) + a.z * a.cross_z(b) == 0,
        b.x * a.cross_x(b) + b.y * a.cross_y(b) + b.z * a.cross_z(b) == 0,
{
    let (ax, ay, az, bx, by, bz) = (a.x as int, a.y as int, a.z as int, b.x as int, b.y as int, b.z as int);
    assert(ay * bz - az * by == -(by * az - bz * ay)) by (nonlinear_arith);
    assert(az * bx - ax * bz == -(bz * ax - bx * az)) by (nonlinear_arith);
    assert(ax * by - ay * bx == -(bx * ay - by * ax)) by (nonlinear_arith);
    assert(ay * az - az * ay == 0 && az * ax - ax * az == 0 && ax * ay - ay * ax == 0) by (nonlinear_arith);
    assert(ax * (ay * bz - az * by) + ay * (az * bx - ax * bz) + az * (ax * by - ay * bx) == 0) by (nonlinear_arith);
    assert(bx * (ay * bz - az * by) + by * (az * bx - ax * bz) + bz * (ax * by - ay * bx) == 0) by (nonlinear_arith);
}

} // verus!
