//! Chunk meshes: which block faces show, and the vertex and index lists
//! that draw them.

use vstd::prelude::*;
use crate::block::{BlockId, BLOCK_AIR};
use crate::math::Direction;

verus! {

/// A triangle mesh: vertices (`V`, the game's vertex type) and the indices
/// of the vertices of its triangles, three at a time.
#[derive(Debug, Clone)]
pub struct Mesh<V> {
    pub vertices: Vec<V>,
    pub indices: Vec<u32>,
}

impl<V> Mesh<V> {
    /// Every index names a vertex of the mesh.
    pub open spec fn wf(&self) -> bool {
        forall|i: int| 0 <= i < self.indices.len() ==> (#[trigger] self.indices@[i]) < self.vertices.len()
    }

    /// An empty mesh.
    pub fn new() -> (m: Self)
        ensures
            m.vertices@ == Seq::<V>::empty(),
            m.indices@ == Seq::<u32>::empty(),
            m.wf(),
    {
        Mesh { vertices: Vec::new(), indices: Vec::new() }
    }

    /// Removes every vertex and index.
    pub fn clear(&mut self)
        ensures
            final(self).vertices@ == Seq::<V>::empty(),
            final(self).indices@ == Seq::<u32>::empty(),
            final(self).wf(),
    {
        self.vertices.clear();
        self.indices.clear();
    }

    /// Adds a quad with corners `c0` to `c3` (in order round the quad) as
    /// the two triangles (0, 1, 2) and (0, 2, 3).
    pub fn add_quad_vertices(&mut self, c0: V, c1: V, c2: V, c3: V)
        requires
            old(self).vertices.len() + 4 <= u32::MAX,
        ensures
            final(self).vertices@ == old(self).vertices@ + seq![c0, c1, c2, c3],
            ({
                let s = old(self).vertices.len() as u32;
                final(self).indices@ == old(self).indices@ + seq![s, (s + 1) as u32, (s + 2) as u32, s, (s + 2) as u32, (s + 3) as u32]
            }),
            old(self).wf() ==> final(self).wf(),
    {
        let start = self.vertices.len() as u32;
        let ghost before = self.vertices@;
        self.vertices.push(c0);
        self.vertices.push(c1);
        self.vertices.push(c2);
        self.vertices.push(c3);
        assert(self.vertices@ =~= before + seq![c0, c1, c2, c3]);
        let ghost idx_before = self.indices@;
        self.indices.push(start);
        self.indices.push(start + 1);
        self.indices.push(start + 2);
        self.indices.push(start);
        self.indices.push(start + 2);
        self.indices.push(start + 3);
        assert(self.indices@ =~= idx_before + seq![start, (start + 1) as u32, (start + 2) as u32, start, (start + 2) as u32, (start + 3) as u32]);
    }

    /// Appends `other`: its vertices after this mesh's, its indices shifted
    /// past this mesh's vertices.
    pub fn merge(&mut self, other: &Mesh<V>)
        where V: Copy,
        requires
            forall|i: int| 0 <= i < other.indices.len() ==> old(self).vertices.len() + (#[trigger] other.indices@[i]) <= u32::MAX,
            old(self).vertices.len() + other.vertices.len() <= usize::MAX,
        ensures
            final(self).vertices@ == old(self).vertices@ + other.vertices@,
            final(self).indices@ == old(self).indices@ + other.indices@.map_values(|i: u32| (i + old(self).vertices.len()) as u32),
            old(self).wf() && other.wf() ==> final(self).wf(),
    {
        let offset = self.vertices.len();
        let ghost before = self.vertices@;
        let mut k: usize = 0;
        while k < other.vertices.len()
            invariant
                k <= other.vertices.len(),
                self.vertices@ == before + other.vertices@.take(k as int),
                self.indices@ == old(self).indices@,
                before == old(self).vertices@,
            decreases other.vertices.len() - k,
        {
            self.vertices.push(other.vertices[k]);
            assert(other.vertices@.take(k as int + 1) =~= other.vertices@.take(k as int).push(other.vertices@[k as int]));
            k = k + 1;
        }
        assert(other.vertices@.take(k as int) =~= other.vertices@);
        let ghost idx_before = self.indices@;
        let mut j: usize = 0;
        while j < other.indices.len()
            invariant
                j <= other.indices.len(),
                offset == before.len(),
                self.vertices@ == before + other.vertices@,
                forall|i: int| 0 <= i < other.indices.len() ==> offset + (#[trigger] other.indices@[i]) <= u32::MAX,
                self.indices@ == idx_before + other.indices@.take(j as int).map_values(|i: u32| (i + offset) as u32),
            decreases other.indices.len() - j,
        {
            let shifted = other.indices[j] + offset as u32;
            self.indices.push(shifted);
            assert(other.indices@.take(j as int + 1).map_values(|i: u32| (i + offset) as u32)
                =~= other.indices@.take(j as int).map_values(|i: u32| (i + offset) as u32).push(shifted));
            j = j + 1;
        }
        assert(other.indices@.take(j as int) =~= other.indices@);
        proof {
            if old(self).wf() && other.wf() {
                assert forall|i: int| 0 <= i < self.indices.len() implies (#[trigger] self.indices@[i]) < self.vertices.len() by {
                    if i >= idx_before.len() {
                        assert(other.indices@[i - idx_before.len()] < other.vertices.len());
                    }
                }
            }
        }
    }
}

/// Edge length of the cube of blocks a mesh covers.
pub const MESH_SIZE: i32 = 32;

/// The block at (`x`, `y`, `z`) of a cube of blocks stored x fastest, then
/// z, then y; air outside the cube or past the end of `blocks`.
pub open spec fn cube_block(blocks: Seq<BlockId>, x: int, y: int, z: int) -> BlockId {
    if 0 <= x < 32 && 0 <= y < 32 && 0 <= z < 32 && x + z * 32 + y * 1024 < blocks.len() {
        blocks[x + z * 32 + y * 1024]
    } else {
        BLOCK_AIR
    }
}

/// Whether the face of block (`x`, `y`, `z`) towards `d` shows: the block
/// is not air and its neighbour that way is.
pub open spec fn face_shows(blocks: Seq<BlockId>, x: int, y: int, z: int, d: Direction) -> bool {
    &&& cube_block(blocks, x, y, z) != BLOCK_AIR
    &&& cube_block(blocks, x + d.spec_offset().x, y + d.spec_offset().y, z + d.spec_offset().z) == BLOCK_AIR
}

fn block_of(blocks: &[BlockId], x: i32, y: i32, z: i32) -> (b: BlockId)
    ensures
        b == cube_block(blocks@, x as int, y as int, z as int),
{
    if x < 0 || x >= 32 || y < 0 || y >= 32 || z < 0 || z >= 32 {
        return BLOCK_AIR;
    }
    let idx = x as usize + (z as usize) * 32 + (y as usize) * 1024;
    if idx < blocks.len() {
        blocks[idx]
    } else {
        BLOCK_AIR
    }
}

/// The faces of a cube of blocks that show, as (x, y, z, direction), in y,
/// then z, then x order and, for one block, in the order of
/// `Direction::all`.
pub fn visible_faces(blocks: &[BlockId]) -> (r: Vec<(i32, i32, i32, Direction)>)
    ensures
        forall|k: int| 0 <= k < r.len() ==> {
            let (x, y, z, d) = #[trigger] r@[k];
            0 <= x < 32 && 0 <= y < 32 && 0 <= z < 32 && face_shows(blocks@, x as int, y as int, z as int, d)
        },
        forall|x: i32, y: i32, z: i32, d: Direction|
            0 <= x < 32 && 0 <= y < 32 && 0 <= z < 32 && #[trigger] face_shows(blocks@, x as int, y as int, z as int, d)
            ==> r@.contains((x, y, z, d)),
{
    let mut r: Vec<(i32, i32, i32, Direction)> = Vec::new();
    let dirs = Direction::all();
    let mut y: i32 = 0;
    while y < 32
        invariant
            0 <= y <= 32,
            dirs@ == seq![Direction::Up, Direction::Down, Direction::North, Direction::South, Direction::East, Direction::West],
            forall|k: int| 0 <= k < r.len() ==> {
                let (x, y, z, d) = #[trigger] r@[k];
                0 <= x < 32 && 0 <= y < 32 && 0 <= z < 32 && face_shows(blocks@, x as int, y as int, z as int, d)
            },
            forall|fx: i32, fy: i32, fz: i32, d: Direction|
                0 <= fx < 32 && 0 <= fy < y && 0 <= fz < 32 && #[trigger] face_shows(blocks@, fx as int, fy as int, fz as int, d)
                ==> r@.contains((fx, fy, fz, d)),
        decreases 32 - y,
    {
        let mut z: i32 = 0;
        while z < 32
            invariant
                0 <= y < 32,
                0 <= z <= 32,
                dirs@ == seq![Direction::Up, Direction::Down, Direction::North, Direction::South, Direction::East, Direction::West],
                forall|k: int| 0 <= k < r.len() ==> {
                    let (x, y, z, d) = #[trigger] r@[k];
                    0 <= x < 32 && 0 <= y < 32 && 0 <= z < 32 && face_shows(blocks@, x as int, y as int, z as int, d)
                },
                forall|fx: i32, fy: i32, fz: i32, d: Direction|
                    0 <= fx < 32 && (0 <= fy < y || (fy == y && 0 <= fz < z)) && 0 <= fz < 32
                    && #[trigger] face_shows(blocks@, fx as int, fy as int, fz as int, d)
                    ==> r@.contains((fx, fy, fz, d)),
            decreases 32 - z,
        {
            let mut x: i32 = 0;
            while x < 32
                invariant
                    0 <= y < 32,
                    0 <= z < 32,
                    0 <= x <= 32,
                    dirs@ == seq![Direction::Up, Direction::Down, Direction::North, Direction::South, Direction::East, Direction::West],
                    forall|k: int| 0 <= k < r.len() ==> {
                        let (x, y, z, d) = #[trigger] r@[k];
                        0 <= x < 32 && 0 <= y < 32 && 0 <= z < 32 && face_shows(blocks@, x as int, y as int, z as int, d)
                    },
                    forall|fx: i32, fy: i32, fz: i32, d: Direction|
                        0 <= fx < 32 && 0 <= fz < 32 && (0 <= fy < y || (fy == y && 0 <= fz < z) || (fy == y && fz == z && 0 <= fx < x))
                        && #[trigger] face_shows(blocks@, fx as int, fy as int, fz as int, d)
                        ==> r@.contains((fx, fy, fz, d)),
                decreases 32 - x,
            {
                let block_id = block_of(blocks, x, y, z);
                if block_id != BLOCK_AIR {
                    let mut i: usize = 0;
                    while i < 6
                        invariant
                            0 <= y < 32,
                            0 <= z < 32,
                            0 <= x < 32,
                            i <= 6,
                            block_id == cube_block(blocks@, x as int, y as int, z as int),
                            block_id != BLOCK_AIR,
                            dirs@ == seq![Direction::Up, Direction::Down, Direction::North, Direction::South, Direction::East, Direction::West],
                            forall|k: int| 0 <= k < r.len() ==> {
                                let (x, y, z, d) = #[trigger] r@[k];
                                0 <= x < 32 && 0 <= y < 32 && 0 <= z < 32 && face_shows(blocks@, x as int, y as int, z as int, d)
                            },
                            forall|fx: i32, fy: i32, fz: i32, d: Direction|
                                0 <= fx < 32 && 0 <= fz < 32 && (0 <= fy < y || (fy == y && 0 <= fz < z) || (fy == y && fz == z && 0 <= fx < x))
                                && #[trigger] face_shows(blocks@, fx as int, fy as int, fz as int, d)
                                ==> r@.contains((fx, fy, fz, d)),
                            forall|j: int| 0 <= j < i && face_shows(blocks@, x as int, y as int, z as int, #[trigger] dirs@[j])
                                ==> r@.contains((x, y, z, dirs@[j])),
                        decreases 6 - i,
                    {
                        let d = dirs[i];
                        let o = d.offset();
                        let neighbor = block_of(blocks, x + o.x, y + o.y, z + o.z);
                        let ghost before = r@;
                        if neighbor == BLOCK_AIR {
                            r.push((x, y, z, d));
                            assert(r@[r.len() - 1] == (x, y, z, d));
                        }
                        proof {
                            assert forall|q: (i32, i32, i32, Direction)| before.contains(q) implies r@.contains(q) by {
                                let k = choose|k: int| 0 <= k < before.len() && before[k] == q;
                                assert(r@[k] == q);
                            }
                        }
                        i = i + 1;
                    }
                    proof {
                        assert forall|d: Direction| face_shows(blocks@, x as int, y as int, z as int, d) implies r@.contains((x, y, z, d)) by {
                            let j: int = match d {
                                Direction::Up => 0,
                                Direction::Down => 1,
                                Direction::North => 2,
                                Direction::South => 3,
                                Direction::East => 4,
                                Direction::West => 5,
                            };
                            assert(dirs@[j] == d);
                        }
                    }
                }
                x = x + 1;
            }
            z = z + 1;
        }
        y = y + 1;
    }
    r
}

} // verus!
