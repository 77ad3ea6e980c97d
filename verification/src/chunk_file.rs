//! The chunk file format: the magic bytes `VNC1`, the chunk's x and z and
//! its biome as little-endian 32-bit words, then every block id of the chunk
//! as a little-endian 16-bit word.

use vstd::prelude::*;
use crate::math::{ChunkPos, CHUNK_VOLUME};

verus! {

/// The magic bytes every chunk file starts with: `VNC1`.
pub open spec fn chunk_magic() -> Seq<u8> {
    seq![0x56u8, 0x4E, 0x43, 0x31]
}

/// Length of the header: magic, x, z and biome.
pub const CHUNK_FILE_HEADER: usize = 16;

/// Length of a complete chunk file.
pub const CHUNK_FILE_LEN: usize = 65552;

/// The four bytes of `v`, least significant first.
pub open spec fn le32(v: u32) -> Seq<u8> {
    seq![(v & 0xFF) as u8, ((v >> 8u32) & 0xFF) as u8, ((v >> 16u32) & 0xFF) as u8, ((v >> 24u32) & 0xFF) as u8]
}

/// The two bytes of `v`, least significant first.
pub open spec fn le16(v: u16) -> Seq<u8> {
    seq![(v & 0xFF) as u8, ((v >> 8u16) & 0xFF) as u8]
}

/// The 32-bit word whose bytes, least significant first, are `a b c d`.
pub open spec fn from_le32(a: u8, b: u8, c: u8, d: u8) -> u32 {
    (a as u32) | ((b as u32) << 8u32) | ((c as u32) << 16u32) | ((d as u32) << 24u32)
}

/// The 16-bit word whose bytes, least significant first, are `a b`.
pub open spec fn from_le16(a: u8, b: u8) -> u16 {
    (a as u16) | ((b as u16) << 8u16)
}

/// The bytes of every block id, in order.
pub open spec fn le16_all(s: Seq<u16>) -> Seq<u8>
    decreases s.len(),
{
    if s.len() == 0 {
        Seq::empty()
    } else {
        le16_all(s.drop_last()) + le16(s.last())
    }
}

/// The file of a chunk at (`x`, `z`) with biome `biome` and blocks `blocks`.
pub open spec fn spec_chunk_file(x: i32, z: i32, biome: u32, blocks: Seq<u16>) -> Seq<u8> {
    chunk_magic() + le32(x as u32) + le32(z as u32) + le32(biome) + le16_all(blocks)
}

/// Why a chunk file could not be read.
#[derive(Debug, Clone, Copy, PartialEq, Eq, Structural)]
pub enum ChunkFileError {
    /// The file ends before the chunk does.
    UnexpectedEnd,
    /// The file does not start with the magic bytes.
    BadMagic,
    /// The file holds another chunk than the one asked for.
    PositionMismatch,
}

/// A chunk read back from a file: its biome word and its block ids.
pub struct LoadedChunk {
    pub biome: u32,
    pub blocks: Vec<u16>,
}

/// What reading a chunk file `d` for the chunk at `pos` gives: the biome and
/// the block ids, or the first problem met reading front to back.
pub open spec fn spec_read_chunk_file(d: Seq<u8>, pos: ChunkPos) -> Result<(u32, Seq<u16>), ChunkFileError> {
    if d.len() < 4 {
        Err(ChunkFileError::UnexpectedEnd)
    } else if d.take(4) != chunk_magic() {
        Err(ChunkFileError::BadMagic)
    } else if d.len() < 16 {
        Err(ChunkFileError::UnexpectedEnd)
    } else if from_le32(d[4], d[5], d[6], d[7]) as i32 != pos.x || from_le32(d[8], d[9], d[10], d[11]) as i32 != pos.z {
        Err(ChunkFileError::PositionMismatch)
    } else if d.len() < 16 + 2 * CHUNK_VOLUME {
        Err(ChunkFileError::UnexpectedEnd)
    } else {
        Ok((
            from_le32(d[12], d[13], d[14], d[15]),
            Seq::new(CHUNK_VOLUME as nat, |i: int| from_le16(d[16 + 2 * i], d[17 + 2 * i])),
        ))
    }
}

proof fn lemma_le32_round_trip(v: u32)
    ensures
        from_le32(le32(v)[0], le32(v)[1], le32(v)[2], le32(v)[3]) == v,
{
    let a = (v & 0xFF) as u8;
    let b = ((v >> 8u32) & 0xFF) as u8;
    let c = ((v >> 16u32) & 0xFF) as u8;
    let d = ((v >> 24u32) & 0xFF) as u8;
    assert((a as u32) | ((b as u32) << 8u32) | ((c as u32) << 16u32) | ((d as u32) << 24u32) == v) by (bit_vector)
        requires
            a == (v & 0xFF) as u8,
            b == ((v >> 8u32) & 0xFF) as u8,
            c == ((v >> 16u32) & 0xFF) as u8,
            d == ((v >> 24u32) & 0xFF) as u8,
    ;
}

proof fn lemma_le16_round_trip(v: u16)
    ensures
        from_le16(le16(v)[0], le16(v)[1]) == v,
{
    let a = (v & 0xFF) as u8;
    let b = ((v >> 8u16) & 0xFF) as u8;
    assert((a as u16) | ((b as u16) << 8u16) == v) by (bit_vector)
        requires
            a == (v & 0xFF) as u8,
            b == ((v >> 8u16) & 0xFF) as u8,
    ;
}

proof fn lemma_i32_u32_round_trip(x: i32)
    ensures
        (x as u32) as i32 == x,
{
    assert((x as u32) as i32 == x) by (bit_vector);
}

proof fn lemma_le16_all(s: Seq<u16>)
    ensures
        le16_all(s).len() == 2 * s.len(),
        forall|i: int| 0 <= i < s.len() ==> #[trigger] le16_all(s)[2 * i] == le16(s[i])[0] && le16_all(s)[2 * i + 1] == le16(s[i])[1],
    decreases s.len(),
{
    if s.len() > 0 {
        lemma_le16_all(s.drop_last());
        let p = le16_all(s.drop_last());
        assert(le16_all(s) == p + le16(s.last()));
        assert forall|i: int| 0 <= i < s.len() implies #[trigger] le16_all(s)[2 * i] == le16(s[i])[0] && le16_all(s)[2 * i + 1] == le16(s[i])[1] by {
            if i < s.len() - 1 {
                assert(s.drop_last()[i] == s[i]);
            }
        }
    }
}

/// Appends the four bytes of `v`, least significant first.
fn push_le32(out: &mut Vec<u8>, v: u32)
    ensures
        final(out)@ == old(out)@ + le32(v),
{
    out.push((v & 0xFF) as u8);
    out.push(((v >> 8u32) & 0xFF) as u8);
    out.push(((v >> 16u32) & 0xFF) as u8);
    out.push(((v >> 24u32) & 0xFF) as u8);
    assert(out@ =~= old(out)@ + le32(v));
}

/// The file of a chunk at `pos` with biome word `biome` and block ids `blocks`.
pub fn write_chunk_file(pos: ChunkPos, biome: u32, blocks: &[u16]) -> (out: Vec<u8>)
    ensures
        out@ == spec_chunk_file(pos.x, pos.z, biome, blocks@),
{
    let mut out: Vec<u8> = Vec::new();
    out.push(0x56);
    out.push(0x4E);
    out.push(0x43);
    out.push(0x31);
    assert(out@ =~= chunk_magic());
    push_le32(&mut out, pos.x as u32);
    push_le32(&mut out, pos.z as u32);
    push_le32(&mut out, biome);
    let ghost head = out@;
    let n = blocks.len();
    let mut i: usize = 0;
    while i < n
        invariant
            n == blocks@.len(),
            i <= n,
            head == chunk_magic() + le32(pos.x as u32) + le32(pos.z as u32) + le32(biome),
            out@ == head + le16_all(blocks@.take(i as int)),
        decreases n - i,
    {
        let b = blocks[i];
        out.push((b & 0xFF) as u8);
        out.push(((b >> 8u16) & 0xFF) as u8);
        proof {
            assert(blocks@.take(i as int + 1).drop_last() =~= blocks@.take(i as int));
            assert(out@ =~= head + le16_all(blocks@.take(i as int + 1)));
        }
        i = i + 1;
    }
    assert(blocks@.take(n as int) =~= blocks@);
    out
}

/// Reads the file of the chunk at `pos`: its biome word and block ids.
pub fn read_chunk_file(data: &[u8], pos: ChunkPos) -> (r: Result<LoadedChunk, ChunkFileError>)
    ensures
        match r {
            Ok(c) => spec_read_chunk_file(data@, pos) == Ok::<(u32, Seq<u16>), ChunkFileError>((c.biome, c.blocks@)),
            Err(e) => spec_read_chunk_file(data@, pos) == Err::<(u32, Seq<u16>), ChunkFileError>(e),
        },
{
    if data.len() < 4 {
        return Err(ChunkFileError::UnexpectedEnd);
    }
    if !(data[0] == 0x56 && data[1] == 0x4E && data[2] == 0x43 && data[3] == 0x31) {
        proof {
            assert(data@.take(4) != chunk_magic()) by {
                if data@.take(4) == chunk_magic() {
                    assert(data@.take(4)[0] == 0x56 && data@.take(4)[1] == 0x4E);
                    assert(data@.take(4)[2] == 0x43 && data@.take(4)[3] == 0x31);
                }
            }
        }
        return Err(ChunkFileError::BadMagic);
    }
    assert(data@.take(4) =~= chunk_magic());
    if data.len() < 16 {
        return Err(ChunkFileError::UnexpectedEnd);
    }
    let x = read_le32(data[4], data[5], data[6], data[7]) as i32;
    let z = read_le32(data[8], data[9], data[10], data[11]) as i32;
    if x != pos.x || z != pos.z {
        return Err(ChunkFileError::PositionMismatch);
    }
    if data.len() < 16 + 2 * CHUNK_VOLUME {
        return Err(ChunkFileError::UnexpectedEnd);
    }
    let biome = read_le32(data[12], data[13], data[14], data[15]);
    let mut blocks: Vec<u16> = Vec::new();
    let mut i: usize = 0;
    while i < CHUNK_VOLUME
        invariant
            data@.len() >= 16 + 2 * CHUNK_VOLUME,
            i <= CHUNK_VOLUME,
            blocks@.len() == i,
            forall|j: int| 0 <= j < i ==> #[trigger] blocks@[j] == from_le16(data@[16 + 2 * j], data@[17 + 2 * j]),
        decreases CHUNK_VOLUME - i,
    {
        let b = read_le16(data[16 + 2 * i], data[17 + 2 * i]);
        blocks.push(b);
        i = i + 1;
    }
    assert(blocks@ =~= Seq::new(CHUNK_VOLUME as nat, |j: int| from_le16(data@[16 + 2 * j], data@[17 + 2 * j])));
    Ok(LoadedChunk { biome, blocks })
}

fn read_le32(a: u8, b: u8, c: u8, d: u8) -> (v: u32)
    ensures
        v == from_le32(a, b, c, d),
{
    (a as u32) | ((b as u32) << 8u32) | ((c as u32) << 16u32) | ((d as u32) << 24u32)
}

fn read_le16(a: u8, b: u8) -> (v: u16)
    ensures
        v == from_le16(a, b),
{
    (a as u16) | ((b as u16) << 8u16)
}

/// What is read back is what was written: the file of a full chunk, read
/// for that chunk's position, gives back its biome and every block id.
pub proof fn law_chunk_file_round_trip(pos: ChunkPos, biome: u32, blocks: Seq<u16>)
    requires
        blocks.len() == CHUNK_VOLUME,
    ensures
        spec_read_chunk_file(spec_chunk_file(pos.x, pos.z, biome, blocks), pos) == Ok::<(u32, Seq<u16>), ChunkFileError>((biome, blocks)),
{
    let f = spec_chunk_file(pos.x, pos.z, biome, blocks);
    let hx = le32(pos.x as u32);
    let hz = le32(pos.z as u32);
    let hb = le32(biome);
    lemma_le16_all(blocks);
    assert(f.len() == 16 + 2 * CHUNK_VOLUME);
    assert(f.take(4) =~= chunk_magic());
    assert(f[4] == hx[0] && f[5] == hx[1] && f[6] == hx[2] && f[7] == hx[3]);
    assert(f[8] == hz[0] && f[9] == hz[1] && f[10] == hz[2] && f[11] == hz[3]);
    assert(f[12] == hb[0] && f[13] == hb[1] && f[14] == hb[2] && f[15] == hb[3]);
    lemma_le32_round_trip(pos.x as u32);
    lemma_le32_round_trip(pos.z as u32);
    lemma_le32_round_trip(biome);
    lemma_i32_u32_round_trip(pos.x);
    lemma_i32_u32_round_trip(pos.z);
    let got = Seq::new(CHUNK_VOLUME as nat, |i: int| from_le16(f[16 + 2 * i], f[17 + 2 * i]));
    assert forall|i: int| 0 <= i < CHUNK_VOLUME implies #[trigger] got[i] == blocks[i] by {
        let t = le16_all(blocks);
        assert(f[16 + 2 * i] == t[2 * i]);
        assert(f[17 + 2 * i] == t[2 * i + 1]);
        lemma_le16_round_trip(blocks[i]);
    }
    assert(got =~= blocks);
}

} // verus!
