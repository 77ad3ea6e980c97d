//! Terrain generation rules: which block a height map puts at each height,
//! how caves and ravines carve the stone, and where ore veins go. The noise
//! that decides heights, biomes, caves and veins is the game's; these rules
//! turn its answers into blocks.

use vstd::prelude::*;
use crate::world_types::Biome;

verus! {

/// The height of the sea surface.
pub const SEA_LEVEL: i32 = 64;

/// The height of the bedrock floor and everything below it.
pub const BEDROCK_LEVEL: i32 = -64;

/// The top of the world.
pub const WORLD_TOP: i32 = 256;

/// The block on top of a column in biome `b`: sand in deserts, stone on
/// mountains, snow on the tundra, mushroom stems in mushroom fields, grass
/// elsewhere.
pub open spec fn spec_surface_block(b: Biome) -> u16 {
    match b {
        Biome::Desert => 12,
        Biome::Mountains => 3,
        Biome::SnowyTundra => 80,
        Biome::Mushroom => 182,
        _ => 2,
    }
}

/// The three blocks under the top: sand in deserts and on beaches, dirt
/// elsewhere.
pub open spec fn spec_subsurface_block(b: Biome) -> u16 {
    match b {
        Biome::Desert | Biome::Beach => 12,
        _ => 3,
    }
}

/// The block at height `y` of a column whose top is at `surface` in biome
/// `b`: bedrock at and below the bedrock level; above the top, water up to
/// the sea level and air higher; the surface block at the top, the
/// subsurface block for the three blocks under it, and stone below.
pub open spec fn spec_generate_block(y: int, surface: int, b: Biome) -> u16 {
    if y <= BEDROCK_LEVEL {
        8
    } else if y > surface {
        if y > SEA_LEVEL { 0 } else { 6 }
    } else if y == surface {
        spec_surface_block(b)
    } else if y > surface - 4 {
        spec_subsurface_block(b)
    } else {
        1
    }
}

/// What fills a cave at height `y`: lava more than 20 blocks below zero,
/// air above.
pub open spec fn spec_cave_fill(y: int) -> u16 {
    if y < -20 { 11 } else { 0 }
}

pub fn surface_block(b: Biome) -> (r: u16)
    ensures
        r == spec_surface_block(b),
{
    match b {
        Biome::Desert => 12,
        Biome::Mountains => 3,
        Biome::SnowyTundra => 80,
        Biome::Mushroom => 182,
        _ => 2,
    }
}

pub fn subsurface_block(b: Biome) -> (r: u16)
    ensures
        r == spec_subsurface_block(b),
{
    match b {
        Biome::Desert | Biome::Beach => 12,
        _ => 3,
    }
}

/// Stone, whatever the depth.
pub fn deep_block(_y: i32) -> (r: u16)
    ensures
        r == 1,
{
    1
}

pub fn generate_block(y: i32, surface: i32, b: Biome) -> (r: u16)
    ensures
        r == spec_generate_block(y as int, surface as int, b),
{
    if y <= BEDROCK_LEVEL {
        return 8;
    }
    if y > surface {
        if y > SEA_LEVEL {
            return 0;
        } else {
            return 6;
        }
    }
    if y == surface {
        return surface_block(b);
    }
    if (y as i64) > (surface as i64) - 4 {
        return subsurface_block(b);
    }
    deep_block(y)
}

pub fn cave_fill(y: i32) -> (r: u16)
    ensures
        r == spec_cave_fill(y as int),
{
    if y < -20 { 11 } else { 0 }
}

/// A column's top from the raw height the noise gave: at least two blocks
/// above the bedrock level and at most the top of the world.
pub fn clamp_surface_height(raw: i32) -> (h: i32)
    ensures
        h as int == (if raw < BEDROCK_LEVEL + 2 { BEDROCK_LEVEL + 2 } else if raw > WORLD_TOP { WORLD_TOP as int } else { raw as int }),
{
    if raw < BEDROCK_LEVEL + 2 {
        BEDROCK_LEVEL + 2
    } else if raw > WORLD_TOP {
        WORLD_TOP
    } else {
        raw
    }
}

/// The height of block `i` of a chunk at chunk height `chunk_y`: blocks are
/// stored x fastest, then z, then y.
pub open spec fn world_y(chunk_y: int, i: int) -> int {
    chunk_y * 32 + i / 1024
}

/// The column of block `i`, as the index `z * 32 + x` into per-column data.
pub open spec fn column(i: int) -> int {
    i % 1024
}

/// Chunk heights whose block heights fit an `i32`.
pub open spec fn chunk_y_ok(chunk_y: int) -> bool {
    -0x100_0000 <= chunk_y <= 0x100_0000
}

/// The blocks of the chunk at chunk height `chunk_y` whose columns have
/// tops `heights` and biomes `biomes` (one per column, at `z * 32 + x`).
pub fn fill_terrain(chunk_y: i32, heights: &[i32], biomes: &[Biome]) -> (blocks: Vec<u16>)
    requires
        heights.len() == 1024,
        biomes.len() == 1024,
        chunk_y_ok(chunk_y as int),
    ensures
        blocks.len() == 32768,
        forall|i: int| 0 <= i < 32768 ==> #[trigger] blocks@[i]
            == spec_generate_block(world_y(chunk_y as int, i), heights@[column(i)] as int, biomes@[column(i)]),
{
    let mut blocks: Vec<u16> = Vec::new();
    let mut i: usize = 0;
    while i < 32768
        invariant
            i <= 32768,
            heights.len() == 1024,
            biomes.len() == 1024,
            chunk_y_ok(chunk_y as int),
            blocks.len() == i,
            forall|j: int| 0 <= j < i ==> #[trigger] blocks@[j]
                == spec_generate_block(world_y(chunk_y as int, j), heights@[column(j)] as int, biomes@[column(j)]),
        decreases 32768 - i,
    {
        let y = chunk_y * 32 + (i / 1024) as i32;
        let col = i % 1024;
        blocks.push(generate_block(y, heights[col], biomes[col]));
        i = i + 1;
    }
    blocks
}

/// Block `cur` at height `y` of a column whose top is at `surface`, after a
/// cave passes through it when `hit`: caves stay between the bedrock (two
/// blocks above it) and four blocks above the sea, keep two blocks under the
/// surface, and leave air and water alone; what they carve fills with
/// `spec_cave_fill`.
pub open spec fn spec_carve(cur: u16, y: int, surface: int, hit: bool) -> u16 {
    if hit && y <= SEA_LEVEL + 4 && y > BEDROCK_LEVEL + 2 && y < surface - 2 && cur != 0 && cur != 6 {
        spec_cave_fill(y)
    } else {
        cur
    }
}

/// Carves caves into the blocks of the chunk at chunk height `chunk_y`:
/// `cave` says, block by block, where the cave noise passes, `heights` gives
/// the column tops.
pub fn carve_caves(blocks: &mut Vec<u16>, chunk_y: i32, heights: &[i32], cave: &[bool])
    requires
        old(blocks).len() == 32768,
        heights.len() == 1024,
        cave.len() == 32768,
        chunk_y_ok(chunk_y as int),
    ensures
        final(blocks).len() == 32768,
        forall|i: int| 0 <= i < 32768 ==> #[trigger] final(blocks)@[i]
            == spec_carve(old(blocks)@[i], world_y(chunk_y as int, i), heights@[column(i)] as int, cave@[i]),
        forall|i: int| 0 <= i < 32768 && world_y(chunk_y as int, i) <= -62 ==> #[trigger] final(blocks)@[i] == old(blocks)@[i],
{
    let mut i: usize = 0;
    while i < 32768
        invariant
            i <= 32768,
            blocks.len() == 32768,
            heights.len() == 1024,
            cave.len() == 32768,
            chunk_y_ok(chunk_y as int),
            forall|j: int| 0 <= j < i ==> #[trigger] blocks@[j]
                == spec_carve(old(blocks)@[j], world_y(chunk_y as int, j), heights@[column(j)] as int, cave@[j]),
            forall|j: int| i <= j < 32768 ==> #[trigger] blocks@[j] == old(blocks)@[j],
        decreases 32768 - i,
    {
        let y = chunk_y * 32 + (i / 1024) as i32;
        let surface = heights[i % 1024];
        let cur = blocks[i];
        if cave[i] && y <= SEA_LEVEL + 4 && y > BEDROCK_LEVEL + 2 && (y as i64) < (surface as i64) - 2 && cur != 0 && cur != 6 {
            blocks.set(i, cave_fill(y));
        }
        i = i + 1;
    }
}

/// Block `cur` at height `y` after a ravine passes through its column when
/// `hit`: ravines cut to air between four blocks above the bedrock and four
/// below the sea, leaving air and water alone.
pub open spec fn spec_ravine(cur: u16, y: int, hit: bool) -> u16 {
    if hit && y > BEDROCK_LEVEL + 4 && y < SEA_LEVEL - 4 && cur != 0 && cur != 6 { 0 } else { cur }
}

/// Cuts ravines into the blocks of the chunk at chunk height `chunk_y`,
/// through the columns `ravine` marks; chunks that start above the sea have
/// none.
pub fn carve_ravines(blocks: &mut Vec<u16>, chunk_y: i32, ravine: &[bool])
    requires
        old(blocks).len() == 32768,
        ravine.len() == 1024,
        chunk_y_ok(chunk_y as int),
    ensures
        final(blocks).len() == 32768,
        chunk_y * 32 > SEA_LEVEL ==> final(blocks)@ == old(blocks)@,
        chunk_y * 32 <= SEA_LEVEL ==> forall|i: int| 0 <= i < 32768 ==> #[trigger] final(blocks)@[i]
            == spec_ravine(old(blocks)@[i], world_y(chunk_y as int, i), ravine@[column(i)]),
        forall|i: int| 0 <= i < 32768 && world_y(chunk_y as int, i) <= -60 ==> #[trigger] final(blocks)@[i] == old(blocks)@[i],
{
    if chunk_y * 32 > SEA_LEVEL {
        return;
    }
    let mut i: usize = 0;
    while i < 32768
        invariant
            i <= 32768,
            blocks.len() == 32768,
            ravine.len() == 1024,
            chunk_y_ok(chunk_y as int),
            forall|j: int| 0 <= j < i ==> #[trigger] blocks@[j]
                == spec_ravine(old(blocks)@[j], world_y(chunk_y as int, j), ravine@[column(j)]),
            forall|j: int| i <= j < 32768 ==> #[trigger] blocks@[j] == old(blocks)@[j],
        decreases 32768 - i,
    {
        let y = chunk_y * 32 + (i / 1024) as i32;
        let cur = blocks[i];
        if ravine[i % 1024] && y > BEDROCK_LEVEL + 4 && y < SEA_LEVEL - 4 && cur != 0 && cur != 6 {
            blocks.set(i, 0);
        }
        i = i + 1;
    }
}

/// Kinds of ore.
#[derive(Debug, Clone, Copy, PartialEq, Eq, Structural)]
pub enum OreType {
    Coal,
    Iron,
    Copper,
    Gold,
    Diamond,
    Redstone,
    Lapis,
    Emeralds,
    DeepEmeralds,
}

/// The block id of each ore.
pub open spec fn spec_ore_block(o: OreType) -> u16 {
    match o {
        OreType::Coal => 16,
        OreType::Iron => 17,
        OreType::Copper => 18,
        OreType::Gold => 19,
        OreType::Redstone => 20,
        OreType::Lapis => 21,
        OreType::Diamond => 22,
        OreType::Emeralds => 23,
        OreType::DeepEmeralds => 24,
    }
}

pub fn ore_block_id(o: OreType) -> (id: u16)
    ensures
        id == spec_ore_block(o),
{
    match o {
        OreType::Coal => 16,
        OreType::Iron => 17,
        OreType::Copper => 18,
        OreType::Gold => 19,
        OreType::Redstone => 20,
        OreType::Lapis => 21,
        OreType::Diamond => 22,
        OreType::Emeralds => 23,
        OreType::DeepEmeralds => 24,
    }
}

/// Where an ore occurs: between two heights, in veins of a range of sizes.
#[derive(Debug, Clone, Copy)]
pub struct OrePlacement {
    pub ore: OreType,
    pub min_height: i32,
    pub max_height: i32,
    pub vein_size: (i32, i32),
}

/// The ores the generator places, rarest and deepest last: coal, iron,
/// copper, gold, redstone, lapis, diamond and emeralds.
pub open spec fn spec_ore_placements() -> Seq<OrePlacement> {
    seq![
        OrePlacement { ore: OreType::Coal, min_height: -16i32, max_height: 128i32, vein_size: (4i32, 17i32) },
        OrePlacement { ore: OreType::Iron, min_height: -24i32, max_height: 80i32, vein_size: (3i32, 8i32) },
        OrePlacement { ore: OreType::Copper, min_height: -16i32, max_height: 48i32, vein_size: (3i32, 12i32) },
        OrePlacement { ore: OreType::Gold, min_height: -24i32, max_height: 32i32, vein_size: (2i32, 8i32) },
        OrePlacement { ore: OreType::Redstone, min_height: -48i32, max_height: 16i32, vein_size: (2i32, 7i32) },
        OrePlacement { ore: OreType::Lapis, min_height: -32i32, max_height: 16i32, vein_size: (2i32, 6i32) },
        OrePlacement { ore: OreType::Diamond, min_height: -64i32, max_height: 0i32, vein_size: (1i32, 5i32) },
        OrePlacement { ore: OreType::Emeralds, min_height: -64i32, max_height: -32i32, vein_size: (1i32, 3i32) },
    ]
}

pub fn ore_placements() -> (r: Vec<OrePlacement>)
    ensures
        r@ == spec_ore_placements(),
{
    let r = vec![
        OrePlacement { ore: OreType::Coal, min_height: -16, max_height: 128, vein_size: (4, 17) },
        OrePlacement { ore: OreType::Iron, min_height: -24, max_height: 80, vein_size: (3, 8) },
        OrePlacement { ore: OreType::Copper, min_height: -16, max_height: 48, vein_size: (3, 12) },
        OrePlacement { ore: OreType::Gold, min_height: -24, max_height: 32, vein_size: (2, 8) },
        OrePlacement { ore: OreType::Redstone, min_height: -48, max_height: 16, vein_size: (2, 7) },
        OrePlacement { ore: OreType::Lapis, min_height: -32, max_height: 16, vein_size: (2, 6) },
        OrePlacement { ore: OreType::Diamond, min_height: -64, max_height: 0, vein_size: (1, 5) },
        OrePlacement { ore: OreType::Emeralds, min_height: -64, max_height: -32, vein_size: (1, 3) },
    ];
    assert(r@ =~= spec_ore_placements());
    r
}

/// Whether the ore of placement `p` lands on block (`x`, `y`, `z`) of the
/// chunk at chunk height `chunk_y` when the ore noise is `hits`: the block
/// is in the chunk, the chunk reaches into the ore's heights, the block's
/// height lies between them, and the noise marks it.
pub open spec fn ore_hit(p: OrePlacement, chunk_y: int, hits: Seq<bool>, x: int, y: int, z: int) -> bool {
    let base = chunk_y * 32;
    let wy = base + y;
    &&& 0 <= x < 32 && 0 <= y < 32 && 0 <= z < 32
    &&& !(base + 32 <= p.min_height || base >= p.max_height)
    &&& p.min_height <= wy <= p.max_height
    &&& hits[y * 1024 + z * 32 + x]
}

/// Whether a vein grows into block (`x`, `y`, `z`) from an ore block next
/// to it.
pub open spec fn vein_reaches(p: OrePlacement, chunk_y: int, hits: Seq<bool>, x: int, y: int, z: int) -> bool {
    ||| ore_hit(p, chunk_y, hits, x - 1, y, z)
    ||| ore_hit(p, chunk_y, hits, x + 1, y, z)
    ||| ore_hit(p, chunk_y, hits, x, y - 1, z)
    ||| ore_hit(p, chunk_y, hits, x, y + 1, z)
    ||| ore_hit(p, chunk_y, hits, x, y, z - 1)
    ||| ore_hit(p, chunk_y, hits, x, y, z + 1)
}

/// Block `cur` at (`x`, `y`, `z`) after placing the ore of `p`: the ore
/// where the noise hits, and, when veins grow (`extend`), in stone next to a
/// hit as well.
pub open spec fn spec_ore_block_at(p: OrePlacement, chunk_y: int, hits: Seq<bool>, extend: bool, cur: u16, x: int, y: int, z: int) -> u16 {
    if ore_hit(p, chunk_y, hits, x, y, z) || (extend && cur == 1 && vein_reaches(p, chunk_y, hits, x, y, z)) {
        spec_ore_block(p.ore)
    } else {
        cur
    }
}

fn hit_at(p: OrePlacement, chunk_y: i32, hits: &[bool], x: i32, y: i32, z: i32) -> (b: bool)
    requires
        hits.len() == 32768,
        chunk_y_ok(chunk_y as int),
        -1 <= x <= 32 && -1 <= y <= 32 && -1 <= z <= 32,
    ensures
        b == ore_hit(p, chunk_y as int, hits@, x as int, y as int, z as int),
{
    if x < 0 || x >= 32 || y < 0 || y >= 32 || z < 0 || z >= 32 {
        return false;
    }
    let base: i64 = chunk_y as i64 * 32;
    if base + 32 <= p.min_height as i64 || base >= p.max_height as i64 {
        return false;
    }
    let wy = base + y as i64;
    if wy < p.min_height as i64 || wy > p.max_height as i64 {
        return false;
    }
    hits[(y * 1024 + z * 32 + x) as usize]
}

/// Places the ore of `p` in the blocks of the chunk at chunk height
/// `chunk_y`: `hits` says, block by block, where the ore noise passes, and
/// `extend` whether this ore's veins grow into neighbouring stone.
pub fn place_ore(blocks: &mut Vec<u16>, chunk_y: i32, p: OrePlacement, hits: &[bool], extend: bool)
    requires
        old(blocks).len() == 32768,
        hits.len() == 32768,
        chunk_y_ok(chunk_y as int),
    ensures
        final(blocks).len() == 32768,
        forall|x: int, y: int, z: int| 0 <= x < 32 && 0 <= y < 32 && 0 <= z < 32 ==>
            #[trigger] final(blocks)@[y * 1024 + z * 32 + x]
                == spec_ore_block_at(p, chunk_y as int, hits@, extend, old(blocks)@[y * 1024 + z * 32 + x], x, y, z),
{
    let id = ore_block_id(p.ore);
    let ghost orig = blocks@;
    let mut y: i32 = 0;
    while y < 32
        invariant
            0 <= y <= 32,
            blocks.len() == 32768,
            hits.len() == 32768,
            chunk_y_ok(chunk_y as int),
            orig == old(blocks)@,
            id == spec_ore_block(p.ore),
            forall|fx: int, fy: int, fz: int| 0 <= fx < 32 && 0 <= fy < 32 && 0 <= fz < 32 ==>
                #[trigger] blocks@[fy * 1024 + fz * 32 + fx] == (if fy < y {
                    spec_ore_block_at(p, chunk_y as int, hits@, extend, orig[fy * 1024 + fz * 32 + fx], fx, fy, fz)
                } else {
                    orig[fy * 1024 + fz * 32 + fx]
                }),
        decreases 32 - y,
    {
        let mut z: i32 = 0;
        while z < 32
            invariant
                0 <= y < 32,
                0 <= z <= 32,
                blocks.len() == 32768,
                hits.len() == 32768,
                chunk_y_ok(chunk_y as int),
                orig == old(blocks)@,
                id == spec_ore_block(p.ore),
                forall|fx: int, fy: int, fz: int| 0 <= fx < 32 && 0 <= fy < 32 && 0 <= fz < 32 ==>
                    #[trigger] blocks@[fy * 1024 + fz * 32 + fx] == (if fy < y || (fy == y && fz < z) {
                        spec_ore_block_at(p, chunk_y as int, hits@, extend, orig[fy * 1024 + fz * 32 + fx], fx, fy, fz)
                    } else {
                        orig[fy * 1024 + fz * 32 + fx]
                    }),
            decreases 32 - z,
        {
            let mut x: i32 = 0;
            while x < 32
                invariant
                    0 <= y < 32,
                    0 <= z < 32,
                    0 <= x <= 32,
                    blocks.len() == 32768,
                    hits.len() == 32768,
                    chunk_y_ok(chunk_y as int),
                    orig == old(blocks)@,
                    id == spec_ore_block(p.ore),
                    forall|fx: int, fy: int, fz: int| 0 <= fx < 32 && 0 <= fy < 32 && 0 <= fz < 32 ==>
                        #[trigger] blocks@[fy * 1024 + fz * 32 + fx] == (if fy < y || (fy == y && fz < z) || (fy == y && fz == z && fx < x) {
                            spec_ore_block_at(p, chunk_y as int, hits@, extend, orig[fy * 1024 + fz * 32 + fx], fx, fy, fz)
                        } else {
                            orig[fy * 1024 + fz * 32 + fx]
                        }),
                decreases 32 - x,
            {
                let idx = (y * 1024 + z * 32 + x) as usize;
                let cur = blocks[idx];
                let direct = hit_at(p, chunk_y, hits, x, y, z);
                let grows = extend && cur == 1 && (
                    hit_at(p, chunk_y, hits, x - 1, y, z) || hit_at(p, chunk_y, hits, x + 1, y, z)
                    || hit_at(p, chunk_y, hits, x, y - 1, z) || hit_at(p, chunk_y, hits, x, y + 1, z)
                    || hit_at(p, chunk_y, hits, x, y, z - 1) || hit_at(p, chunk_y, hits, x, y, z + 1));
                if direct || grows {
                    blocks.set(idx, id);
                }
                x = x + 1;
            }
            z = z + 1;
        }
        y = y + 1;
    }
}

/// Freshly generated terrain has no holes: up to its top a column is
/// bedrock, surface, subsurface or stone, never air or water; above the top
/// it is water up to the sea level and air above.
pub proof fn law_columns_are_solid(y: int, surface: int, b: Biome)
    ensures
        y <= surface ==> spec_generate_block(y, surface, b) != 0 && spec_generate_block(y, surface, b) != 6,
        y > surface && y > BEDROCK_LEVEL ==> spec_generate_block(y, surface, b) == (if y > SEA_LEVEL { 0u16 } else { 6u16 }),
        y <= BEDROCK_LEVEL ==> spec_generate_block(y, surface, b) == 8,
{
}

/// Caves and ravines leave air and water alone, never reach above four
/// blocks over the sea, and turn what they carve into air or lava.
pub proof fn law_carving_is_contained(cur: u16, y: int, surface: int, hit: bool)
    ensures
        (cur == 0 || cur == 6) ==> spec_carve(cur, y, surface, hit) == cur && spec_ravine(cur, y, hit) == cur,
        y > SEA_LEVEL + 4 ==> spec_carve(cur, y, surface, hit) == cur && spec_ravine(cur, y, hit) == cur,
        spec_carve(cur, y, surface, hit) == cur || spec_carve(cur, y, surface, hit) == 0 || spec_carve(cur, y, surface, hit) == 11,
        spec_ravine(cur, y, hit) == cur || spec_ravine(cur, y, hit) == 0,
{
}

/// Where a cave passes, it carves exactly the blocks strictly above the
/// bedrock layer and two blocks over it (height -62 and lower is never
/// touched, so the bedrock floor at -64 stays whole), at most four blocks
/// above the sea (68), and more than two blocks under the column's top,
/// unless they are air or water; a carved block becomes lava below -20 and
/// air from -20 up. Where no cave passes nothing changes.
pub proof fn law_cave_extent(cur: u16, y: int, surface: int, hit: bool)
    ensures
        y <= -62 ==> spec_carve(cur, y, surface, hit) == cur,
        y > 68 ==> spec_carve(cur, y, surface, hit) == cur,
        y >= surface - 2 ==> spec_carve(cur, y, surface, hit) == cur,
        !hit ==> spec_carve(cur, y, surface, hit) == cur,
        hit && -62 < y <= 68 && y < surface - 2 && cur != 0 && cur != 6
            ==> spec_carve(cur, y, surface, hit) == (if y < -20 { 11u16 } else { 0u16 }),
{
}

/// Where a ravine passes, it cuts to air exactly the blocks strictly between
/// four blocks above the bedrock (-60) and four blocks below the sea (60),
/// unless they are air or water; the bedrock layer and everything at -60 and
/// lower or at 60 and higher stays. Where no ravine passes nothing changes.
pub proof fn law_ravine_extent(cur: u16, y: int, hit: bool)
    ensures
        y <= -60 ==> spec_ravine(cur, y, hit) == cur,
        y >= 60 ==> spec_ravine(cur, y, hit) == cur,
        !hit ==> spec_ravine(cur, y, hit) == cur,
        hit && -60 < y < 60 && cur != 0 && cur != 6 ==> spec_ravine(cur, y, hit) == 0,
{
}

/// Carving caves into a chunk leaves every block at height -62 or lower
/// (the bedrock level and the two blocks above it) as it was, whatever the
/// cave noise and the column tops.
pub proof fn law_caves_spare_bedrock(old_blocks: Seq<u16>, new_blocks: Seq<u16>, chunk_y: int, heights: Seq<i32>, cave: Seq<bool>)
    requires
        old_blocks.len() == 32768,
        new_blocks.len() == 32768,
        heights.len() == 1024,
        cave.len() == 32768,
        forall|i: int| 0 <= i < 32768 ==> #[trigger] new_blocks[i]
            == spec_carve(old_blocks[i], world_y(chunk_y, i), heights[column(i)] as int, cave[i]),
    ensures
        forall|i: int| 0 <= i < 32768 && world_y(chunk_y, i) <= -62 ==> #[trigger] new_blocks[i] == old_blocks[i],
{
}

/// Placing an ore only ever turns blocks into that ore, and a vein only
/// grows into stone: a block that is not stone changes only where the ore
/// noise hits it.
pub proof fn law_ore_only_replaces_stone(p: OrePlacement, chunk_y: int, hits: Seq<bool>, extend: bool, cur: u16, x: int, y: int, z: int)
    ensures
        spec_ore_block_at(p, chunk_y, hits, extend, cur, x, y, z) == cur
            || spec_ore_block_at(p, chunk_y, hits, extend, cur, x, y, z) == spec_ore_block(p.ore),
        cur != 1 && !ore_hit(p, chunk_y, hits, x, y, z) ==> spec_ore_block_at(p, chunk_y, hits, extend, cur, x, y, z) == cur,
        !extend ==> (spec_ore_block_at(p, chunk_y, hits, extend, cur, x, y, z) != cur ==> ore_hit(p, chunk_y, hits, x, y, z)),
{
}

} // verus!
