//! Block identifiers, flags and categories.

use vstd::prelude::*;

verus! {

/// Maximum number of block types.
pub const MAX_BLOCKS: usize = 512;

/// Block identifier (index into the block registry).
pub type BlockId = u16;

/// The air block; always id 0.
pub const BLOCK_AIR: BlockId = 0;

/// Block property flags; each is one bit of a block's flag word.
#[derive(Debug, Clone, Copy, PartialEq, Eq, Structural, Hash)]
pub enum BlockFlag {
    Empty,
    Solid,
    Transparent,
    Liquid,
    Flammable,
    Gravity,
    Hardness,
    ToolRequired,
}

impl BlockFlag {
    /// The bit of the flag in a block's flag word (`Empty` has no bit).
    pub open spec fn spec_bits(self) -> u32 {
        match self {
            BlockFlag::Empty => 0,
            BlockFlag::Solid => 1,
            BlockFlag::Transparent => 2,
            BlockFlag::Liquid => 4,
            BlockFlag::Flammable => 8,
            BlockFlag::Gravity => 16,
            BlockFlag::Hardness => 32,
            BlockFlag::ToolRequired => 64,
        }
    }

    pub fn bits(&self) -> (b: u32)
        ensures
            b == self.spec_bits(),
    {
        match self {
            BlockFlag::Empty => 0,
            BlockFlag::Solid => 1,
            BlockFlag::Transparent => 2,
            BlockFlag::Liquid => 4,
            BlockFlag::Flammable => 8,
            BlockFlag::Gravity => 16,
            BlockFlag::Hardness => 32,
            BlockFlag::ToolRequired => 64,
        }
    }
}

/// Block category for rendering and behaviour.
#[derive(Debug, Clone, Copy, PartialEq, Eq, Structural, Hash)]
pub enum BlockCategory {
    Air,
    Solid,
    Liquid,
    Plant,
    Foliage,
    Ore,
    Wood,
    Leaf,
    Stone,
    Dirt,
    Sand,
    Water,
    Ice,
}

/// The tool a block wants to be mined with.
#[derive(Debug, Clone, Copy, PartialEq, Eq, Structural, Hash)]
pub enum ToolType {
    /// No tool needed: bare hands do.
    Hand,
    Pickaxe,
    Axe,
    Shovel,
    Hoe,
    Sword,
    Shears,
}

/// Flags never collide: distinct flags have distinct bits, and every flag
/// but `Empty` is a single bit.
pub proof fn law_block_flags_distinct(a: BlockFlag, b: BlockFlag)
    ensures
        a != b ==> a.spec_bits() != b.spec_bits(),
        a != b ==> a.spec_bits() & b.spec_bits() == 0,
{
    let x = a.spec_bits();
    let y = b.spec_bits();
    assert((x == 0u32 || x == 1u32 || x == 2u32 || x == 4u32 || x == 8u32 || x == 16u32 || x == 32u32 || x == 64u32)
        && (y == 0u32 || y == 1u32 || y == 2u32 || y == 4u32 || y == 8u32 || y == 16u32 || y == 32u32 || y == 64u32)
        && x != y ==> x & y == 0) by (bit_vector);
}

/// The flag word of each block the game registers, by id: air (0, no
/// flags); stone, cobblestone, dirt, grass and sand (1 to 5, solid); water
/// (6, transparent and liquid); wood log and planks (7, 8, solid); leaves (9,
/// transparent, falling); glass (10, transparent); brick and the coal, iron,
/// gold and diamond ores (11 to 15, solid); snow (16, solid); ice (17,
/// transparent and solid); gravel (18, solid, falling); clay (19, solid).
/// Ids past 19 hold no block.
pub open spec fn default_block_flags(id: BlockId) -> Option<u32> {
    if id == 0 { Some(0u32) }
    else if 1 <= id <= 5 || id == 7 || id == 8 || 11 <= id <= 16 || id == 19 { Some(1u32) }
    else if id == 6 { Some(6u32) }
    else if id == 9 { Some(18u32) }
    else if id == 10 { Some(2u32) }
    else if id == 17 { Some(3u32) }
    else if id == 18 { Some(17u32) }
    else { None }
}

/// The flag word of block `id`, if the game registers such a block.
pub fn block_flags(id: BlockId) -> (f: Option<u32>)
    ensures
        f == default_block_flags(id),
{
    if id == 0 {
        Some(0)
    } else if (1 <= id && id <= 5) || id == 7 || id == 8 || (11 <= id && id <= 16) || id == 19 {
        Some(1)
    } else if id == 6 {
        Some(6)
    } else if id == 9 {
        Some(18)
    } else if id == 10 {
        Some(2)
    } else if id == 17 {
        Some(3)
    } else if id == 18 {
        Some(17)
    } else {
        None
    }
}

/// A block type: its id (its index in the registry), name, category, flag
/// word, mining tool, drop, face textures (+X, -X, +Y, -Y, +Z, -Z) and colour.
/// Its hardness and blast resistance are numbers of type `F`, floating point
/// in the game; the registry only stores them.
#[derive(Debug, Clone)]
pub struct BlockDef<F> {
    pub id: BlockId,
    pub name: &'static str,
    pub category: BlockCategory,
    pub flags: u32,
    pub hardness: F,
    pub resistance: F,
    pub tool_type: ToolType,
    pub drop_id: Option<BlockId>,
    pub drop_count: u8,
    pub texture: [u32; 6],
    pub color: u32,
}

impl<F> BlockDef<F> {
    /// A block mined by hand, dropping itself once, with texture 0 on every
    /// face and white colour; its id is set when it is registered.
    pub fn new(name: &'static str, category: BlockCategory, flags: u32, hardness: F, resistance: F) -> (b: Self)
        ensures
            b.id == 0,
            b.name@ == name@,
            b.category == category,
            b.flags == flags,
            b.hardness == hardness,
            b.resistance == resistance,
            b.tool_type == ToolType::Hand,
            b.drop_id is None,
            b.drop_count == 1,
            b.texture@ == seq![0u32, 0u32, 0u32, 0u32, 0u32, 0u32],
            b.color == 0xFFFF_FFFFu32,
            b == Self::new_spec(name, category, flags, hardness, resistance),
    {
        BlockDef {
            id: 0,
            name,
            category,
            flags,
            hardness,
            resistance,
            tool_type: ToolType::Hand,
            drop_id: None,
            drop_count: 1,
            texture: [0, 0, 0, 0, 0, 0],
            color: 0xFFFF_FFFF,
        }
    }

    /// The same block mined with `tool`.
    pub fn with_tool(self, tool: ToolType) -> (b: Self)
        ensures
            b == (BlockDef { tool_type: tool, ..self }),
    {
        BlockDef { tool_type: tool, ..self }
    }

    /// The same block dropping `count` of block `block_id`.
    pub fn with_drop(self, block_id: BlockId, count: u8) -> (b: Self)
        ensures
            b == (BlockDef { drop_id: Some(block_id), drop_count: count, ..self }),
    {
        BlockDef { drop_id: Some(block_id), drop_count: count, ..self }
    }

    /// The same block with `texture` on every face.
    pub fn with_texture(self, texture: u32) -> (b: Self)
        ensures
            b == (BlockDef { texture: [texture, texture, texture, texture, texture, texture], ..self }),
    {
        BlockDef { texture: [texture, texture, texture, texture, texture, texture], ..self }
    }

    /// The same block with one texture per face.
    pub fn with_textures(self, textures: [u32; 6]) -> (b: Self)
        ensures
            b == (BlockDef { texture: textures, ..self }),
    {
        BlockDef { texture: textures, ..self }
    }

    /// The same block in colour `color`.
    pub fn with_color(self, color: u32) -> (b: Self)
        ensures
            b == (BlockDef { color, ..self }),
    {
        BlockDef { color, ..self }
    }

    pub fn is_solid(&self) -> (r: bool)
        ensures
            r == (self.flags & BlockFlag::Solid.spec_bits() != 0),
    {
        self.flags & BlockFlag::Solid.bits() != 0
    }

    pub fn is_transparent(&self) -> (r: bool)
        ensures
            r == (self.flags & BlockFlag::Transparent.spec_bits() != 0),
    {
        self.flags & BlockFlag::Transparent.bits() != 0
    }

    pub fn is_liquid(&self) -> (r: bool)
        ensures
            r == (self.flags & BlockFlag::Liquid.spec_bits() != 0),
    {
        self.flags & BlockFlag::Liquid.bits() != 0
    }
}

/// The block types, each at the index that is its id.
pub struct BlockRegistry<F> {
    pub defs: Vec<BlockDef<F>>,
}

/// Every block of `defs` carries its own index as its id.
pub open spec fn ids_are_indices<F>(defs: Seq<BlockDef<F>>) -> bool {
    forall|i: int| 0 <= i < defs.len() ==> (#[trigger] defs[i]).id == i
}

impl<F> BlockRegistry<F> {
    /// A registry holding only air, id 0, with the given hardness and
    /// resistance.
    pub fn new(air_hardness: F, air_resistance: F) -> (r: Self)
        ensures
            r.defs@.len() == 1,
            r.defs@[0] == BlockDef::new_spec("air", BlockCategory::Air, 0, air_hardness, air_resistance),
            ids_are_indices(r.defs@),
    {
        let mut r = BlockRegistry { defs: Vec::new() };
        r.register(BlockDef::new("air", BlockCategory::Air, 0, air_hardness, air_resistance));
        r
    }

    /// Adds block `b` under the next id, which it returns; the block is stored
    /// with that id.
    pub fn register(&mut self, b: BlockDef<F>) -> (id: BlockId)
        requires
            old(self).defs@.len() < MAX_BLOCKS,
        ensures
            id == old(self).defs@.len(),
            final(self).defs@ == old(self).defs@.push(BlockDef { id, ..b }),
            ids_are_indices(old(self).defs@) ==> ids_are_indices(final(self).defs@),
    {
        let id = self.defs.len() as BlockId;
        self.defs.push(BlockDef { id, ..b });
        id
    }

    /// The block with id `id`, if there is one.
    pub fn get(&self, id: BlockId) -> (r: Option<&BlockDef<F>>)
        ensures
            r == (if id < self.defs@.len() { Some(&self.defs@[id as int]) } else { None }),
    {
        if (id as usize) < self.defs.len() {
            Some(&self.defs[id as usize])
        } else {
            None
        }
    }

    /// The block with id `id`, which must exist.
    pub fn get_unchecked(&self, id: BlockId) -> (r: &BlockDef<F>)
        requires
            id < self.defs@.len(),
        ensures
            *r == self.defs@[id as int],
    {
        &self.defs[id as usize]
    }

    pub fn len(&self) -> (n: usize)
        ensures
            n == self.defs@.len(),
    {
        self.defs.len()
    }

    pub fn is_empty(&self) -> (b: bool)
        ensures
            b == (self.defs@.len() == 0),
    {
        self.defs.len() == 0
    }
}

impl<F> BlockDef<F> {
    /// What `new` gives.
    pub open spec fn new_spec(name: &'static str, category: BlockCategory, flags: u32, hardness: F, resistance: F) -> BlockDef<F> {
        BlockDef {
            id: 0,
            name,
            category,
            flags,
            hardness,
            resistance,
            tool_type: ToolType::Hand,
            drop_id: None,
            drop_count: 1,
            texture: [0, 0, 0, 0, 0, 0],
            color: 0xFFFF_FFFF,
        }
    }
}

/// The name of block `i` of the game's list (1 to 19).
pub open spec fn default_block_name(i: int) -> Seq<char> {
    if i == 1 { "stone"@ }
    else     if i == 2 { "cobblestone"@ }
    else     if i == 3 { "dirt"@ }
    else     if i == 4 { "grass"@ }
    else     if i == 5 { "sand"@ }
    else     if i == 6 { "water"@ }
    else     if i == 7 { "wood_log"@ }
    else     if i == 8 { "wood_planks"@ }
    else     if i == 9 { "leaves"@ }
    else     if i == 10 { "glass"@ }
    else     if i == 11 { "brick"@ }
    else     if i == 12 { "coal_ore"@ }
    else     if i == 13 { "iron_ore"@ }
    else     if i == 14 { "gold_ore"@ }
    else     if i == 15 { "diamond_ore"@ }
    else     if i == 16 { "snow"@ }
    else     if i == 17 { "ice"@ }
    else     if i == 18 { "gravel"@ }
    else     if i == 19 { "clay"@ }
    else { "air"@ }
}

/// The category of block `i` of the game's list.
pub open spec fn default_block_category(i: int) -> BlockCategory {
    if i == 1 { BlockCategory::Stone }
    else     if i == 2 { BlockCategory::Stone }
    else     if i == 3 { BlockCategory::Dirt }
    else     if i == 4 { BlockCategory::Solid }
    else     if i == 5 { BlockCategory::Sand }
    else     if i == 6 { BlockCategory::Water }
    else     if i == 7 { BlockCategory::Wood }
    else     if i == 8 { BlockCategory::Wood }
    else     if i == 9 { BlockCategory::Leaf }
    else     if i == 10 { BlockCategory::Solid }
    else     if i == 11 { BlockCategory::Stone }
    else     if i == 12 { BlockCategory::Ore }
    else     if i == 13 { BlockCategory::Ore }
    else     if i == 14 { BlockCategory::Ore }
    else     if i == 15 { BlockCategory::Ore }
    else     if i == 16 { BlockCategory::Solid }
    else     if i == 17 { BlockCategory::Ice }
    else     if i == 18 { BlockCategory::Dirt }
    else     if i == 19 { BlockCategory::Dirt }
    else { BlockCategory::Air }
}

/// The tool block `i` of the game's list is mined with.
pub open spec fn default_block_tool(i: int) -> ToolType {
    if i == 1 { ToolType::Pickaxe }
    else     if i == 2 { ToolType::Pickaxe }
    else     if i == 3 { ToolType::Shovel }
    else     if i == 4 { ToolType::Shovel }
    else     if i == 5 { ToolType::Shovel }
    else     if i == 6 { ToolType::Hand }
    else     if i == 7 { ToolType::Axe }
    else     if i == 8 { ToolType::Axe }
    else     if i == 9 { ToolType::Hand }
    else     if i == 10 { ToolType::Hand }
    else     if i == 11 { ToolType::Pickaxe }
    else     if i == 12 { ToolType::Pickaxe }
    else     if i == 13 { ToolType::Pickaxe }
    else     if i == 14 { ToolType::Pickaxe }
    else     if i == 15 { ToolType::Pickaxe }
    else     if i == 16 { ToolType::Shovel }
    else     if i == 17 { ToolType::Hand }
    else     if i == 18 { ToolType::Shovel }
    else     if i == 19 { ToolType::Shovel }
    else { ToolType::Hand }
}

/// Whether `b` is block `i` of the game's list: id `i`, its name, category,
/// flags and tool, and dropping itself once.
pub open spec fn is_default_block<F>(b: BlockDef<F>, i: int) -> bool {
    &&& b.id == i
    &&& b.name@ == default_block_name(i)
    &&& b.category == default_block_category(i)
    &&& default_block_flags(i as u16) == Some(b.flags)
    &&& b.tool_type == default_block_tool(i)
    &&& b.drop_id is None
    &&& b.drop_count == 1
}

/// Registers the game's blocks after air: stone, cobblestone, dirt, grass,
/// sand, water, wood log, planks, leaves, glass, brick, the coal, iron, gold
/// and diamond ores, snow, ice, gravel and clay, as ids 1 to 19. `stats`
/// gives each block's hardness and resistance by id.
pub fn init_blocks<F, S: Fn(BlockId) -> (F, F)>(registry: &mut BlockRegistry<F>, stats: S)
    requires
        old(registry).defs@.len() == 1,
        forall|i: BlockId| call_requires(stats, (i,)),
    ensures
        final(registry).defs@.len() == 20,
        final(registry).defs@[0] == old(registry).defs@[0],
        ids_are_indices(old(registry).defs@) ==> ids_are_indices(final(registry).defs@),
        forall|i: int| 1 <= i < 20 ==> is_default_block(#[trigger] final(registry).defs@[i], i),
        forall|i: int| 1 <= i < 20 ==> call_ensures(stats, (i as BlockId,), (final(registry).defs@[i].hardness, final(registry).defs@[i].resistance)),
{
    registry.fill_default(stats);
}

impl<F> BlockRegistry<F> {
    #[verifier::rlimit(80)]
    fn fill_default<S: Fn(BlockId) -> (F, F)>(&mut self, stats: S)
        requires
            old(self).defs@.len() == 1,
            forall|i: BlockId| call_requires(stats, (i,)),
        ensures
            final(self).defs@.len() == 20,
            final(self).defs@[0] == old(self).defs@[0],
            forall|i: int| 1 <= i < 20 ==> is_default_block(#[trigger] final(self).defs@[i], i),
            forall|i: int| 1 <= i < 20 ==> call_ensures(stats, (i as BlockId,), (final(self).defs@[i].hardness, final(self).defs@[i].resistance)),
    {
        let ghost start = self.defs@;
        let (h, res) = stats(1);
        self.register(BlockDef::new("stone", BlockCategory::Stone, 1, h, res).with_tool(ToolType::Pickaxe).with_textures([1, 1, 1, 1, 1, 1]).with_color(0xFF808080));
        assert(self.defs@.len() == 2);
        let (h, res) = stats(2);
        self.register(BlockDef::new("cobblestone", BlockCategory::Stone, 1, h, res).with_tool(ToolType::Pickaxe).with_textures([2, 2, 2, 2, 2, 2]).with_color(0xFF606060));
        assert(self.defs@.len() == 3);
        let (h, res) = stats(3);
        self.register(BlockDef::new("dirt", BlockCategory::Dirt, 1, h, res).with_tool(ToolType::Shovel).with_textures([3, 3, 3, 3, 3, 3]).with_color(0xFF8B4513));
        assert(self.defs@.len() == 4);
        let (h, res) = stats(4);
        self.register(BlockDef::new("grass", BlockCategory::Solid, 1, h, res).with_tool(ToolType::Shovel).with_textures([4, 4, 5, 3, 4, 4]).with_color(0xFF567D46));
        assert(self.defs@.len() == 5);
        let (h, res) = stats(5);
        self.register(BlockDef::new("sand", BlockCategory::Sand, 1, h, res).with_tool(ToolType::Shovel).with_textures([6, 6, 6, 6, 6, 6]).with_color(0xFFF4E4A4));
        assert(self.defs@.len() == 6);
        let (h, res) = stats(6);
        self.register(BlockDef::new("water", BlockCategory::Water, 6, h, res).with_tool(ToolType::Hand).with_textures([7, 7, 7, 7, 7, 7]).with_color(0xFF3B5F9F));
        assert(self.defs@.len() == 7);
        let (h, res) = stats(7);
        self.register(BlockDef::new("wood_log", BlockCategory::Wood, 1, h, res).with_tool(ToolType::Axe).with_textures([9, 9, 8, 8, 9, 9]).with_color(0xFF6B4423));
        assert(self.defs@.len() == 8);
        let (h, res) = stats(8);
        self.register(BlockDef::new("wood_planks", BlockCategory::Wood, 1, h, res).with_tool(ToolType::Axe).with_textures([10, 10, 10, 10, 10, 10]).with_color(0xFFB5884A));
        assert(self.defs@.len() == 9);
        let (h, res) = stats(9);
        self.register(BlockDef::new("leaves", BlockCategory::Leaf, 18, h, res).with_tool(ToolType::Hand).with_textures([11, 11, 11, 11, 11, 11]).with_color(0xFF2E7D32));
        assert(self.defs@.len() == 10);
        let (h, res) = stats(10);
        self.register(BlockDef::new("glass", BlockCategory::Solid, 2, h, res).with_tool(ToolType::Hand).with_textures([12, 12, 12, 12, 12, 12]).with_color(0x40FFFFFF));
        assert(self.defs@.len() == 11);
        let (h, res) = stats(11);
        self.register(BlockDef::new("brick", BlockCategory::Stone, 1, h, res).with_tool(ToolType::Pickaxe).with_textures([13, 13, 13, 13, 13, 13]).with_color(0xFF9E4A4A));
        assert(self.defs@.len() == 12);
        let (h, res) = stats(12);
        self.register(BlockDef::new("coal_ore", BlockCategory::Ore, 1, h, res).with_tool(ToolType::Pickaxe).with_textures([14, 14, 14, 14, 14, 14]).with_color(0xFF2F2F2F));
        assert(self.defs@.len() == 13);
        let (h, res) = stats(13);
        self.register(BlockDef::new("iron_ore", BlockCategory::Ore, 1, h, res).with_tool(ToolType::Pickaxe).with_textures([15, 15, 15, 15, 15, 15]).with_color(0xFFD4996A));
        assert(self.defs@.len() == 14);
        let (h, res) = stats(14);
        self.register(BlockDef::new("gold_ore", BlockCategory::Ore, 1, h, res).with_tool(ToolType::Pickaxe).with_textures([16, 16, 16, 16, 16, 16]).with_color(0xFFF4D03F));
        assert(self.defs@.len() == 15);
        let (h, res) = stats(15);
        self.register(BlockDef::new("diamond_ore", BlockCategory::Ore, 1, h, res).with_tool(ToolType::Pickaxe).with_textures([17, 17, 17, 17, 17, 17]).with_color(0xFF4FC3F7));
        assert(self.defs@.len() == 16);
        let (h, res) = stats(16);
        self.register(BlockDef::new("snow", BlockCategory::Solid, 1, h, res).with_tool(ToolType::Shovel).with_textures([18, 18, 18, 18, 18, 18]).with_color(0xFFFAFAFA));
        assert(self.defs@.len() == 17);
        let (h, res) = stats(17);
        self.register(BlockDef::new("ice", BlockCategory::Ice, 3, h, res).with_tool(ToolType::Hand).with_textures([19, 19, 19, 19, 19, 19]).with_color(0xFFADD8E6));
        assert(self.defs@.len() == 18);
        let (h, res) = stats(18);
        self.register(BlockDef::new("gravel", BlockCategory::Dirt, 17, h, res).with_tool(ToolType::Shovel).with_textures([20, 20, 20, 20, 20, 20]).with_color(0xFF9E9E9E));
        assert(self.defs@.len() == 19);
        let (h, res) = stats(19);
        self.register(BlockDef::new("clay", BlockCategory::Dirt, 1, h, res).with_tool(ToolType::Shovel).with_textures([21, 21, 21, 21, 21, 21]).with_color(0xFFB0A090));
        assert(self.defs@.len() == 20);
        assert(self.defs@[0] == start[0]);
    }
}

/// Whether a face next to block `neighbor` is seen: next to air, a
/// transparent block or an id the game has no block for, it is.
pub open spec fn spec_face_shows_towards(neighbor: BlockId) -> bool {
    neighbor == BLOCK_AIR || match default_block_flags(neighbor) {
        Some(f) => f & BlockFlag::Transparent.spec_bits() != 0,
        None => true,
    }
}

/// Whether a face next to block `neighbor` is seen.
pub fn face_shows_towards(neighbor: BlockId) -> (b: bool)
    ensures
        b == spec_face_shows_towards(neighbor),
{
    neighbor == BLOCK_AIR || match block_flags(neighbor) {
        Some(f) => f & BlockFlag::Transparent.bits() != 0,
        None => true,
    }
}

} // verus!
