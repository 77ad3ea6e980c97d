//! The overworld biomes: their names, colours and the blocks their terrain
//! is made of.

use vstd::prelude::*;
use crate::block::BlockId;
use crate::world_types::Biome;

verus! {

/// The place of `b` among the fourteen overworld biomes, in declaration
/// order, or -1 for a biome of another dimension.
pub open spec fn overworld_index(b: Biome) -> int {
    match b {
        Biome::Plains => 0,
        Biome::Forest => 1,
        Biome::Desert => 2,
        Biome::Mountains => 3,
        Biome::Taiga => 4,
        Biome::SnowyTundra => 5,
        Biome::Jungle => 6,
        Biome::Swamp => 7,
        Biome::Beach => 8,
        Biome::Ocean => 9,
        Biome::DeepOcean => 10,
        Biome::River => 11,
        Biome::Savanna => 12,
        Biome::Badlands => 13,
        _ => -1,
    }
}

/// The overworld biome at place `i`.
pub open spec fn overworld_biome(i: int) -> Biome {
    if i == 0 {
        Biome::Plains
    } else if i == 1 {
        Biome::Forest
    } else if i == 2 {
        Biome::Desert
    } else if i == 3 {
        Biome::Mountains
    } else if i == 4 {
        Biome::Taiga
    } else if i == 5 {
        Biome::SnowyTundra
    } else if i == 6 {
        Biome::Jungle
    } else if i == 7 {
        Biome::Swamp
    } else if i == 8 {
        Biome::Beach
    } else if i == 9 {
        Biome::Ocean
    } else if i == 10 {
        Biome::DeepOcean
    } else if i == 11 {
        Biome::River
    } else if i == 12 {
        Biome::Savanna
    } else {
        Biome::Badlands
    }
}

/// The display name of the `i`-th overworld biome.
pub open spec fn biome_name(i: int) -> Seq<char> {
    if i == 0 {
        "Plains"@
    } else if i == 1 {
        "Forest"@
    } else if i == 2 {
        "Desert"@
    } else if i == 3 {
        "Mountains"@
    } else if i == 4 {
        "Taiga"@
    } else if i == 5 {
        "Snowy Tundra"@
    } else if i == 6 {
        "Jungle"@
    } else if i == 7 {
        "Swamp"@
    } else if i == 8 {
        "Beach"@
    } else if i == 9 {
        "Ocean"@
    } else if i == 10 {
        "Deep Ocean"@
    } else if i == 11 {
        "River"@
    } else if i == 12 {
        "Savanna"@
    } else {
        "Badlands"@
    }
}

/// The map colour, the surface, subsurface and fluid blocks, and the grass
/// and foliage colours of the `i`-th overworld biome.
pub open spec fn biome_look(i: int) -> (u32, BlockId, BlockId, BlockId, u32, u32) {
    if i == 0 {
        (0x8DB360, 4, 3, 6, 0x7CBC50, 0x4AB530)
    } else if i == 1 {
        (0x4AB530, 4, 3, 6, 0x5F9E3F, 0x2E7D32)
    } else if i == 2 {
        (0xF4E4A4, 5, 22, 0, 0xC2B280, 0xA08040)
    } else if i == 3 {
        (0x808080, 2, 1, 6, 0x8A8A8A, 0x6B8A6B)
    } else if i == 4 {
        (0xB0C4DE, 17, 3, 6, 0xB8C8D0, 0x4A6A4A)
    } else if i == 5 {
        (0xFAFAFA, 17, 3, 6, 0xFFFFFF, 0xADD8E6)
    } else if i == 6 {
        (0x2E7D32, 4, 3, 6, 0x3A9A3A, 0x1B5E20)
    } else if i == 7 {
        (0x4A6741, 4, 3, 6, 0x5A7A4A, 0x3A5A3A)
    } else if i == 8 {
        (0xF4E4A4, 5, 22, 6, 0xC2B280, 0xA08040)
    } else if i == 9 {
        (0x3B5F9F, 0, 1, 6, 0x3B5F9F, 0x2A4A7A)
    } else if i == 10 {
        (0x2A4A7A, 0, 1, 6, 0x2A4A7A, 0x1A3A6A)
    } else if i == 11 {
        (0x3B6080, 0, 1, 6, 0x4A7080, 0x3A6070)
    } else if i == 12 {
        (0xC2A05A, 5, 3, 0, 0xB09050, 0x8A7030)
    } else {
        (0xA05030, 5, 1, 0, 0x906040, 0x705030)
    }
}

/// A biome's definition. The tree and plant densities, temperature and
/// rainfall, all floating point, are kept by the game beside it.
#[derive(Debug, Clone)]
pub struct BiomeDefinition {
    pub biome: Biome,
    pub name: String,
    pub color: u32,
    pub surface_block: BlockId,
    pub under_surface_block: BlockId,
    pub fluid_block: BlockId,
    pub grass_color: u32,
    pub foliage_color: u32,
}

/// Whether `d` defines the `i`-th overworld biome.
pub open spec fn is_biome_definition(d: BiomeDefinition, i: int) -> bool {
    &&& d.biome == overworld_biome(i)
    &&& d.name@ == biome_name(i)
    &&& (d.color, d.surface_block, d.under_surface_block, d.fluid_block, d.grass_color, d.foliage_color) == biome_look(i)
}

/// The place of an overworld biome among the fourteen.
fn overworld_slot(b: Biome) -> (i: usize)
    requires
        overworld_index(b) >= 0,
    ensures
        i == overworld_index(b),
        overworld_biome(i as int) == b,
{
    match b {
        Biome::Plains => 0,
        Biome::Forest => 1,
        Biome::Desert => 2,
        Biome::Mountains => 3,
        Biome::Taiga => 4,
        Biome::SnowyTundra => 5,
        Biome::Jungle => 6,
        Biome::Swamp => 7,
        Biome::Beach => 8,
        Biome::Ocean => 9,
        Biome::DeepOcean => 10,
        Biome::River => 11,
        Biome::Savanna => 12,
        Biome::Badlands => 13,
        _ => 0,
    }
}

impl BiomeDefinition {
    /// The definition of overworld biome `biome`.
    pub fn new(biome: Biome) -> (d: Self)
        requires
            overworld_index(biome) >= 0,
        ensures
            is_biome_definition(d, overworld_index(biome)),
    {
        let (name, color, surface_block, under_surface_block, fluid_block, grass_color, foliage_color) = match biome {
            Biome::Plains => ("Plains", 0x8DB360, 4, 3, 6, 0x7CBC50, 0x4AB530),
            Biome::Forest => ("Forest", 0x4AB530, 4, 3, 6, 0x5F9E3F, 0x2E7D32),
            Biome::Desert => ("Desert", 0xF4E4A4, 5, 22, 0, 0xC2B280, 0xA08040),
            Biome::Mountains => ("Mountains", 0x808080, 2, 1, 6, 0x8A8A8A, 0x6B8A6B),
            Biome::Taiga => ("Taiga", 0xB0C4DE, 17, 3, 6, 0xB8C8D0, 0x4A6A4A),
            Biome::SnowyTundra => ("Snowy Tundra", 0xFAFAFA, 17, 3, 6, 0xFFFFFF, 0xADD8E6),
            Biome::Jungle => ("Jungle", 0x2E7D32, 4, 3, 6, 0x3A9A3A, 0x1B5E20),
            Biome::Swamp => ("Swamp", 0x4A6741, 4, 3, 6, 0x5A7A4A, 0x3A5A3A),
            Biome::Beach => ("Beach", 0xF4E4A4, 5, 22, 6, 0xC2B280, 0xA08040),
            Biome::Ocean => ("Ocean", 0x3B5F9F, 0, 1, 6, 0x3B5F9F, 0x2A4A7A),
            Biome::DeepOcean => ("Deep Ocean", 0x2A4A7A, 0, 1, 6, 0x2A4A7A, 0x1A3A6A),
            Biome::River => ("River", 0x3B6080, 0, 1, 6, 0x4A7080, 0x3A6070),
            Biome::Savanna => ("Savanna", 0xC2A05A, 5, 3, 0, 0xB09050, 0x8A7030),
            Biome::Badlands => ("Badlands", 0xA05030, 5, 1, 0, 0x906040, 0x705030),
            _ => ("", 0, 0, 0, 0, 0, 0),
        };
        BiomeDefinition {
            biome,
            name: name.to_owned(),
            color,
            surface_block,
            under_surface_block,
            fluid_block,
            grass_color,
            foliage_color,
        }
    }
}

/// The definitions of the fourteen overworld biomes, in declaration order.
pub struct BiomeManager {
    biomes: Vec<BiomeDefinition>,
}

impl BiomeManager {
    pub closed spec fn defs(&self) -> Seq<BiomeDefinition> {
        self.biomes@
    }

    pub fn new() -> (m: Self)
        ensures
            m.defs().len() == 14,
            forall|i: int| 0 <= i < 14 ==> is_biome_definition(#[trigger] m.defs()[i], i),
    {
        let all = Biome::overworld_biomes();
        let mut biomes: Vec<BiomeDefinition> = Vec::new();
        let mut i: usize = 0;
        while i < 14
            invariant
                i <= 14,
                all@ == seq![Biome::Plains, Biome::Forest, Biome::Desert, Biome::Mountains, Biome::Taiga, Biome::SnowyTundra, Biome::Jungle, Biome::Swamp, Biome::Beach, Biome::Ocean, Biome::DeepOcean, Biome::River, Biome::Savanna, Biome::Badlands],
                biomes.len() == i,
                forall|j: int| 0 <= j < i ==> is_biome_definition(#[trigger] biomes@[j], j),
            decreases 14 - i,
        {
            let b = all[i];
            assert(overworld_index(b) == i);
            biomes.push(BiomeDefinition::new(b));
            i = i + 1;
        }
        BiomeManager { biomes }
    }

    /// The definition of overworld biome `biome`.
    pub fn get(&self, biome: Biome) -> (d: &BiomeDefinition)
        requires
            self.defs().len() == 14,
            overworld_index(biome) >= 0,
        ensures
            *d == self.defs()[overworld_index(biome)],
    {
        &self.biomes[overworld_slot(biome)]
    }

    /// Every definition, in declaration order.
    pub fn get_all(&self) -> (r: &[BiomeDefinition])
        ensures
            r@ == self.defs(),
    {
        self.biomes.as_slice()
    }
}

impl Default for BiomeManager {
    fn default() -> (m: Self)
        ensures
            m.defs().len() == 14,
            forall|i: int| 0 <= i < 14 ==> is_biome_definition(#[trigger] m.defs()[i], i),
    {
        Self::new()
    }
}

} // verus!
