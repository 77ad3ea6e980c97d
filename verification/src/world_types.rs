//! Biomes, world seeds, and the dimensions a player can travel to.

use vstd::prelude::*;

verus! {

/// Height of the world in blocks.
pub const WORLD_HEIGHT: i32 = 256;

/// Height of the sea surface.
pub const SEA_LEVEL: i32 = 64;

/// Biomes of every dimension.
#[derive(Debug, Clone, Copy, PartialEq, Eq, Structural, Hash)]
pub enum Biome {
    Plains,
    Forest,
    Desert,
    Mountains,
    Taiga,
    SnowyTundra,
    Jungle,
    Swamp,
    Beach,
    Ocean,
    DeepOcean,
    River,
    Savanna,
    Badlands,
    LunarPlains,
    LunarCrater,
    LunarHighland,
    MartianPlains,
    MartianCanyon,
    Volcanic,
    VenusianLowlands,
    VenusianHighlands,
    SulphurSea,
    MercurianPlain,
    JovianStorm,
    SaturnRing,
    SaturnCloud,
    NeptunianCore,
    PlutonianIcePlain,
    Asteroid,
    Void,
    CrystalForest,
    EmberPlains,
    FrostWastes,
    Mushroom,
}

impl Biome {
    /// Every biome, overworld ones first, in declaration order.
    pub fn all() -> (a: [Biome; 35])
        ensures
            a@ == seq![
                Biome::Plains,
                Biome::Forest,
                Biome::Desert,
                Biome::Mountains,
                Biome::Taiga,
                Biome::SnowyTundra,
                Biome::Jungle,
                Biome::Swamp,
                Biome::Beach,
                Biome::Ocean,
                Biome::DeepOcean,
                Biome::River,
                Biome::Savanna,
                Biome::Badlands,
                Biome::LunarPlains,
                Biome::LunarCrater,
                Biome::LunarHighland,
                Biome::MartianPlains,
                Biome::MartianCanyon,
                Biome::Volcanic,
                Biome::VenusianLowlands,
                Biome::VenusianHighlands,
                Biome::SulphurSea,
                Biome::MercurianPlain,
                Biome::JovianStorm,
                Biome::SaturnRing,
                Biome::SaturnCloud,
                Biome::NeptunianCore,
                Biome::PlutonianIcePlain,
                Biome::Asteroid,
                Biome::Void,
                Biome::CrystalForest,
                Biome::EmberPlains,
                Biome::FrostWastes,
                Biome::Mushroom,
            ],
    {
        [
            Biome::Plains,
            Biome::Forest,
            Biome::Desert,
            Biome::Mountains,
            Biome::Taiga,
            Biome::SnowyTundra,
            Biome::Jungle,
            Biome::Swamp,
            Biome::Beach,
            Biome::Ocean,
            Biome::DeepOcean,
            Biome::River,
            Biome::Savanna,
            Biome::Badlands,
            Biome::LunarPlains,
            Biome::LunarCrater,
            Biome::LunarHighland,
            Biome::MartianPlains,
            Biome::MartianCanyon,
            Biome::Volcanic,
            Biome::VenusianLowlands,
            Biome::VenusianHighlands,
            Biome::SulphurSea,
            Biome::MercurianPlain,
            Biome::JovianStorm,
            Biome::SaturnRing,
            Biome::SaturnCloud,
            Biome::NeptunianCore,
            Biome::PlutonianIcePlain,
            Biome::Asteroid,
            Biome::Void,
            Biome::CrystalForest,
            Biome::EmberPlains,
            Biome::FrostWastes,
            Biome::Mushroom,
        ]
    }

    /// The biomes of the Moon, the planets, and the other realms: every biome
    /// but the overworld ones and Mushroom.
    pub open spec fn spec_is_celestial(self) -> bool {
        self == Biome::LunarPlains
            || self == Biome::LunarCrater
            || self == Biome::LunarHighland
            || self == Biome::MartianPlains
            || self == Biome::MartianCanyon
            || self == Biome::Volcanic
            || self == Biome::VenusianLowlands
            || self == Biome::VenusianHighlands
            || self == Biome::SulphurSea
            || self == Biome::MercurianPlain
            || self == Biome::JovianStorm
            || self == Biome::SaturnRing
            || self == Biome::SaturnCloud
            || self == Biome::NeptunianCore
            || self == Biome::PlutonianIcePlain
            || self == Biome::Asteroid
            || self == Biome::Void
            || self == Biome::CrystalForest
            || self == Biome::EmberPlains
            || self == Biome::FrostWastes
    }

    /// The fourteen overworld biomes, in declaration order: the biomes the
    /// overworld generator defines.
    pub fn overworld_biomes() -> (a: [Biome; 14])
        ensures
            a@ == seq![
                Biome::Plains,
                Biome::Forest,
                Biome::Desert,
                Biome::Mountains,
                Biome::Taiga,
                Biome::SnowyTundra,
                Biome::Jungle,
                Biome::Swamp,
                Biome::Beach,
                Biome::Ocean,
                Biome::DeepOcean,
                Biome::River,
                Biome::Savanna,
                Biome::Badlands,
            ],
    {
        let a = [
            Biome::Plains,
            Biome::Forest,
            Biome::Desert,
            Biome::Mountains,
            Biome::Taiga,
            Biome::SnowyTundra,
            Biome::Jungle,
            Biome::Swamp,
            Biome::Beach,
            Biome::Ocean,
            Biome::DeepOcean,
            Biome::River,
            Biome::Savanna,
            Biome::Badlands,
        ];
        assert(a@ =~= seq![
                Biome::Plains,
                Biome::Forest,
                Biome::Desert,
                Biome::Mountains,
                Biome::Taiga,
                Biome::SnowyTundra,
                Biome::Jungle,
                Biome::Swamp,
                Biome::Beach,
                Biome::Ocean,
                Biome::DeepOcean,
                Biome::River,
                Biome::Savanna,
                Biome::Badlands,
            ]);
        a
    }

    pub fn is_celestial(&self) -> (b: bool)
        ensures
            b == self.spec_is_celestial(),
    {
        match self {
            Biome::LunarPlains | Biome::LunarCrater | Biome::LunarHighland | Biome::MartianPlains | Biome::MartianCanyon | Biome::Volcanic | Biome::VenusianLowlands | Biome::VenusianHighlands | Biome::SulphurSea | Biome::MercurianPlain | Biome::JovianStorm | Biome::SaturnRing | Biome::SaturnCloud | Biome::NeptunianCore | Biome::PlutonianIcePlain | Biome::Asteroid | Biome::Void | Biome::CrystalForest | Biome::EmberPlains | Biome::FrostWastes => true,
            _ => false,
        }
    }
}

/// Seed for procedural generation.
#[derive(Debug, Clone, Copy, PartialEq, Eq, Structural)]
pub struct WorldSeed(pub u64);

impl Default for WorldSeed {
    fn default() -> (s: Self)
        ensures
            s.0 == 12345,
    {
        WorldSeed(12345)
    }
}

/// World identifier.
#[derive(Debug, Clone)]
pub struct WorldId(pub String);

impl Default for WorldId {
    fn default() -> (w: Self)
        ensures
            w.0@ == "default"@,
    {
        WorldId("default".to_owned())
    }
}

/// Ids of the known dimensions.
pub const DIM_OVERWORLD: u16 = 0;
pub const DIM_MOON: u16 = 1;
pub const DIM_MARS: u16 = 2;
pub const DIM_VENUS: u16 = 3;
pub const DIM_MERCURY: u16 = 4;
pub const DIM_JUPITER: u16 = 5;
pub const DIM_SATURN: u16 = 6;
pub const DIM_NEPTUNE: u16 = 7;
pub const DIM_PLUTO: u16 = 8;
pub const DIM_ASTEROID_BELT: u16 = 9;
pub const DIM_THE_VOID: u16 = 10;
pub const DIM_CRYSTAL_REALM: u16 = 11;
pub const DIM_EMBER_DIMENSION: u16 = 12;
pub const DIM_FROST_REALM: u16 = 13;

/// A dimension one can travel to; ids 0 to 13 are the known ones.
#[derive(Debug, Clone, Copy, PartialEq, Eq, Structural, Hash)]
pub struct DimensionId(pub u16);

impl DimensionId {

    /// The display name of dimension `id`.
    pub open spec fn spec_name(id: u16) -> Seq<char> {
        if id == 0 {
            "Overworld"@
        } else         if id == 1 {
            "The Moon"@
        } else         if id == 2 {
            "Mars"@
        } else         if id == 3 {
            "Venus"@
        } else         if id == 4 {
            "Mercury"@
        } else         if id == 5 {
            "Jupiter"@
        } else         if id == 6 {
            "Saturn"@
        } else         if id == 7 {
            "Neptune"@
        } else         if id == 8 {
            "Pluto"@
        } else         if id == 9 {
            "Asteroid Belt"@
        } else         if id == 10 {
            "The Void"@
        } else         if id == 11 {
            "Crystal Realm"@
        } else         if id == 12 {
            "Ember Realm"@
        } else         if id == 13 {
            "Frost Realm"@
        } else {
            "Unknown"@
        }
    }

    /// The description of dimension `id`.
    pub open spec fn spec_description(id: u16) -> Seq<char> {
        if id == 0 {
            "The familiar world you call home"@
        } else         if id == 1 {
            "A barren satellite with low gravity and craters"@
        } else         if id == 2 {
            "The red planet with giant volcanoes and dust storms"@
        } else         if id == 3 {
            "A scorching world with acidic clouds"@
        } else         if id == 4 {
            "Closest to the sun with extreme temperatures"@
        } else         if id == 5 {
            "A massive gas giant with extreme storms"@
        } else         if id == 6 {
            "Famous for its beautiful ring system"@
        } else         if id == 7 {
            "An ice giant with supersonic winds"@
        } else         if id == 8 {
            "A cold, distant world with nitrogen ice plains"@
        } else         if id == 9 {
            "Floating among ancient space rocks"@
        } else         if id == 10 {
            "An empty dimension between dimensions"@
        } else         if id == 11 {
            "A mystical dimension of giant crystals"@
        } else         if id == 12 {
            "A dimension of fire and lava"@
        } else         if id == 13 {
            "An endless winter dimension"@
        } else {
            ""@
        }
    }

    /// The crystal item a traveller needs to enter dimension `id`: items 220
    /// to 232 for the dimensions 1 to 13; the overworld and unknown
    /// dimensions need none.
    pub open spec fn spec_crystal(id: u16) -> Option<u16> {
        if 1 <= id <= 13 { Some((219 + id) as u16) } else { None }
    }

    /// The height at which travellers arrive: 128 on the gas giants
    /// (Jupiter, Saturn, Neptune), 64 elsewhere.
    pub open spec fn spec_spawn_y(id: u16) -> i32 {
        if id == 5 || id == 6 || id == 7 { 128 } else { 64 }
    }

    pub fn name(&self) -> (s: &'static str)
        ensures
            s@ == Self::spec_name(self.0),
    {
        match self.0 {
            0 => "Overworld",
            1 => "The Moon",
            2 => "Mars",
            3 => "Venus",
            4 => "Mercury",
            5 => "Jupiter",
            6 => "Saturn",
            7 => "Neptune",
            8 => "Pluto",
            9 => "Asteroid Belt",
            10 => "The Void",
            11 => "Crystal Realm",
            12 => "Ember Realm",
            13 => "Frost Realm",
            _ => "Unknown",
        }
    }

    pub fn description(&self) -> (s: &'static str)
        ensures
            s@ == Self::spec_description(self.0),
    {
        match self.0 {
            0 => "The familiar world you call home",
            1 => "A barren satellite with low gravity and craters",
            2 => "The red planet with giant volcanoes and dust storms",
            3 => "A scorching world with acidic clouds",
            4 => "Closest to the sun with extreme temperatures",
            5 => "A massive gas giant with extreme storms",
            6 => "Famous for its beautiful ring system",
            7 => "An ice giant with supersonic winds",
            8 => "A cold, distant world with nitrogen ice plains",
            9 => "Floating among ancient space rocks",
            10 => "An empty dimension between dimensions",
            11 => "A mystical dimension of giant crystals",
            12 => "A dimension of fire and lava",
            13 => "An endless winter dimension",
            _ => "",
        }
    }

    pub fn required_crystal_item_id(&self) -> (c: Option<u16>)
        ensures
            c == Self::spec_crystal(self.0),
    {
        if self.0 >= 1 && self.0 <= 13 {
            Some(219 + self.0)
        } else {
            None
        }
    }

    pub fn spawn_y(&self) -> (y: i32)
        ensures
            y == Self::spec_spawn_y(self.0),
    {
        if self.0 == 5 || self.0 == 6 || self.0 == 7 { 128 } else { 64 }
    }

    /// Offset of this dimension's terrain seed: the id times 1000.
    pub fn seed_offset(&self) -> (o: u64)
        ensures
            o == self.0 * 1000,
    {
        self.0 as u64 * 1000
    }
}

} // verus!
