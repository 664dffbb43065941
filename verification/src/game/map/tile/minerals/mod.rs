use vstd::prelude::*;

pub mod gen_params;

use super::TileType;

verus! {

#[derive(Copy, Clone, PartialEq, Eq, Debug, Structural)]
pub enum MineralType {
    IRON,
    GOLD,
    ROCK,
    MOSS,
    DIRT,
}

/// A mineral filling a tile.
#[derive(Clone, Copy, PartialEq, Eq, Debug, Structural)]
pub struct Mineral(pub MineralType);

impl Mineral {
    /// A mineral of type `mineral_type`.
    pub fn new(mineral_type: MineralType) -> (r: Mineral)
        ensures
            r == Mineral(mineral_type),
    {
        Mineral(mineral_type)
    }
}

/// Name of a mineral type, as written in the generation settings.
pub open spec fn mineral_name(m: MineralType) -> Seq<char> {
    match m {
        MineralType::IRON => "IRON"@,
        MineralType::GOLD => "GOLD"@,
        MineralType::ROCK => "ROCK"@,
        MineralType::MOSS => "MOSS"@,
        MineralType::DIRT => "DIRT"@,
    }
}

/// One-letter symbol of a mineral type.
pub open spec fn mineral_char(m: MineralType) -> Seq<char> {
    match m {
        MineralType::IRON => "I"@,
        MineralType::GOLD => "G"@,
        MineralType::ROCK => "R"@,
        MineralType::MOSS => "M"@,
        MineralType::DIRT => "D"@,
    }
}

impl MineralType {
    /// The mineral's name.
    pub fn to_str(self) -> (r: &'static str)
        ensures
            r@ == mineral_name(self),
    {
        match self {
            MineralType::IRON => "IRON",
            MineralType::GOLD => "GOLD",
            MineralType::ROCK => "ROCK",
            MineralType::MOSS => "MOSS",
            MineralType::DIRT => "DIRT",
        }
    }

    /// The mineral layer type holding this mineral.
    pub fn to_tile_type(self) -> (r: TileType)
        ensures
            r == TileType::Mineral(self),
    {
        TileType::Mineral(self)
    }

    /// The one-letter name of the mineral.
    pub fn to_char(self) -> (r: String)
        ensures
            r@ == mineral_char(self),
    {
        match self {
            MineralType::IRON => "I".to_owned(),
            MineralType::GOLD => "G".to_owned(),
            MineralType::ROCK => "R".to_owned(),
            MineralType::MOSS => "M".to_owned(),
            MineralType::DIRT => "D".to_owned(),
        }
    }

    /// Same symbol as `to_char`.
    pub fn to_ascii(self) -> (r: String)
        ensures
            r@ == mineral_char(self),
    {
        self.to_char()
    }

    /// RGBA color, packed as `0xRRGGBBAA`.
    pub fn color(self) -> (r: u32)
        ensures
            r == (match self {
                MineralType::IRON => 0xa89172ffu32,
                MineralType::GOLD => 0xffff1cffu32,
                MineralType::ROCK => 0x303030ffu32,
                MineralType::MOSS => 0x11aa1155u32,
                MineralType::DIRT => 0x140c07ffu32,
            }),
    {
        match self {
            MineralType::IRON => 0xa89172ff,
            MineralType::GOLD => 0xffff1cff,
            MineralType::ROCK => 0x303030ff,
            MineralType::MOSS => 0x11aa1155,
            MineralType::DIRT => 0x140c07ff,
        }
    }

    /// Minimum number of like neighbors for the mineral to spread.
    pub fn birth_limit(self) -> (r: usize)
        ensures
            r == (match self {
                MineralType::IRON => 2usize,
                MineralType::GOLD => 8usize,
                MineralType::ROCK => 5usize,
                MineralType::MOSS => 6usize,
                MineralType::DIRT => 5usize,
            }),
    {
        match self {
            MineralType::IRON => 2,
            MineralType::GOLD => 8,
            MineralType::ROCK => 5,
            MineralType::MOSS => 6,
            MineralType::DIRT => 5,
        }
    }

    /// Below this number of like neighbors the mineral disappears.
    pub fn death_limit(self) -> (r: usize)
        ensures
            r == 3,
    {
        match self {
            MineralType::IRON => 3,
            MineralType::GOLD => 3,
            MineralType::ROCK => 3,
            MineralType::MOSS => 3,
            MineralType::DIRT => 3,
        }
    }

    /// Number of automaton passes run for the mineral.
    pub fn iterations(self) -> (r: usize)
        ensures
            r == 0,
    {
        match self {
            MineralType::IRON => 0,
            MineralType::GOLD => 0,
            MineralType::ROCK => 0,
            MineralType::MOSS => 0,
            MineralType::DIRT => 0,
        }
    }

    /// Maximum number of air neighbors for the mineral to appear.
    pub fn max_air_exposure(self) -> (r: usize)
        ensures
            r == (match self {
                MineralType::IRON => 2usize,
                MineralType::GOLD => 8usize,
                MineralType::ROCK => 5usize,
                MineralType::MOSS => 8usize,
                MineralType::DIRT => 5usize,
            }),
    {
        match self {
            MineralType::IRON => 2,
            MineralType::GOLD => 8,
            MineralType::ROCK => 5,
            MineralType::MOSS => 8,
            MineralType::DIRT => 5,
        }
    }
}

} // verus!
