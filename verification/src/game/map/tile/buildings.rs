use vstd::prelude::*;

use super::minerals::MineralType;
use super::TileType;
use crate::coords::Coords;
use crate::game::units::RaceType;

verus! {

/// A building standing on a tile: a race's hearth or a mineral stockpile.
#[derive(Debug, Copy, Clone, PartialEq, Eq, Structural)]
pub enum Buildable<R> where R: Copy + Eq {
    Hearth(Hearth<R>),
    Stockpile(Stockpile<MineralType>),
}

/// Kind of a building, without its state.
#[derive(Debug, Clone, Copy, Eq, PartialEq, Structural)]
pub enum BuildingType {
    Hearth,
    /// A stockpile is used by units whose job mines the same mineral.
    Stockpile(MineralType),
}

/// What a building is, as a building type.
pub open spec fn building_type_of(b: Buildable<RaceType>) -> BuildingType {
    match b {
        Buildable::Hearth(_) => BuildingType::Hearth,
        Buildable::Stockpile(s) => BuildingType::Stockpile(s.mineral_type),
    }
}

impl Buildable<RaceType> {
    /// The building layer type holding this building.
    pub fn to_tile_type(self) -> (r: TileType)
        ensures
            r == TileType::Building(self),
    {
        TileType::Building(self)
    }

    /// RGBA color, packed as `0xRRGGBBAA`.
    pub fn color(self) -> (r: u32)
        ensures
            r == (match self {
                Buildable::Hearth(_) => 0xccaa44ffu32,
                Buildable::Stockpile(_) => 0x064f28ffu32,
            }),
    {
        match self {
            Buildable::Hearth(_) => 0xccaa44ff,
            Buildable::Stockpile(_) => 0x064f28ff,
        }
    }

    /// The kind of this building.
    pub fn building_type(self) -> (r: BuildingType)
        ensures
            r == building_type_of(self),
    {
        match self {
            Buildable::Hearth(_) => BuildingType::Hearth,
            Buildable::Stockpile(s) => BuildingType::Stockpile(s.mineral_type),
        }
    }
}

/// A building placed on the map for a race.
#[derive(Debug, Clone, Copy, Eq, PartialEq, Structural)]
pub struct Building<B> {
    pub buildable: B,
    pub coords: Coords,
    pub race_type: RaceType,
}

impl Building<Buildable<RaceType>> {
    /// The building's stockpile; only stockpiles have one.
    pub fn stockpile(&self) -> (r: Stockpile<MineralType>)
        requires
            self.buildable is Stockpile,
        ensures
            self.buildable == Buildable::<RaceType>::Stockpile(r),
    {
        match self.buildable {
            Buildable::Stockpile(s) => s,
            Buildable::Hearth(_) => {
                proof {
                    assert(false);
                }
                Stockpile { mineral_type: MineralType::ROCK, content: Content(0, 0) }
            },
        }
    }

    /// The building layer type holding this building.
    pub fn to_tile_type(self) -> (r: TileType)
        ensures
            r == TileType::Building(self.buildable),
    {
        TileType::Building(self.buildable)
    }
}

/// A stockpile for one mineral.
#[derive(Debug, Clone, Copy, Eq, PartialEq, Structural)]
pub struct Stockpile<M> where M: Copy {
    pub mineral_type: M,
    pub content: Content,
}

impl Stockpile<MineralType> {
    /// The same stockpile.
    pub fn new(self) -> (r: Stockpile<MineralType>)
        ensures
            r == self,
    {
        Stockpile { mineral_type: self.mineral_type, content: self.content }
    }

    /// The mineral this stockpile stores.
    pub fn get_mineral_type(&self) -> (r: MineralType)
        ensures
            r == self.mineral_type,
    {
        self.mineral_type
    }

    /// Two stockpiles are alike when they store the same mineral.
    pub fn eq(self, other: Stockpile<MineralType>) -> (r: bool)
        ensures
            r == (self.mineral_type == other.mineral_type),
    {
        self.mineral_type == other.mineral_type
    }
}

/// `(stored_amount, max)` of a stockpile; the methods work on a copy.
#[derive(Debug, Clone, Copy, Eq, PartialEq, Structural)]
pub struct StockpileContent(pub u32, pub u32);

impl StockpileContent {
    /// Adds to a copy of the content, which is then dropped.
    pub fn add(self, amount: u32)
        requires
            self.0 + amount <= u32::MAX,
    {
        let mut c = self;
        c.0 = c.0 + amount;
    }

    /// Takes from a copy of the content, which is then dropped.
    pub fn take(self, amount: u32)
        requires
            self.0 >= amount,
    {
        let mut c = self;
        c.0 = c.0 - amount;
    }

    /// How much the stockpile holds.
    pub fn stored_amount(&self) -> (r: u32)
        ensures
            r == self.0,
    {
        self.0
    }
}

impl BuildingType {
    /// RGBA color, packed as `0xRRGGBBAA`.
    pub fn color(self) -> (r: u32)
        ensures
            r == (match self {
                BuildingType::Hearth => 0xccaa44ffu32,
                BuildingType::Stockpile(MineralType::MOSS) => 0x064f28ffu32,
                BuildingType::Stockpile(MineralType::DIRT) => 0x000030ffu32,
                BuildingType::Stockpile(MineralType::ROCK) => 0x0a0a0affu32,
                BuildingType::Stockpile(MineralType::GOLD) => 0x505030ffu32,
                BuildingType::Stockpile(MineralType::IRON) => 0xff00ffffu32,
            }),
    {
        match self {
            BuildingType::Hearth => 0xccaa44ff,
            BuildingType::Stockpile(mineral_type) => match mineral_type {
                MineralType::MOSS => 0x064f28ff,
                MineralType::DIRT => 0x000030ff,
                MineralType::ROCK => 0x0a0a0aff,
                MineralType::GOLD => 0x505030ff,
                _ => 0xff00ffff,
            },
        }
    }
}

/// `(stored_amount, max)` of a stockpile; `add` and `take` work on a copy.
#[derive(Debug, Clone, Copy, Eq, PartialEq, Structural)]
pub struct Content(pub u32, pub u32);

impl Content {
    /// An empty content with no room.
    pub fn new() -> (r: Content)
        ensures
            r == Content(0, 0),
    {
        Content(0, 0)
    }

    /// Adds to a copy of the content, which is then dropped.
    pub fn add(self, amount: u32)
        requires
            self.0 + amount <= u32::MAX,
    {
        let mut c = self;
        c.0 = c.0 + amount;
    }

    /// Takes from a copy of the content, which is then dropped.
    pub fn take(self, amount: u32)
        requires
            self.0 >= amount,
    {
        let mut c = self;
        c.0 = c.0 - amount;
    }

    /// How much is stored.
    pub fn stored_amount(&self) -> (r: u32)
        ensures
            r == self.0,
    {
        self.0
    }

    /// How much can be stored.
    pub fn max_amount(&self) -> (r: u32)
        ensures
            r == self.1,
    {
        self.1
    }
}

/// The hearth of a race: its home.
#[derive(Debug, Clone, Copy, Eq, PartialEq, Structural)]
pub struct Hearth<R> where R: Copy {
    pub race_type: R,
    pub hp: u32,
}

impl Hearth<RaceType> {
    /// Two hearths are alike when they belong to the same race.
    pub fn eq(self, other: Hearth<RaceType>) -> (r: bool)
        ensures
            r == (self.race_type == other.race_type),
    {
        self.race_type == other.race_type
    }
}

} // verus!
