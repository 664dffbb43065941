use vstd::prelude::*;

verus! {

/// Bit set of tile properties.
#[derive(Copy, Clone, PartialEq, Eq, Debug, Structural)]
pub struct TileFlag {
    pub bits: u16,
}

/// Units can move through the tile.
pub const TRAVERSABLE: u16 = 0b0000001;
/// The tile can be dug out.
pub const DIGGABLE: u16 = 0b0000010;
/// Something can be built on the tile.
pub const BUILDABLE: u16 = 0b0000100;
/// The tile has a temperature.
pub const TEMPERATURE: u16 = 0b0001000;
/// Units can interact with the tile.
pub const INTERACTIBLE: u16 = 0b0010000;
/// The tile carries a state of its own.
pub const HAS_STATE: u16 = 0b0100000;
/// The tile lets the view through.
pub const TRANSPARENT: u16 = 0b1000000;

/// Flags of gases and fluids: traversable and transparent.
pub const GAS_BITS: u16 = 0b1000001;

impl TileFlag {
    /// A flag set holding exactly `bits`.
    pub fn from_bits_retain(bits: u16) -> (r: TileFlag)
        ensures
            r.bits == bits,
    {
        TileFlag { bits }
    }

    /// The empty flag set.
    pub fn empty() -> (r: TileFlag)
        ensures
            r.bits == 0,
    {
        TileFlag { bits: 0 }
    }

    /// True when every flag of `other` is also set in `self`.
    pub fn contains(&self, other: TileFlag) -> (r: bool)
        ensures
            r == (self.bits & other.bits == other.bits),
    {
        self.bits & other.bits == other.bits
    }
}

#[derive(Copy, Clone, PartialEq, Eq, Debug, Structural, Hash)]
pub enum Fluid {
    Magma,
    Water,
    SaltWater,
}

#[derive(Copy, Clone, PartialEq, Eq, Debug, Structural, Hash)]
pub enum Gas {
    Air,
}

#[derive(Copy, Clone, PartialEq, Eq, Debug, Structural, Hash)]
pub enum Soil {
    Dirt,
    Sand,
    Clay,
}

#[derive(Copy, Clone, PartialEq, Eq, Debug, Structural, Hash)]
pub enum Stone {
    Bedrock,
    Granite,
    Marble,
    Limestone,
}

/// Material of a voxel tile.
#[derive(Copy, Clone, PartialEq, Eq, Debug, Structural, Hash)]
pub enum TileType {
    Stone(Stone),
    Soil(Soil),
    Gas(Gas),
    Fluid(Fluid),
    Custom(u16),
}

/// Display name of a tile type; custom tile types have none.
pub open spec fn tile_type_name(t: TileType) -> Seq<char> {
    match t {
        TileType::Fluid(Fluid::Magma) => "Magma"@,
        TileType::Fluid(Fluid::Water) => "Water"@,
        TileType::Fluid(Fluid::SaltWater) => "SaltWater"@,
        TileType::Stone(Stone::Bedrock) => "Bedrock"@,
        TileType::Stone(Stone::Granite) => "Granite"@,
        TileType::Stone(Stone::Marble) => "Marble"@,
        TileType::Stone(Stone::Limestone) => "Limestone"@,
        TileType::Soil(Soil::Dirt) => "Dirt"@,
        TileType::Soil(Soil::Sand) => "Sand"@,
        TileType::Soil(Soil::Clay) => "Clay"@,
        TileType::Gas(Gas::Air) => "Air"@,
        TileType::Custom(_) => Seq::empty(),
    }
}

impl TileType {
    /// Placeholder type of tiles that should not exist.
    pub fn error() -> (r: TileType)
        ensures
            r == TileType::Custom(0),
    {
        TileType::Custom(0)
    }

    /// True for fluids.
    pub fn is_fluid(self) -> (r: bool)
        ensures
            r == (self is Fluid),
    {
        match self {
            TileType::Fluid(_) => true,
            _ => false,
        }
    }

    /// Display name; custom tile types have no name.
    pub fn name(self) -> (r: String)
        requires
            !(self is Custom),
        ensures
            r@ == tile_type_name(self),
    {
        match self {
            TileType::Fluid(f) => match f {
                Fluid::Magma => "Magma".to_owned(),
                Fluid::Water => "Water".to_owned(),
                Fluid::SaltWater => "SaltWater".to_owned(),
            },
            TileType::Stone(r) => match r {
                Stone::Bedrock => "Bedrock".to_owned(),
                Stone::Granite => "Granite".to_owned(),
                Stone::Marble => "Marble".to_owned(),
                Stone::Limestone => "Limestone".to_owned(),
            },
            TileType::Soil(s) => match s {
                Soil::Dirt => "Dirt".to_owned(),
                Soil::Sand => "Sand".to_owned(),
                Soil::Clay => "Clay".to_owned(),
            },
            TileType::Gas(_) => "Air".to_owned(),
            TileType::Custom(_) => {
                proof {
                    assert(false);
                }
                String::new()
            },
        }
    }

    /// One-character ASCII rendering of the tile type.
    pub open spec fn spec_ascii(self) -> char {
        match self {
            TileType::Stone(_) => 'X',
            TileType::Soil(_) => 'x',
            TileType::Gas(_) => '\'',
            TileType::Fluid(_) => '~',
            TileType::Custom(_) => '?',
        }
    }

    /// One-character ASCII rendering of the tile type.
    pub fn ascii(self) -> (r: char)
        ensures
            r == self.spec_ascii(),
    {
        match self {
            TileType::Stone(_) => 'X',
            TileType::Soil(_) => 'x',
            TileType::Gas(_) => '\'',
            TileType::Fluid(_) => '~',
            TileType::Custom(_) => '?',
        }
    }
}

/// One voxel of a chunk.
#[derive(Copy, Clone, PartialEq, Eq, Debug, Structural)]
pub struct Tile {
    pub hp: u8,
    pub tile_type: TileType,
    pub properties: TileFlag,
}

/// The tile of type `tile_type` with `hp` points and the properties `bits`.
pub open spec fn mk_tile(hp: u8, tile_type: TileType, bits: u16) -> Tile {
    Tile { hp, tile_type, properties: TileFlag { bits } }
}

/// RGBA color of a tile type, as drawn on screen.
pub open spec fn tile_color(t: TileType) -> (u8, u8, u8, u8) {
    match t {
        TileType::Stone(Stone::Bedrock) => (128, 128, 128, 255),
        TileType::Stone(Stone::Granite) => (100, 100, 100, 255),
        TileType::Stone(Stone::Marble) => (150, 150, 150, 255),
        TileType::Stone(Stone::Limestone) => (175, 175, 175, 255),
        TileType::Soil(Soil::Dirt) => (111, 78, 55, 255),
        TileType::Soil(Soil::Sand) => (150, 124, 32, 255),
        TileType::Soil(Soil::Clay) => (182, 106, 80, 255),
        TileType::Gas(_) => (15, 15, 15, 10),
        TileType::Fluid(Fluid::Water) => (0, 0, 250, 200),
        TileType::Fluid(Fluid::SaltWater) => (0, 0, 200, 150),
        TileType::Fluid(Fluid::Magma) => (255, 0, 0, 200),
        TileType::Custom(_) => (255, 155, 200, 255),
    }
}

impl Tile {
    /// Placeholder tile for cases that should not happen.
    pub fn error() -> (r: Tile)
        ensures
            r == mk_tile(0, TileType::Custom(0), 0),
    {
        Tile { hp: 0, tile_type: TileType::Custom(0), properties: TileFlag { bits: 0 } }
    }

    /// The tile of fresh air.
    pub open spec fn spec_air() -> Tile {
        mk_tile(100, TileType::Gas(Gas::Air), GAS_BITS)
    }

    /// A tile of fresh air: traversable and transparent.
    pub fn air() -> (r: Tile)
        ensures
            r == Tile::spec_air(),
    {
        Tile { hp: 100, tile_type: TileType::Gas(Gas::Air), properties: TileFlag { bits: GAS_BITS } }
    }

    /// A diggable tile of sand.
    pub fn sand() -> (r: Tile)
        ensures
            r == mk_tile(100, TileType::Soil(Soil::Sand), DIGGABLE),
    {
        Tile { hp: 100, tile_type: TileType::Soil(Soil::Sand), properties: TileFlag { bits: DIGGABLE } }
    }

    /// A diggable tile of clay.
    pub fn clay() -> (r: Tile)
        ensures
            r == mk_tile(100, TileType::Soil(Soil::Clay), DIGGABLE),
    {
        Tile { hp: 100, tile_type: TileType::Soil(Soil::Clay), properties: TileFlag { bits: DIGGABLE } }
    }

    /// A diggable tile of dirt.
    pub fn dirt() -> (r: Tile)
        ensures
            r == mk_tile(100, TileType::Soil(Soil::Dirt), DIGGABLE),
    {
        Tile { hp: 100, tile_type: TileType::Soil(Soil::Dirt), properties: TileFlag { bits: DIGGABLE } }
    }

    /// A tile of bedrock, which nothing can dig.
    pub fn bedrock() -> (r: Tile)
        ensures
            r == mk_tile(100, TileType::Stone(Stone::Bedrock), 0),
    {
        Tile { hp: 100, tile_type: TileType::Stone(Stone::Bedrock), properties: TileFlag { bits: 0 } }
    }

    /// A diggable tile of marble.
    pub fn marble() -> (r: Tile)
        ensures
            r == mk_tile(100, TileType::Stone(Stone::Marble), DIGGABLE),
    {
        Tile { hp: 100, tile_type: TileType::Stone(Stone::Marble), properties: TileFlag { bits: DIGGABLE } }
    }

    /// A diggable tile of limestone.
    pub fn limestone() -> (r: Tile)
        ensures
            r == mk_tile(100, TileType::Stone(Stone::Limestone), DIGGABLE),
    {
        Tile {
            hp: 100,
            tile_type: TileType::Stone(Stone::Limestone),
            properties: TileFlag { bits: DIGGABLE },
        }
    }

    /// A diggable tile of granite.
    pub fn granite() -> (r: Tile)
        ensures
            r == mk_tile(100, TileType::Stone(Stone::Granite), DIGGABLE),
    {
        Tile { hp: 100, tile_type: TileType::Stone(Stone::Granite), properties: TileFlag { bits: DIGGABLE } }
    }

    /// A tile of water: traversable and transparent.
    pub fn water() -> (r: Tile)
        ensures
            r == mk_tile(100, TileType::Fluid(Fluid::Water), GAS_BITS),
    {
        Tile { hp: 100, tile_type: TileType::Fluid(Fluid::Water), properties: TileFlag { bits: GAS_BITS } }
    }

    /// True when the tile can be walked through.
    pub fn is_traversable(&self) -> (r: bool)
        ensures
            r == (self.properties.bits & TRAVERSABLE == TRAVERSABLE),
    {
        self.properties.contains(TileFlag { bits: TRAVERSABLE })
    }

    /// RGBA color of the tile.
    pub fn color(self) -> (r: (u8, u8, u8, u8))
        ensures
            r == tile_color(self.tile_type),
    {
        match self.tile_type {
            TileType::Stone(stone) => match stone {
                Stone::Bedrock => (128, 128, 128, 255),
                Stone::Granite => (100, 100, 100, 255),
                Stone::Marble => (150, 150, 150, 255),
                Stone::Limestone => (175, 175, 175, 255),
            },
            TileType::Soil(soil) => match soil {
                Soil::Dirt => (111, 78, 55, 255),
                Soil::Sand => (150, 124, 32, 255),
                Soil::Clay => (182, 106, 80, 255),
            },
            TileType::Gas(_) => (15, 15, 15, 10),
            TileType::Fluid(fluid) => match fluid {
                Fluid::Water => (0, 0, 250, 200),
                Fluid::SaltWater => (0, 0, 200, 150),
                Fluid::Magma => (255, 0, 0, 200),
            },
            TileType::Custom(_) => (255, 155, 200, 255),
        }
    }
}

} // verus!
