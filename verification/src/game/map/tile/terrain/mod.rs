use vstd::prelude::*;

use super::TileType;

verus! {

#[derive(Debug, Copy, Clone, PartialEq, Eq, Structural)]
pub enum TerrainType {
    AIR,
    WATER,
}

impl TerrainType {
    /// The terrain layer type holding this terrain.
    pub fn to_tile_type(self) -> (r: TileType)
        ensures
            r == TileType::TerrainType(self),
    {
        TileType::TerrainType(self)
    }

    /// RGBA color, packed as `0xRRGGBBAA`.
    pub fn color(self) -> (r: u32)
        ensures
            r == (match self {
                TerrainType::AIR => 0x040201ffu32,
                TerrainType::WATER => 0x111199ffu32,
            }),
    {
        match self {
            TerrainType::AIR => 0x040201ff,
            TerrainType::WATER => 0x111199ff,
        }
    }
}

} // verus!
