use vstd::prelude::*;

use super::super::terrain::TerrainType;
use super::super::TileType;
use super::MineralType;

verus! {

/// Path of the mineral generation settings.
pub const SETTINGS_PATH: &'static str = "./settings/tile/minerals/gen_params.json";

/// The tile types a mineral may replace while the map is generated.
pub open spec fn replaceable(m: MineralType) -> Seq<TileType> {
    match m {
        MineralType::IRON => seq![TileType::TerrainType(TerrainType::AIR), TileType::Mineral(MineralType::ROCK)],
        MineralType::GOLD => seq![TileType::Mineral(MineralType::IRON)],
        MineralType::ROCK => seq![
            TileType::TerrainType(TerrainType::AIR),
            TileType::TerrainType(TerrainType::WATER),
            TileType::Mineral(MineralType::DIRT),
        ],
        MineralType::DIRT => seq![TileType::TerrainType(TerrainType::AIR), TileType::Mineral(MineralType::ROCK)],
        MineralType::MOSS => seq![
            TileType::TerrainType(TerrainType::WATER),
            TileType::TerrainType(TerrainType::AIR),
            TileType::Mineral(MineralType::DIRT),
        ],
    }
}

impl MineralType {
    /// The tile types this mineral can replace when it is generated.
    pub fn can_replace(self) -> (r: Vec<TileType>)
        ensures
            r@ == replaceable(self),
    {
        let mut v: Vec<TileType> = Vec::new();
        match self {
            MineralType::IRON => {
                v.push(TileType::TerrainType(TerrainType::AIR));
                v.push(TileType::Mineral(MineralType::ROCK));
            },
            MineralType::GOLD => {
                v.push(TileType::Mineral(MineralType::IRON));
            },
            MineralType::ROCK => {
                v.push(TileType::TerrainType(TerrainType::AIR));
                v.push(TileType::TerrainType(TerrainType::WATER));
                v.push(TileType::Mineral(MineralType::DIRT));
            },
            MineralType::DIRT => {
                v.push(TileType::TerrainType(TerrainType::AIR));
                v.push(TileType::Mineral(MineralType::ROCK));
            },
            MineralType::MOSS => {
                v.push(TileType::TerrainType(TerrainType::WATER));
                v.push(TileType::TerrainType(TerrainType::AIR));
                v.push(TileType::Mineral(MineralType::DIRT));
            },
        }
        assert(v@ =~= replaceable(self));
        v
    }
}

} // verus!
