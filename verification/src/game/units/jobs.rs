use vstd::prelude::*;

use crate::game::map::tile::minerals::MineralType;
use crate::game::map::tile::TileType;

verus! {

#[derive(Debug, Copy, Clone, PartialEq, Eq, Structural)]
pub enum JobType {
    MINER(TileType),
    JOBLESS,
    FARMER,
    FIGHTER,
    BUILDER,
}

/// The mineral a job digs, if it is a miner's.
pub open spec fn miner_target(j: JobType) -> Option<MineralType> {
    match j {
        JobType::MINER(TileType::Mineral(m)) => Some(m),
        _ => None,
    }
}

impl JobType {
    /// The mineral a miner digs; an error for any other job.
    pub fn get_miner_target(self) -> (r: Result<MineralType, ()>)
        ensures
            r == (match miner_target(self) {
                Some(m) => Ok::<MineralType, ()>(m),
                None => Err(()),
            }),
    {
        match self {
            JobType::MINER(tile_type) => match tile_type {
                TileType::Mineral(mineral_type) => Ok(mineral_type),
                _ => Err(()),
            },
            _ => Err(()),
        }
    }
}

} // verus!
