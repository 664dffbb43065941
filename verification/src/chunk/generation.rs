use vstd::prelude::*;

use super::manager::Manager;

verus! {

/// Shape of the area of chunks a new world starts with.
#[derive(Copy, Clone, PartialEq, Eq, Debug, Structural)]
pub enum MapShape {
    SQUARE,
    RECT,
    ROUND,
}

/// Half the width, in chunks, of the area a new world starts with.
pub const STARTING_AREA: i32 = 2;

/// Shape of the area a new world starts with.
pub const STARTING_MAP_SHAPE: MapShape = MapShape::SQUARE;

impl Manager {
    /// The positions of the chunks a new world starts with, row by row: a
    /// square `STARTING_AREA` chunks around the origin on each side, or a
    /// rectangle half as tall. Round maps are not supported.
    pub fn starting_chunks(&self, shape: MapShape) -> (r: Vec<(i32, i32)>)
        requires
            shape != MapShape::ROUND,
        ensures
            shape == MapShape::SQUARE ==> r@ == Manager::range_positions(-2, 2, -2, 2),
            shape == MapShape::RECT ==> r@ == Manager::range_positions(-2, 2, -1, 1),
    {
        match shape {
            MapShape::RECT => self.generate_range(-STARTING_AREA..STARTING_AREA, -(STARTING_AREA / 2)..STARTING_AREA / 2),
            _ => self.generate_range(-STARTING_AREA..STARTING_AREA, -STARTING_AREA..STARTING_AREA),
        }
    }
}

} // verus!
