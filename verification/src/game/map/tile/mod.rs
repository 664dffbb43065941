use vstd::prelude::*;

pub mod buildings;
pub mod minerals;
pub mod terrain;

use buildings::{Buildable, BuildingType};
use minerals::{Mineral, MineralType};
use terrain::TerrainType;

use crate::game::map::{grid_check, TileMap};
use crate::game::units::pathfinding::{next_down, next_up};
use crate::game::units::{Item, RaceType};
use crate::text::str_eq;

verus! {

/// One of the three layers of a map tile.
#[derive(Debug, Copy, Clone, PartialEq, Eq, Structural)]
pub enum TileType {
    Mineral(MineralType),
    Building(Buildable<RaceType>),
    TerrainType(TerrainType),
}

/// A map tile: a terrain, a mineral and a building layer, each optional.
#[derive(Debug, Copy, Clone, PartialEq, Eq, Structural)]
pub struct Tile(pub Option<TerrainType>, pub Option<Mineral>, pub Option<Buildable<RaceType>>);

/// The tile holding only `t` in its layer.
pub open spec fn single_tile(t: TileType) -> Tile {
    match t {
        TileType::TerrainType(terrain) => Tile(Some(terrain), None, None),
        TileType::Mineral(m) => Tile(None, Some(Mineral(m)), None),
        TileType::Building(b) => Tile(None, None, Some(b)),
    }
}

/// `tile` with the layer of `t` set to `t`.
pub open spec fn with_layer(tile: Tile, t: TileType) -> Tile {
    match t {
        TileType::TerrainType(terrain) => Tile(Some(terrain), tile.1, tile.2),
        TileType::Mineral(m) => Tile(tile.0, Some(Mineral(m)), tile.2),
        TileType::Building(b) => Tile(tile.0, tile.1, Some(b)),
    }
}

/// Some layer of `tile` is exactly `other`.
pub open spec fn tile_has(tile: Tile, other: TileType) -> bool {
    ||| (tile.0 matches Some(t) && TileType::TerrainType(t) == other)
    ||| (tile.1 matches Some(m) && TileType::Mineral(m.0) == other)
    ||| (tile.2 matches Some(b) && TileType::Building(b) == other)
}

/// Collectable tile types: only moss can be harvested.
pub open spec fn collectable(t: TileType) -> bool {
    t == TileType::Mineral(MineralType::MOSS)
}

/// Units can walk on air, water, moss and buildings.
pub open spec fn tile_type_walkable(t: TileType) -> bool {
    match t {
        TileType::TerrainType(_) => true,
        TileType::Mineral(MineralType::MOSS) => true,
        TileType::Building(_) => true,
        _ => false,
    }
}

/// The tile type named `s` in the generation settings.
pub open spec fn tile_type_named(s: Seq<char>) -> Option<TileType> {
    if s == "AIR"@ {
        Some(TileType::TerrainType(TerrainType::AIR))
    } else if s == "WATER"@ {
        Some(TileType::TerrainType(TerrainType::WATER))
    } else if s == "ROCK"@ {
        Some(TileType::Mineral(MineralType::ROCK))
    } else if s == "DIRT"@ {
        Some(TileType::Mineral(MineralType::DIRT))
    } else if s == "IRON"@ {
        Some(TileType::Mineral(MineralType::IRON))
    } else if s == "GOLD"@ {
        Some(TileType::Mineral(MineralType::GOLD))
    } else if s == "MOSS"@ {
        Some(TileType::Mineral(MineralType::MOSS))
    } else {
        None
    }
}

/// The neighbor at `(nx, ny)` of grid `g` holds a mineral that `tile` has.
pub open spec fn like(g: Seq<Seq<Tile>>, tile: Tile, nx: int, ny: int) -> bool {
    grid_check(g, nx, ny) && (g[nx][ny].1 matches Some(m) && tile_has(tile, TileType::Mineral(m.0)))
}

/// One for true, zero for false.
pub open spec fn b2i(b: bool) -> int {
    if b {
        1
    } else {
        0
    }
}

/// How many of the 8 neighbors of `(x, y)` in grid `g` hold a mineral that `tile` has.
pub open spec fn count_like(g: Seq<Seq<Tile>>, tile: Tile, x: int, y: int) -> int {
    b2i(like(g, tile, x - 1, y - 1)) + b2i(like(g, tile, x - 1, y)) + b2i(like(g, tile, x - 1, y + 1))
        + b2i(like(g, tile, x, y - 1)) + b2i(like(g, tile, x, y + 1)) + b2i(like(g, tile, x + 1, y - 1))
        + b2i(like(g, tile, x + 1, y)) + b2i(like(g, tile, x + 1, y + 1))
}

/// How many of the 8 neighbors of `(x, y)` in grid `g` hold a mineral that
/// `tile` has, the neighbors' indices wrapping around at the ends of `usize`.
pub open spec fn count_like_around(g: Seq<Seq<Tile>>, tile: Tile, x: usize, y: usize) -> int {
    let (xd, xu) = (next_down(x) as int, next_up(x) as int);
    let (yd, yu) = (next_down(y) as int, next_up(y) as int);
    b2i(like(g, tile, xd, yd)) + b2i(like(g, tile, xd, y as int)) + b2i(like(g, tile, xd, yu))
        + b2i(like(g, tile, x as int, yd)) + b2i(like(g, tile, x as int, yu)) + b2i(like(g, tile, xu, yd))
        + b2i(like(g, tile, xu, y as int)) + b2i(like(g, tile, xu, yu))
}

/// 1 when the neighbor at `(nx, ny)` holds a mineral that `tile` has, else 0.
fn like_count(map: &TileMap, tile: Tile, nx: usize, ny: usize) -> (r: usize)
    ensures
        r == b2i(like(map.grid(), tile, nx as int, ny as int)),
{
    match map.get_tile(nx, ny) {
        Ok((Tile(_, Some(mineral), _), _)) => {
            if tile.has(mineral.0.to_tile_type()).is_ok() {
                1
            } else {
                0
            }
        },
        _ => 0,
    }
}

impl TileType {
    /// Parses the name of a tile type; an unknown name is handed back as the error.
    pub fn from_str<'a>(s: &'a str) -> (r: Result<TileType, &'a str>)
        ensures
            tile_type_named(s@) matches Some(t) ==> r == Ok::<TileType, &'a str>(t),
            tile_type_named(s@) is None ==> (r matches Err(e) && e@ == s@),
    {
        if str_eq(s, "AIR") {
            Ok(TileType::TerrainType(TerrainType::AIR))
        } else if str_eq(s, "WATER") {
            Ok(TileType::TerrainType(TerrainType::WATER))
        } else if str_eq(s, "ROCK") {
            Ok(TileType::Mineral(MineralType::ROCK))
        } else if str_eq(s, "DIRT") {
            Ok(TileType::Mineral(MineralType::DIRT))
        } else if str_eq(s, "IRON") {
            Ok(TileType::Mineral(MineralType::IRON))
        } else if str_eq(s, "GOLD") {
            Ok(TileType::Mineral(MineralType::GOLD))
        } else if str_eq(s, "MOSS") {
            Ok(TileType::Mineral(MineralType::MOSS))
        } else {
            Err(s)
        }
    }

    /// Symbol of a mineral, a blank for anything else.
    pub fn to_ascii(self) -> (r: String)
        ensures
            r@ == (match self {
                TileType::Mineral(m) => minerals::mineral_char(m),
                _ => " "@,
            }),
    {
        match self {
            TileType::Mineral(mineral_type) => mineral_type.to_char(),
            _ => " ".to_owned(),
        }
    }

    /// Can be harvested (moss only: rock, iron and gold cannot).
    pub fn is_collectable(self) -> (r: bool)
        ensures
            r == collectable(self),
    {
        match self {
            TileType::Mineral(MineralType::ROCK) => false,
            TileType::Mineral(MineralType::IRON) => false,
            TileType::Mineral(MineralType::GOLD) => false,
            TileType::Mineral(MineralType::MOSS) => true,
            _ => false,
        }
    }

    /// The mineral of a mineral type.
    pub fn into_mineral(self) -> (r: Option<Mineral>)
        ensures
            r == (match self {
                TileType::Mineral(m) => Some(Mineral(m)),
                _ => None,
            }),
    {
        match self {
            TileType::Mineral(mineral_type) => Some(Mineral(mineral_type)),
            _ => None,
        }
    }

    /// The item a collectable type gives.
    pub fn into_item(self) -> (r: Option<Item>)
        ensures
            collectable(self) ==> r == Some(Item::Mineral(self)),
            !collectable(self) ==> r is None,
    {
        if self.is_collectable() {
            Some(Item::Mineral(self))
        } else {
            None
        }
    }

    /// Air, water, moss and buildings can be walked through.
    pub fn is_walkable(self) -> (r: bool)
        ensures
            r == tile_type_walkable(self),
    {
        match self {
            TileType::TerrainType(TerrainType::AIR) => true,
            TileType::TerrainType(TerrainType::WATER) => true,
            TileType::Mineral(MineralType::MOSS) => true,
            TileType::Building(_) => true,
            _ => false,
        }
    }

    /// The mineral of a mineral type, else the type itself as the error.
    pub fn get_mineral_type(self) -> (r: Result<MineralType, TileType>)
        ensures
            r == (match self {
                TileType::Mineral(m) => Ok(m),
                _ => Err(self),
            }),
    {
        match self {
            TileType::Mineral(mineral_type) => Ok(mineral_type),
            _ => Err(self),
        }
    }

    /// `None` for minerals and terrains; on a building the lookup recurses into
    /// itself without end, so buildings are left out.
    pub fn get_building_type(self) -> (r: Option<BuildingType>)
        requires
            !(self is Building),
        ensures
            r is None,
    {
        match self {
            TileType::Building(_) => {
                proof {
                    assert(false);
                }
                None
            },
            _ => None,
        }
    }

    /// The terrain of a terrain type.
    pub fn get_terrain_type(self) -> (r: Option<TerrainType>)
        ensures
            r == (match self {
                TileType::TerrainType(t) => Some(t),
                _ => None,
            }),
    {
        match self {
            TileType::TerrainType(terrain_type) => Some(terrain_type),
            _ => None,
        }
    }

    /// The tile holding only this tile type.
    pub fn as_tile(self) -> (r: Tile)
        ensures
            r == single_tile(self),
    {
        let mut tile = Tile::new();
        match self {
            TileType::TerrainType(terrain_type) => {
                tile.set_single(terrain_type.to_tile_type());
            },
            TileType::Mineral(mineral_type) => {
                tile.set_single(mineral_type.to_tile_type());
            },
            TileType::Building(buildable) => {
                tile.set_single(TileType::Building(buildable));
            },
        };
        tile
    }
}

impl Tile {
    /// The empty tile.
    pub fn new() -> (r: Tile)
        ensures
            r == Tile(None, None, None),
    {
        Tile(None, None, None)
    }

    /// Always false: the comparison's outcome is discarded.
    pub fn eq(self, other: Option<Tile>) -> (r: bool)
        ensures
            !r,
    {
        if other.is_some() {
            let o = other.unwrap();
            if self.0 == o.0 && self.1 == o.1 && self.2 == o.2 {
            }
        }
        false
    }

    /// The tile holding only `other`.
    pub fn any(other: TileType) -> (r: Tile)
        ensures
            r == single_tile(other),
    {
        let mut tile = Tile::new();
        tile.set_single(other);
        tile
    }

    /// When a layer of this tile is `other`, the tile holding only `other`.
    pub fn has(self, other: TileType) -> (r: Result<Tile, ()>)
        ensures
            tile_has(self, other) ==> r == Ok::<Tile, ()>(single_tile(other)),
            !tile_has(self, other) ==> r is Err,
    {
        if let Some(terrain) = self.0 {
            let tile_type = terrain.to_tile_type();
            if tile_type == other {
                return Ok(tile_type.as_tile());
            }
        }
        if let Some(mineral) = self.1 {
            let tile_type = mineral.0.to_tile_type();
            if tile_type == other {
                return Ok(tile_type.as_tile());
            }
        }
        if let Some(building) = self.2 {
            let tile_type = building.to_tile_type();
            if tile_type == other {
                return Ok(tile_type.as_tile());
            }
        }
        Err(())
    }

    /// Always false: the test's outcome is discarded.
    pub fn has_some(self) -> (r: bool)
        ensures
            !r,
    {
        if self.0.is_some() || self.1.is_some() || self.2.is_some() {
        }
        false
    }

    /// Always false: the test's outcome is discarded.
    pub fn is_some(self) -> (r: bool)
        ensures
            !r,
    {
        if self.0.is_some() && self.1.is_some() && self.2.is_some() {
        }
        false
    }

    /// The tile's terrain as a tile type, else its mineral; the other slots stay `None`.
    pub fn to_tile_type(&mut self) -> (r: (Option<TileType>, Option<TileType>, Option<TileType>))
        requires
            old(self).0 is Some || old(self).1 is Some,
        ensures
            *final(self) == *old(self),
            old(self).0 matches Some(t) ==> r == (Some(TileType::TerrainType(t)), None::<TileType>, None::<TileType>),
            old(self).0 is None ==> (old(self).1 matches Some(m) && r == (None::<TileType>, Some(
                TileType::Mineral(m.0),
            ), None::<TileType>)),
    {
        match (self.0, self.1) {
            (Some(terrain), _) => (Some(TileType::TerrainType(terrain)), None, None),
            (_, Some(mineral)) => (None, Some(TileType::Mineral(mineral.0)), None),
            (None, None) => {
                proof {
                    assert(false);
                }
                (None, None, None)
            },
        }
    }

    /// The terrain layer, else the tile itself as the error.
    pub fn get_terrain(self) -> (r: Result<TerrainType, Tile>)
        ensures
            r == (match self.0 {
                Some(t) => Ok(t),
                None => Err(self),
            }),
    {
        match self.0 {
            Some(terrain) => Ok(terrain),
            _ => Err(self),
        }
    }

    /// The mineral layer, else the tile itself as the error.
    pub fn get_mineral(self) -> (r: Result<Mineral, Tile>)
        ensures
            r == (match self.1 {
                Some(m) => Ok(m),
                None => Err(self),
            }),
    {
        match self.1 {
            Some(mineral) => Ok(mineral),
            _ => Err(self),
        }
    }

    /// The type of the tile's mineral, which must be there.
    pub fn get_mineral_type(self) -> (r: Result<MineralType, Tile>)
        requires
            self.1 is Some,
        ensures
            r == Ok::<MineralType, Tile>(self.1.unwrap().0),
    {
        match self.1 {
            Some(mineral) => Ok(mineral.0),
            None => {
                proof {
                    assert(false);
                }
                Err(self)
            },
        }
    }

    /// The building layer, else the tile itself as the error.
    pub fn get_buildable(self) -> (r: Result<Buildable<RaceType>, Tile>)
        ensures
            r == (match self.2 {
                Some(b) => Ok(b),
                None => Err(self),
            }),
    {
        match self.2 {
            Some(buildable) => Ok(buildable),
            _ => Err(self),
        }
    }

    /// The tile's building, which must be there.
    pub fn buildings(self) -> (r: Buildable<RaceType>)
        requires
            self.2 is Some,
        ensures
            Some(r) == self.2,
    {
        self.2.unwrap()
    }

    /// The mineral layer.
    pub fn get_minerals(self) -> (r: Option<Mineral>)
        ensures
            r == self.1,
    {
        self.1
    }

    /// The building layer.
    pub fn get_buildings(self) -> (r: Option<Buildable<RaceType>>)
        ensures
            r == self.2,
    {
        self.2
    }

    /// Sets the layer of `tile_type` and returns the updated tile.
    pub fn set_single(&mut self, tile_type: TileType) -> (r: Tile)
        ensures
            *final(self) == with_layer(*old(self), tile_type),
            r == *final(self),
    {
        match tile_type {
            TileType::TerrainType(terrain_type) => {
                self.0 = Some(terrain_type);
            },
            TileType::Mineral(mineral_type) => {
                self.1 = Some(Mineral(mineral_type));
            },
            TileType::Building(buildable) => {
                self.2 = Some(buildable);
            },
        }
        *self
    }

    /// Same as `set_single`.
    pub fn add_single(&mut self, tile_type: TileType) -> (r: Tile)
        ensures
            *final(self) == with_layer(*old(self), tile_type),
            r == *final(self),
    {
        self.set_single(tile_type)
    }

    /// Counts the 8 tiles of `map` around `(x, y)` that hold a mineral `tile` has;
    /// the neighbors' indices wrap around at the ends of `usize`, so away from
    /// those ends the count is the plain one.
    pub fn count_like_in(map: &TileMap, tile: Tile, x: usize, y: usize) -> (r: usize)
        ensures
            r == count_like_around(map.grid(), tile, x, y),
            0 < x < usize::MAX && 0 < y < usize::MAX ==> r == count_like(map.grid(), tile, x as int, y as int),
    {
        let xd = if x == 0 { usize::MAX } else { x - 1 };
        let xu = if x == usize::MAX { 0 } else { x + 1 };
        let yd = if y == 0 { usize::MAX } else { y - 1 };
        let yu = if y == usize::MAX { 0 } else { y + 1 };
        let mut count: usize = 0;
        count = count + like_count(map, tile, xd, yd);
        count = count + like_count(map, tile, xd, y);
        count = count + like_count(map, tile, xd, yu);
        count = count + like_count(map, tile, x, yd);
        count = count + like_count(map, tile, x, yu);
        count = count + like_count(map, tile, xu, yd);
        count = count + like_count(map, tile, xu, y);
        count = count + like_count(map, tile, xu, yu);
        count
    }

    /// Counts the 8 tiles around `(x, y)` that hold a mineral `tile` has (see
    /// `count_like_in`).
    pub fn count_neighbors(&mut self, map: TileMap, tile: Tile, x: usize, y: usize) -> (r: usize)
        ensures
            *final(self) == *old(self),
            r == count_like_around(map.grid(), tile, x, y),
            0 < x < usize::MAX && 0 < y < usize::MAX ==> r == count_like(map.grid(), tile, x as int, y as int),
    {
        Tile::count_like_in(&map, tile, x, y)
    }

    /// Fills the first empty layer of a copy of the tile, which is then dropped.
    pub fn add(self, add: Tile) {
        let mut t = self;
        match t {
            Tile(None, _, _) => t.0 = add.0,
            Tile(_, None, _) => t.1 = add.1,
            Tile(_, _, None) => t.2 = add.2,
            _ => {},
        };
    }
}

} // verus!
