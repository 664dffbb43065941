use vstd::prelude::*;

pub mod automaton;
pub mod caves;
pub mod generation;
pub mod search;
pub mod settings;
pub mod tile;

use crate::coords::Coords;
use tile::terrain::TerrainType;
use tile::buildings::{Buildable, Building, Content, Hearth, Stockpile};
use tile::minerals::MineralType;
use tile::{with_layer, Tile, TileType};
use crate::game::units::pathfinding::{tile_diggable, tile_walkable};
use crate::game::units::{start_of, RaceType, HOME_STARTING_SIZE};

verus! {

/// Rows of the map.
pub const HEIGHT: usize = 100;
/// Tiles in a row of the map.
pub const WIDTH: usize = HEIGHT;

/// A small grid index read back from the `i32` it was stored in is the same index.
pub proof fn lemma_small_index(x: i32)
    requires
        (x as usize) < 1000,
    ensures
        0 <= x < 1000,
        (x as usize) as int == x as int,
{
    assert((x as usize) < 1000 ==> 0 <= x && x < 1000) by (bit_vector);
}

/// The tile of plain air.
pub open spec fn air() -> Tile {
    Tile(Some(TerrainType::AIR), None, None)
}

/// The tile of plain water.
pub open spec fn water() -> Tile {
    Tile(Some(TerrainType::WATER), None, None)
}

/// The two-dimensional grid of tiles, indexed `data[x][y]`.
pub struct TileMap {
    pub data: Vec<Vec<Tile>>,
}

/// `(x, y)` indexes a cell of `data`.
pub open spec fn in_grid(data: Seq<Vec<Tile>>, x: int, y: int) -> bool {
    0 <= x < data.len() && 0 <= y < data[x]@.len()
}

/// Both grids have the same shape.
pub open spec fn same_shape(a: Seq<Vec<Tile>>, b: Seq<Vec<Tile>>) -> bool {
    &&& a.len() == b.len()
    &&& forall|x: int| 0 <= x < a.len() ==> (#[trigger] a[x])@.len() == b[x]@.len()
}

/// `(i, j)` lies in the closed disk of radius `r` around `c`.
pub open spec fn in_disk(c: Coords, r: int, i: int, j: int) -> bool {
    (i - c.0) * (i - c.0) + (j - c.1) * (j - c.1) <= r * r
}

/// A point of the disk lies in its bounding square.
pub proof fn lemma_disk_in_square(c: Coords, r: int, i: int, j: int)
    requires
        r >= 0,
        in_disk(c, r, i, j),
    ensures
        c.0 - r <= i <= c.0 + r,
        c.1 - r <= j <= c.1 + r,
{
    let a = i - c.0;
    let b = j - c.1;
    assert(a * a <= r * r) by (nonlinear_arith)
        requires
            a * a + b * b <= r * r,
    ;
    assert(b * b <= r * r) by (nonlinear_arith)
        requires
            a * a + b * b <= r * r,
    ;
    assert(-r <= a <= r) by (nonlinear_arith)
        requires
            a * a <= r * r,
            r >= 0,
    ;
    assert(-r <= b <= r) by (nonlinear_arith)
        requires
            b * b <= r * r,
            r >= 0,
    ;
}

/// Digging a disk around `c` neither overflows nor panics.
pub open spec fn dig_radius_ok(c: Coords, radius: u32) -> bool {
    &&& 2 * radius * radius <= i32::MAX
    &&& i32::MIN <= c.0 - radius
    &&& c.0 + radius <= i32::MAX
    &&& i32::MIN <= c.1 - radius
    &&& c.1 + radius <= i32::MAX
}

/// The index `Coords` components address, each reinterpreted as a `usize`.
pub open spec fn ix(c: i32) -> int {
    c as usize as int
}

/// The hearth a race's starting zone gets.
pub open spec fn hearth_tile(race: RaceType) -> Tile {
    Tile(Some(TerrainType::AIR), None, Some(Buildable::Hearth(Hearth { race_type: race, hp: 100 })))
}

/// An empty stockpile of `m` standing on air.
pub open spec fn stockpile_tile(m: MineralType) -> Tile {
    Tile(Some(TerrainType::AIR), None, Some(Buildable::Stockpile(Stockpile { mineral_type: m, content: Content(0, 0) })))
}

/// The four stockpiles of a starting zone: their offsets from the hearth and minerals.
pub open spec fn stockpile_at(s: Coords, i: int, j: int) -> Option<MineralType> {
    if i == s.0 && j == s.1 + 5 {
        Some(MineralType::MOSS)
    } else if i == s.0 + 5 && j == s.1 {
        Some(MineralType::ROCK)
    } else if i == s.0 && j == s.1 - 5 {
        Some(MineralType::DIRT)
    } else if i == s.0 - 5 && j == s.1 {
        Some(MineralType::GOLD)
    } else {
        None
    }
}

/// `(x, y)` is a cell of grid `g`, whatever it holds.
pub open spec fn grid_check(g: Seq<Seq<Tile>>, x: int, y: int) -> bool {
    0 <= x < g.len() && 0 <= y < g[x].len()
}

impl View for TileMap {
    type V = Seq<Seq<Tile>>;

    /// The tiles of the map, row by row.
    open spec fn view(&self) -> Seq<Seq<Tile>> {
        self.grid()
    }
}

impl TileMap {
    /// The tiles of the map, row by row.
    pub open spec fn grid(&self) -> Seq<Seq<Tile>> {
        self.data@.map_values(|row: Vec<Tile>| row@)
    }

    /// A cell exists exactly when the grid says so, and holds the grid's tile.
    pub proof fn lemma_view(&self)
        ensures
            self@.len() == self.data@.len(),
            forall|x: int| 0 <= x < self.data@.len() ==> #[trigger] self@[x] == self.data@[x]@,
            forall|x: int, y: int| #[trigger] self.spec_check(x, y) == grid_check(self@, x, y),
            forall|x: int, y: int| in_grid(self.data@, x, y) ==> #[trigger] self.cell(x, y) == self@[x][y],
    {
    }

    /// The grid's rows are the rows of `data`.
    pub proof fn lemma_grid(&self)
        ensures
            self.grid().len() == self.data@.len(),
            forall|i: int| 0 <= i < self.data@.len() ==> #[trigger] self.grid()[i] == self.data@[i]@,
    {
    }

    /// An identical copy of the map.
    pub fn copy(&self) -> (r: TileMap)
        ensures
            r.grid() == self.grid(),
            same_shape(r.data@, self.data@),
    {
        let mut data: Vec<Vec<Tile>> = Vec::new();
        let n = self.data.len();
        let mut i: usize = 0;
        while i < n
            invariant
                n == self.data@.len(),
                i <= n,
                data@.len() == i,
                forall|x: int| 0 <= x < i ==> (#[trigger] data@[x])@ == self.data@[x]@,
            decreases n - i,
        {
            let m = self.data[i].len();
            let mut row: Vec<Tile> = Vec::new();
            let mut j: usize = 0;
            while j < m
                invariant
                    n == self.data@.len(),
                    i < n,
                    m == self.data@[i as int]@.len(),
                    j <= m,
                    row@ == self.data@[i as int]@.subrange(0, j as int),
                decreases m - j,
            {
                row.push(self.data[i][j]);
                j = j + 1;
            }
            assert(row@ =~= self.data@[i as int]@);
            data.push(row);
            i = i + 1;
        }
        let r = TileMap { data };
        assert(r.grid() =~= self.grid());
        r
    }

    /// Tile at `(x, y)` of the grid.
    pub open spec fn cell(&self, x: int, y: int) -> Tile {
        self.data@[x]@[y]
    }

    /// `(x, y)` is inside the map, whatever its tile holds.
    pub open spec fn spec_check(&self, x: int, y: int) -> bool {
        in_grid(self.data@, x, y)
    }

    /// The grid has at most `HEIGHT` rows of at most `WIDTH` tiles each, all
    /// within the area a breadth-first search marks.
    pub open spec fn fits_search(&self) -> bool {
        &&& self.data@.len() <= HEIGHT
        &&& forall|x: int| 0 <= x < self.data@.len() ==> (#[trigger] self.data@[x])@.len() <= WIDTH
    }

    /// The grid is `HEIGHT` rows of `WIDTH` tiles.
    pub open spec fn full_size(&self) -> bool {
        &&& self.data@.len() == HEIGHT
        &&& forall|x: int| 0 <= x < HEIGHT ==> (#[trigger] self.data@[x])@.len() == WIDTH
    }

    /// A map full of air.
    pub fn new() -> (r: TileMap)
        ensures
            r.full_size(),
            forall|x: int, y: int| 0 <= x < HEIGHT && 0 <= y < WIDTH ==> #[trigger] r.cell(x, y) == air(),
    {
        let mut data: Vec<Vec<Tile>> = Vec::new();
        let mut i: usize = 0;
        while i < HEIGHT
            invariant
                i <= HEIGHT,
                data@.len() == i,
                forall|x: int| 0 <= x < i ==> (#[trigger] data@[x])@.len() == WIDTH,
                forall|x: int, y: int| 0 <= x < i && 0 <= y < WIDTH ==> #[trigger] data@[x]@[y] == air(),
            decreases HEIGHT - i,
        {
            let mut row: Vec<Tile> = Vec::new();
            let mut j: usize = 0;
            while j < WIDTH
                invariant
                    j <= WIDTH,
                    row@.len() == j,
                    forall|y: int| 0 <= y < j ==> #[trigger] row@[y] == air(),
                decreases WIDTH - j,
            {
                row.push(Tile(Some(TerrainType::AIR), None, None));
                j = j + 1;
            }
            data.push(row);
            i = i + 1;
        }
        TileMap { data }
    }

    /// Replaces the tile at `(x, y)`.
    pub fn set_cell(&mut self, x: usize, y: usize, t: Tile)
        requires
            in_grid(old(self).data@, x as int, y as int),
        ensures
            same_shape(final(self).data@, old(self).data@),
            forall|i: int, j: int| in_grid(old(self).data@, i, j) ==> #[trigger] final(self).cell(i, j) == (if i == x && j == y {
                t
            } else {
                old(self).cell(i, j)
            }),
    {
        self.data[x].set(y, t);
    }

    /// True when `(x, y)` lies within the map, whatever its tile holds.
    pub fn check_data(&self, x: usize, y: usize) -> (r: bool)
        ensures
            r == (x < self.data@.len() && y < self.data@[x as int]@.len()),
            r == self.spec_check(x as int, y as int),
    {
        x < self.data.len() && y < self.data[x].len()
    }

    /// The tile at `(x, y)` with its coordinates, or the coordinates when there is none.
    pub fn get_tile(&self, x: usize, y: usize) -> (r: Result<(Tile, Coords), Coords>)
        ensures
            self.spec_check(x as int, y as int) ==> r == Ok::<(Tile, Coords), Coords>(
                (self.cell(x as int, y as int), Coords(x as i32, y as i32)),
            ),
            !self.spec_check(x as int, y as int) ==> r == Err::<(Tile, Coords), Coords>(Coords(x as i32, y as i32)),
    {
        if self.check_data(x, y) {
            Ok((self.data[x][y], Coords(x as i32, y as i32)))
        } else {
            Err(Coords(x as i32, y as i32))
        }
    }

    /// `new` is `old` with every tile of the disk of radius `r` around `c` that
    /// lies in the map replaced by air.
    pub open spec fn spec_dug(old: &TileMap, new: &TileMap, c: Coords, r: int) -> bool {
        &&& same_shape(new.data@, old.data@)
        &&& forall|i: int, j: int| in_grid(old.data@, i, j) ==> #[trigger] new.cell(i, j) == (if in_disk(c, r, i, j)
            && old.spec_check(i, j) {
            air()
        } else {
            old.cell(i, j)
        })
    }

    /// Digging the same disk twice leaves the map as digging it once.
    pub proof fn law_dig_twice(m0: &TileMap, m1: &TileMap, m2: &TileMap, c: Coords, r: int)
        requires
            TileMap::spec_dug(m0, m1, c, r),
            TileMap::spec_dug(m1, m2, c, r),
        ensures
            same_shape(m2.data@, m1.data@),
            forall|i: int, j: int| in_grid(m1.data@, i, j) ==> #[trigger] m2.cell(i, j) == m1.cell(i, j),
    {
        assert forall|i: int, j: int| in_grid(m1.data@, i, j) implies #[trigger] m2.cell(i, j) == m1.cell(i, j) by {
            assert(in_grid(m0.data@, i, j));
        }
    }

    /// `new` is `old` with the tile at `(x, y)` replaced by `t`.
    pub open spec fn spec_set(old: &TileMap, new: &TileMap, x: int, y: int, t: Tile) -> bool {
        &&& same_shape(new.data@, old.data@)
        &&& forall|i: int, j: int| in_grid(old.data@, i, j) ==> #[trigger] new.cell(i, j) == (if i == x && j == y {
            t
        } else {
            old.cell(i, j)
        })
    }

    /// Reading a tile back after setting it gives the tile that was set; no
    /// other cell changes.
    pub proof fn law_set_then_get_tile(m0: &TileMap, m1: &TileMap, x: int, y: int, t: Tile)
        requires
            m0.spec_check(x, y),
            TileMap::spec_set(m0, m1, x, y, t),
        ensures
            m1.spec_check(x, y),
            m1.cell(x, y) == t,
            forall|i: int, j: int| (i != x || j != y) ==> #[trigger] m1.spec_check(i, j) == m0.spec_check(i, j),
            forall|i: int, j: int| (i != x || j != y) && m0.spec_check(i, j) ==> #[trigger] m1.cell(i, j) == m0.cell(i, j),
    {
        assert(m1.cell(x, y) == t);
        assert forall|i: int, j: int| (i != x || j != y) implies #[trigger] m1.spec_check(i, j) == m0.spec_check(i, j) by {
            if in_grid(m0.data@, i, j) {
                assert(m1.cell(i, j) == m0.cell(i, j));
            }
        }
    }

    /// Sets the tile at `coords` when it lies in the map; the new tile is handed back.
    pub fn set_tile(&mut self, coords: Coords, tile: Option<Tile>) -> (r: Result<Tile, Coords>)
        ensures
            same_shape(final(self).data@, old(self).data@),
            (tile is Some && old(self).spec_check(ix(coords.0), ix(coords.1))) ==> {
                &&& r == Ok::<Tile, Coords>(tile.unwrap())
                &&& TileMap::spec_set(old(self), final(self), ix(coords.0), ix(coords.1), tile.unwrap())
            },
            !(tile is Some && old(self).spec_check(ix(coords.0), ix(coords.1))) ==> {
                &&& r == Err::<Tile, Coords>(coords)
                &&& final(self).data@ == old(self).data@
            },
    {
        if tile.is_some() && self.get_tile_from_coords(coords).is_ok() {
            let t = tile.unwrap();
            self.set_cell(coords.0 as usize, coords.1 as usize, t);
            Ok(t)
        } else {
            Err(coords)
        }
    }

    /// Replaces the tile at `coords` with air; the dug tile is handed back.
    pub fn dig_cell(&mut self, coords: Coords) -> (r: Result<Tile, Coords>)
        ensures
            same_shape(final(self).data@, old(self).data@),
            old(self).spec_check(ix(coords.0), ix(coords.1)) ==> {
                &&& r == Ok::<Tile, Coords>(old(self).cell(ix(coords.0), ix(coords.1)))
                &&& forall|i: int, j: int| in_grid(old(self).data@, i, j) ==> #[trigger] final(self).cell(i, j) == (if i
                    == ix(coords.0) && j == ix(coords.1) {
                    air()
                } else {
                    old(self).cell(i, j)
                })
            },
            !old(self).spec_check(ix(coords.0), ix(coords.1)) ==> r == Err::<Tile, Coords>(coords)
                && final(self).data@ == old(self).data@,
    {
        if let Ok((tile, _)) = self.get_tile_from_coords(coords) {
            self.set_cell(coords.0 as usize, coords.1 as usize, Tile(Some(TerrainType::AIR), None, None));
            Ok(tile)
        } else {
            Err(coords)
        }
    }

    /// True when the tile at `coords` exists and is walkable.
    pub fn is_walkable(&self, coords: Coords) -> (r: bool)
        ensures
            r == (self.spec_check(ix(coords.0), ix(coords.1)) && tile_walkable(self.cell(ix(coords.0), ix(coords.1)))),
    {
        if let Ok((tile, _)) = self.get_tile_from_coords(coords) {
            tile.is_walkable()
        } else {
            false
        }
    }

    /// True when the tile at `(x, y)` exists and is diggable.
    pub fn is_diggable(&mut self, x: usize, y: usize) -> (r: bool)
        ensures
            final(self).data@ == old(self).data@,
            r == (old(self).spec_check(x as int, y as int) && tile_diggable(old(self).cell(x as int, y as int))),
    {
        if let Ok((tile, _)) = self.get_tile(x, y) {
            tile.is_diggable()
        } else {
            false
        }
    }

    /// Digs the disk of radius `radius` around `center`: every tile of it that
    /// lies in the map becomes air.
    pub fn dig_radius(&mut self, center: &Coords, radius: u32) -> (r: Result<(), Coords>)
        requires
            dig_radius_ok(*center, radius),
        ensures
            r is Ok,
            TileMap::spec_dug(old(self), final(self), *center, radius as int),
    {
        let (cx, cy) = (center.0 as i64, center.1 as i64);
        let rr = radius as i64;
        assert(radius * radius <= 0x4000_0000 && radius <= 0x8000) by (nonlinear_arith)
            requires
                2 * radius * radius <= i32::MAX,
        ;
        let radius_squared = rr * rr;
        let ghost c = *center;
        let ghost r = radius as int;
        proof {
            assert forall|i: int, j: int| in_grid(old(self).data@, i, j) implies #[trigger] self.cell(i, j) == (if j < cy - rr
                && in_disk(c, r, i, j) && old(self).spec_check(i, j) {
                air()
            } else {
                old(self).cell(i, j)
            }) by {
                if in_disk(c, r, i, j) {
                    lemma_disk_in_square(c, r, i, j);
                }
            }
        }
        let mut y: i64 = cy - rr;
        while y <= cy + rr
            invariant
                cx == c.0,
                cy == c.1,
                rr == r,
                r == radius as int,
                r <= 0x8000,
                radius_squared == r * r,
                dig_radius_ok(c, radius),
                cy - rr <= y <= cy + rr + 1,
                same_shape(self.data@, old(self).data@),
                forall|i: int, j: int| in_grid(old(self).data@, i, j) ==> #[trigger] self.cell(i, j) == (if j < y
                    && in_disk(c, r, i, j) && old(self).spec_check(i, j) {
                    air()
                } else {
                    old(self).cell(i, j)
                }),
            decreases cy + rr + 1 - y,
        {
            let mut x: i64 = cx - rr;
            proof {
                assert forall|i: int, j: int| in_grid(old(self).data@, i, j) implies #[trigger] self.cell(i, j) == (if (j < y
                    || (j == y && i < x)) && in_disk(c, r, i, j) && old(self).spec_check(i, j) {
                    air()
                } else {
                    old(self).cell(i, j)
                }) by {
                    if in_disk(c, r, i, j) {
                        lemma_disk_in_square(c, r, i, j);
                    }
                }
            }
            while x <= cx + rr
                invariant
                    cx == c.0,
                    cy == c.1,
                    rr == r,
                    r == radius as int,
                    r <= 0x8000,
                    radius_squared == r * r,
                    dig_radius_ok(c, radius),
                    cy - rr <= y <= cy + rr,
                    cx - rr <= x <= cx + rr + 1,
                    same_shape(self.data@, old(self).data@),
                    forall|i: int, j: int| in_grid(old(self).data@, i, j) ==> #[trigger] self.cell(i, j) == (if (j
                        < y || (j == y && i < x)) && in_disk(c, r, i, j) && old(self).spec_check(i, j) {
                        air()
                    } else {
                        old(self).cell(i, j)
                    }),
                decreases cx + rr + 1 - x,
            {
                let dx = x - cx;
                let dy = y - cy;
                assert(dx * dx <= r * r && dy * dy <= r * r) by (nonlinear_arith)
                    requires
                        -r <= dx <= r,
                        -r <= dy <= r,
                ;
                assert(0 <= dx * dx <= 0x4000_0000 && 0 <= dy * dy <= 0x4000_0000) by (nonlinear_arith)
                    requires
                        -r <= dx <= r,
                        -r <= dy <= r,
                        r <= 0x8000,
                ;
                if dx * dx + dy * dy <= radius_squared {
                    if x >= 0 && y >= 0 && (x as u64) <= (usize::MAX as u64) && (y as u64) <= (usize::MAX as u64) {
                        if self.check_data(x as usize, y as usize) {
                            self.set_cell(x as usize, y as usize, Tile(Some(TerrainType::AIR), None, None));
                        }
                    }
                }
                x = x + 1;
            }
            proof {
                assert forall|i: int, j: int| in_grid(old(self).data@, i, j) implies #[trigger] self.cell(i, j) == (if j < y
                    + 1 && in_disk(c, r, i, j) && old(self).spec_check(i, j) {
                    air()
                } else {
                    old(self).cell(i, j)
                }) by {
                    if in_disk(c, r, i, j) {
                        lemma_disk_in_square(c, r, i, j);
                    }
                }
            }
            y = y + 1;
        }
        proof {
            assert forall|i: int, j: int| in_grid(old(self).data@, i, j) implies #[trigger] self.cell(i, j) == (if in_disk(
                c,
                r,
                i,
                j,
            ) && old(self).spec_check(i, j) {
                air()
            } else {
                old(self).cell(i, j)
            }) by {
                if in_disk(c, r, i, j) {
                    lemma_disk_in_square(c, r, i, j);
                }
            }
        }
        Ok(())
    }

    /// Adds `building` to the tile at its coordinates, which must lie in the map;
    /// the updated tile is handed back with its coordinates.
    pub fn build(&mut self, building: Building<Buildable<RaceType>>) -> (r: Result<(Tile, Coords), Coords>)
        requires
            old(self).spec_check(ix(building.coords.0), ix(building.coords.1)),
        ensures
            same_shape(final(self).data@, old(self).data@),
            forall|i: int, j: int| in_grid(old(self).data@, i, j) ==> #[trigger] final(self).cell(i, j) == (if i
                == ix(building.coords.0) && j == ix(building.coords.1) {
                with_layer(old(self).cell(i, j), TileType::Building(building.buildable))
            } else {
                old(self).cell(i, j)
            }),
            r == Ok::<(Tile, Coords), Coords>((
                with_layer(old(self).cell(ix(building.coords.0), ix(building.coords.1)), TileType::Building(building.buildable)),
                Coords(ix(building.coords.0) as i32, ix(building.coords.1) as i32),
            )),
    {
        let curr = self.get_tile_from_coords(building.coords);
        let mut curr_tile = match curr {
            Ok(t) => t,
            Err(_) => {
                proof {
                    assert(false);
                }
                (Tile(None, None, None), building.coords)
            },
        };
        let new_tile = curr_tile.0.set_single(building.to_tile_type());
        match self.set_tile(building.coords, Some(new_tile)) {
            Ok(_) => {},
            Err(c) => {
                return Err(c);
            },
        }
        self.get_tile_from_coords(building.coords)
    }

    /// Tile `(i, j)` of `old` once a race whose hearth stands at `s` has built its starting zone.
    pub open spec fn zone_cell(old: &TileMap, race: RaceType, s: Coords, i: int, j: int) -> Tile {
        if i == s.0 && j == s.1 {
            hearth_tile(race)
        } else if stockpile_at(s, i, j) is Some {
            stockpile_tile(stockpile_at(s, i, j).unwrap())
        } else if in_disk(s, HOME_STARTING_SIZE as int, i, j) && old.spec_check(i, j) {
            air()
        } else {
            old.cell(i, j)
        }
    }

    /// Digs the race's starting zone around its hearth's coordinates, then places
    /// the hearth and four empty stockpiles (moss, rock, dirt, gold) 5 tiles away
    /// from it. Fails with the hearth's coordinates, after digging, when they lie
    /// outside the map. When the hearth lies in the map its stockpiles must too:
    /// building outside the map aborts (see `build`), so it is left out.
    pub fn build_starting_zone(&mut self, race_type: RaceType) -> (r: Result<Buildable<RaceType>, Coords>)
        requires
            old(self).spec_check(start_of(race_type).0 as int, start_of(race_type).1 as int) ==> forall|i: int, j: int|
                #[trigger] stockpile_at(start_of(race_type), i, j) is Some ==> old(self).spec_check(i, j),
        ensures
            same_shape(final(self).data@, old(self).data@),
            !old(self).spec_check(start_of(race_type).0 as int, start_of(race_type).1 as int) ==> {
                &&& r == Err::<Buildable<RaceType>, Coords>(start_of(race_type))
                &&& TileMap::spec_dug(old(self), final(self), start_of(race_type), HOME_STARTING_SIZE as int)
            },
            old(self).spec_check(start_of(race_type).0 as int, start_of(race_type).1 as int) ==> {
                &&& r == Ok::<Buildable<RaceType>, Coords>(Buildable::Hearth(Hearth { race_type, hp: 100 }))
                &&& forall|i: int, j: int| in_grid(old(self).data@, i, j) ==> #[trigger] final(self).cell(i, j)
                    == TileMap::zone_cell(old(self), race_type, start_of(race_type), i, j)
            },
    {
        let ghost m0 = *self;
        let start = race_type.starting_coords();
        match self.dig_radius(&start, HOME_STARTING_SIZE) {
            Ok(_) => {},
            Err(c) => {
                return Err(c);
            },
        }
        let ghost m1 = *self;
        let hearth = Tile(
            Some(TerrainType::AIR),
            None,
            Some(Buildable::Hearth(Hearth { race_type, hp: 100 })),
        );
        let new_tile = match self.set_tile(start, Some(hearth)) {
            Ok(t) => t,
            Err(c) => {
                proof {
                    assert(!m0.spec_check(start.0 as int, start.1 as int));
                    assert(self.data@ == m1.data@);
                    assert forall|i: int, j: int| in_grid(m0.data@, i, j) implies #[trigger] self.cell(i, j) == (if in_disk(
                        start,
                        15,
                        i,
                        j,
                    ) && m0.spec_check(i, j) {
                        air()
                    } else {
                        m0.cell(i, j)
                    }) by {
                        assert(self.cell(i, j) == m1.cell(i, j));
                    }
                }
                return Err(c);
            },
        };
        proof {
            assert(m0.spec_check(start.0 as int, start.1 as int));
        }
        let moss = start + Coords(0, 5);
        let rock = start + Coords(5, 0);
        let dirt = start + Coords(0, -5);
        let gold = start + Coords(-5, 0);
        proof {
            assert(stockpile_at(start, moss.0 as int, moss.1 as int) is Some);
            assert(stockpile_at(start, rock.0 as int, rock.1 as int) is Some);
            assert(stockpile_at(start, dirt.0 as int, dirt.1 as int) is Some);
            assert(stockpile_at(start, gold.0 as int, gold.1 as int) is Some);
            assert(dirt.1 - start.1 == -5 && gold.0 - start.0 == -5);
            assert(moss.1 - start.1 == 5 && rock.0 - start.0 == 5);
            assert(moss.0 - start.0 == 0 && rock.1 - start.1 == 0 && dirt.0 - start.0 == 0 && gold.1 - start.1 == 0);
            assert((-5int) * (-5int) == 25 && 5int * 5int == 25 && 0int * 0int == 0);
            assert(in_disk(start, 15, moss.0 as int, moss.1 as int));
            assert(in_disk(start, 15, rock.0 as int, rock.1 as int));
            assert(in_disk(start, 15, dirt.0 as int, dirt.1 as int));
            assert(in_disk(start, 15, gold.0 as int, gold.1 as int));
        }
        let stockpile: Building<Buildable<RaceType>> = Building {
            buildable: Buildable::Stockpile(Stockpile { mineral_type: MineralType::MOSS, content: Content(0, 0) }),
            coords: moss,
            race_type,
        };
        match self.build(stockpile) {
            Ok(_) => {},
            Err(c) => {
                return Err(c);
            },
        }
        let stockpile: Building<Buildable<RaceType>> = Building {
            buildable: Buildable::Stockpile(Stockpile { mineral_type: MineralType::ROCK, content: Content(0, 0) }),
            coords: rock,
            race_type,
        };
        match self.build(stockpile) {
            Ok(_) => {},
            Err(c) => {
                return Err(c);
            },
        }
        let stockpile: Building<Buildable<RaceType>> = Building {
            buildable: Buildable::Stockpile(Stockpile { mineral_type: MineralType::DIRT, content: Content(0, 0) }),
            coords: dirt,
            race_type,
        };
        match self.build(stockpile) {
            Ok(_) => {},
            Err(c) => {
                return Err(c);
            },
        }
        let stockpile: Building<Buildable<RaceType>> = Building {
            buildable: Buildable::Stockpile(Stockpile { mineral_type: MineralType::GOLD, content: Content(0, 0) }),
            coords: gold,
            race_type,
        };
        match self.build(stockpile) {
            Ok(_) => {},
            Err(c) => {
                return Err(c);
            },
        }
        proof {
            assert forall|i: int, j: int| in_grid(m0.data@, i, j) implies #[trigger] self.cell(i, j)
                == TileMap::zone_cell(&m0, race_type, start, i, j) by {
            }
        }
        match new_tile.get_buildable() {
            Ok(b) => Ok(b),
            Err(_) => {
                proof {
                    assert(false);
                }
                Err(start)
            },
        }
    }

    /// The tile at `coords`, each component read as a `usize` index (see `get_tile`).
    pub fn get_tile_from_coords(&self, coords: Coords) -> (r: Result<(Tile, Coords), Coords>)
        ensures
            self.spec_check(coords.0 as usize as int, coords.1 as usize as int) ==> r == Ok::<
                (Tile, Coords),
                Coords,
            >((self.cell(coords.0 as usize as int, coords.1 as usize as int), Coords(coords.0 as usize as i32, coords.1 as usize as i32))),
            !self.spec_check(coords.0 as usize as int, coords.1 as usize as int) ==> r == Err::<
                (Tile, Coords),
                Coords,
            >(Coords(coords.0 as usize as i32, coords.1 as usize as i32)),
    {
        self.get_tile(coords.0 as usize, coords.1 as usize)
    }
}

} // verus!
