use vstd::prelude::*;

use super::tile::minerals::MineralType;
use super::tile::terrain::TerrainType;
use super::tile::{count_like, tile_type_named, with_layer, Tile, TileType};
use super::{air, grid_check, TileMap, HEIGHT, WIDTH};

verus! {

/// Cellular automaton rules that shape a mineral's caves.
pub struct Automaton {
    /// The mineral these rules generate.
    pub mineral_type: MineralType,
    /// Tile types this mineral can replace.
    pub can_replace: Vec<TileType>,
    /// Maximum air neighbors for a tile to appear.
    pub max_air_exposure: usize,
    /// Minimum neighbors for a tile to be created.
    pub birth_limit: usize,
    /// Minimum neighbors for a tile to survive.
    pub death_limit: usize,
    /// How many times the rules are applied.
    pub iterations: usize,
    /// Generation runs only for enabled minerals.
    pub enable: bool,
}

/// The tile at `(x, y)` after one pass of the rules over grid `g`: inner tiles
/// with too few like neighbors, and air tiles with few air and many like
/// neighbors, get air as terrain.
pub open spec fn step_cell(g: Seq<Seq<Tile>>, death: int, birth: int, max_air: int, x: int, y: int) -> Tile {
    let t = g[x][y];
    if 1 <= x < WIDTH && 1 <= y < HEIGHT {
        let same = count_like(g, t, x, y);
        let airs = count_like(g, Tile(Some(TerrainType::AIR), t.1, t.2), x, y);
        if same < death || (t == air() && airs <= max_air && same > birth) {
            with_layer(t, TileType::TerrainType(TerrainType::AIR))
        } else {
            t
        }
    } else {
        t
    }
}

/// One pass of the rules over the whole grid.
pub open spec fn step_grid(g: Seq<Seq<Tile>>, death: int, birth: int, max_air: int) -> Seq<Seq<Tile>> {
    Seq::new(g.len(), |x: int| Seq::new(g[x].len(), |y: int| step_cell(g, death, birth, max_air, x, y)))
}

/// `k` passes of the rules.
pub open spec fn iterate(g: Seq<Seq<Tile>>, death: int, birth: int, max_air: int, k: nat) -> Seq<Seq<Tile>>
    decreases k,
{
    if k == 0 {
        g
    } else {
        step_grid(iterate(g, death, birth, max_air, (k - 1) as nat), death, birth, max_air)
    }
}

/// The rules can run on `g`: it is `HEIGHT x WIDTH` and holds every inner cell.
pub open spec fn rules_apply(g: Seq<Seq<Tile>>) -> bool {
    &&& g.len() == HEIGHT
    &&& forall|x: int| 0 <= x < HEIGHT ==> (#[trigger] g[x]).len() == WIDTH
    &&& forall|x: int, y: int| 1 <= x < WIDTH && 1 <= y < HEIGHT ==> #[trigger] grid_check(g, x, y)
}

/// A pass keeps the rules applicable.
pub proof fn lemma_step_keeps_rules(g: Seq<Seq<Tile>>, death: int, birth: int, max_air: int)
    requires
        rules_apply(g),
    ensures
        rules_apply(step_grid(g, death, birth, max_air)),
{
    let h = step_grid(g, death, birth, max_air);
    assert forall|x: int, y: int| 1 <= x < WIDTH && 1 <= y < HEIGHT implies #[trigger] grid_check(h, x, y) by {
        assert(grid_check(g, x, y));
    }
}

impl Automaton {
    /// Rules for `mineral_type` read from its settings; every name in
    /// `can_replace` must name a tile type.
    pub fn new(
        mineral_type: MineralType,
        can_replace: &Vec<String>,
        enable: bool,
        birth_limit: usize,
        death_limit: usize,
        max_air_exposure: usize,
        iterations: usize,
    ) -> (r: Automaton)
        requires
            forall|i: int| 0 <= i < can_replace@.len() ==> tile_type_named((#[trigger] can_replace@[i])@) is Some,
        ensures
            r.mineral_type == mineral_type,
            r.can_replace@.len() == can_replace@.len(),
            forall|i: int| 0 <= i < can_replace@.len() ==> Some(#[trigger] r.can_replace@[i]) == tile_type_named(
                can_replace@[i]@,
            ),
            r.enable == enable,
            r.birth_limit == birth_limit,
            r.death_limit == death_limit,
            r.max_air_exposure == max_air_exposure,
            r.iterations == iterations,
    {
        let mut v: Vec<TileType> = Vec::new();
        let n = can_replace.len();
        let mut i: usize = 0;
        while i < n
            invariant
                n == can_replace@.len(),
                i <= n,
                v@.len() == i,
                forall|k: int| 0 <= k < n ==> tile_type_named((#[trigger] can_replace@[k])@) is Some,
                forall|k: int| 0 <= k < i ==> Some(#[trigger] v@[k]) == tile_type_named(can_replace@[k]@),
            decreases n - i,
        {
            match TileType::from_str(can_replace[i].as_str()) {
                Ok(t) => v.push(t),
                Err(_) => {
                    proof {
                        assert(tile_type_named(can_replace@[i as int]@) is Some);
                    }
                    v.push(TileType::TerrainType(TerrainType::AIR));
                },
            }
            i = i + 1;
        }
        Automaton {
            mineral_type,
            can_replace: v,
            enable,
            birth_limit,
            death_limit,
            max_air_exposure,
            iterations,
        }
    }

    /// Applies the rules `iterations` times; each pass reads the whole previous grid.
    pub fn apply_rules(&self, map: &mut TileMap)
        requires
            rules_apply(old(map).grid()),
        ensures
            rules_apply(final(map).grid()),
            final(map).grid() == iterate(
                old(map).grid(),
                self.death_limit as int,
                self.birth_limit as int,
                self.max_air_exposure as int,
                self.iterations as nat,
            ),
    {
        let ghost (d, b, ma) = (self.death_limit as int, self.birth_limit as int, self.max_air_exposure as int);
        let mut it: usize = 0;
        while it < self.iterations
            invariant
                d == self.death_limit,
                b == self.birth_limit,
                ma == self.max_air_exposure,
                it <= self.iterations,
                rules_apply(map.grid()),
                map.grid() == iterate(old(map).grid(), d, b, ma, it as nat),
            decreases self.iterations - it,
        {
            let ghost g = map.grid();
            let mut new_data = map.copy();
            let mut x: usize = 1;
            while x < WIDTH
                invariant
                    d == self.death_limit,
                    b == self.birth_limit,
                    ma == self.max_air_exposure,
                    g == map.grid(),
                    rules_apply(g),
                    1 <= x <= WIDTH,
                    new_data.grid().len() == g.len(),
                    forall|i: int| 0 <= i < g.len() ==> (#[trigger] new_data.grid()[i]).len() == g[i].len(),
                    forall|i: int, j: int| 0 <= i < g.len() && 0 <= j < g[i].len() ==> #[trigger] new_data.grid()[i][j] == (if i < x {
                        step_cell(g, d, b, ma, i, j)
                    } else {
                        g[i][j]
                    }),
                decreases WIDTH - x,
            {
                let mut y: usize = 1;
                while y < HEIGHT
                    invariant
                        d == self.death_limit,
                        b == self.birth_limit,
                        ma == self.max_air_exposure,
                        g == map.grid(),
                        rules_apply(g),
                        1 <= x < WIDTH,
                        1 <= y <= HEIGHT,
                        new_data.grid().len() == g.len(),
                        forall|i: int| 0 <= i < g.len() ==> (#[trigger] new_data.grid()[i]).len() == g[i].len(),
                        forall|i: int, j: int| 0 <= i < g.len() && 0 <= j < g[i].len() ==> #[trigger] new_data.grid()[i][j] == (if i < x || (i == x && (j < y || j == 0)) {
                            step_cell(g, d, b, ma, i, j)
                        } else {
                            g[i][j]
                        }),
                    decreases HEIGHT - y,
                {
                    proof {
                        assert(grid_check(g, x as int, y as int));
                        new_data.lemma_grid();
                        map.lemma_grid();
                        assert(new_data.grid()[x as int].len() == g[x as int].len());
                    }
                    let ghost before = new_data.grid();
                    match map.get_tile(x, y) {
                        Ok((tile, _)) => {
                            assert(tile == g[x as int][y as int]);
                            assert(before[x as int][y as int] == g[x as int][y as int]);
                            let count_same = Tile::count_like_in(map, tile, x, y);
                            let count_air = Tile::count_like_in(
                                map,
                                Tile(Some(TerrainType::AIR), tile.1, tile.2),
                                x,
                                y,
                            );
                            assert(count_same == count_like(g, g[x as int][y as int], x as int, y as int));
                            if count_same < self.death_limit {
                                let mut t = tile;
                                t.set_single(TileType::TerrainType(TerrainType::AIR));
                                assert(t == step_cell(g, d, b, ma, x as int, y as int));
                                new_data.set_cell(x, y, t);
                                assert(new_data.cell(x as int, y as int) == t);
                            } else if tile == Tile(Some(TerrainType::AIR), None, None) && count_air
                                <= self.max_air_exposure {
                                if count_same > self.birth_limit {
                                    let mut t = tile;
                                    t.set_single(TileType::TerrainType(TerrainType::AIR));
                                    new_data.set_cell(x, y, t);
                                }
                            }
                        },
                        Err(_) => {
                            proof {
                                assert(false);
                            }
                        },
                    }
                    proof {
                        new_data.lemma_grid();
                        assert forall|i: int| 0 <= i < g.len() implies (#[trigger] new_data.grid()[i]).len() == g[i].len() by {
                            assert(new_data.grid()[i].len() == before[i].len());
                        }
                        assert(new_data.grid()[x as int][y as int] == step_cell(g, d, b, ma, x as int, y as int));
                        assert forall|i: int, j: int| 0 <= i < g.len() && 0 <= j < g[i].len() && !(i == x && j == y) implies #[trigger] new_data.grid()[i][j] == before[i][j] by {
                            assert(new_data.cell(i, j) == new_data.grid()[i][j]);
                        }
                    }
                    y = y + 1;
                }
                x = x + 1;
            }
            proof {
                assert forall|i: int| 0 <= i < g.len() implies #[trigger] new_data.grid()[i] =~= step_grid(g, d, b, ma)[i] by {
                }
                assert(new_data.grid() =~= step_grid(g, d, b, ma));
                lemma_step_keeps_rules(g, d, b, ma);
            }
            map.data = new_data.data;
            it = it + 1;
        }
    }
}

} // verus!
