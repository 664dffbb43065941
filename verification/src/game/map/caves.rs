use vstd::prelude::*;

use super::automaton::{iterate, rules_apply, Automaton};
use super::tile::minerals::MineralType;
use super::tile::{single_tile, tile_has, Tile, TileType};
use super::{grid_check, in_grid, same_shape, TileMap, HEIGHT, WIDTH};

verus! {

/// The tile of a cell once `mineral` was seeded: a cell holding one of the
/// replaceable types, where the noise said so (`chosen`), becomes the mineral.
pub open spec fn seeded_cell(t: Tile, replace: Seq<TileType>, mineral: MineralType, chosen: bool) -> Tile {
    if chosen && exists|k: int| 0 <= k < replace.len() && tile_has(t, #[trigger] replace[k]) {
        single_tile(TileType::Mineral(mineral))
    } else {
        t
    }
}

/// Grid `g` once `mineral` was seeded on its `WIDTH x HEIGHT` cells where `mask` says so.
pub open spec fn seeded(g: Seq<Seq<Tile>>, replace: Seq<TileType>, mineral: MineralType, mask: Seq<Seq<bool>>) -> Seq<Seq<Tile>> {
    Seq::new(
        g.len(),
        |x: int|
            Seq::new(
                g[x].len(),
                |y: int|
                    if x < WIDTH && y < HEIGHT {
                        seeded_cell(g[x][y], replace, mineral, mask[x][y])
                    } else {
                        g[x][y]
                    },
            ),
    )
}

/// Every cell of the `WIDTH x HEIGHT` square lies in `g`.
pub open spec fn all_filled(g: Seq<Seq<Tile>>) -> bool {
    forall|x: int, y: int| 0 <= x < WIDTH && 0 <= y < HEIGHT ==> #[trigger] grid_check(g, x, y)
}

/// A `WIDTH x HEIGHT` mask.
pub open spec fn mask_fits(mask: Seq<Seq<bool>>) -> bool {
    &&& mask.len() == WIDTH
    &&& forall|x: int| 0 <= x < WIDTH ==> (#[trigger] mask[x]).len() == HEIGHT
}

/// The views of the rows of a mask.
pub open spec fn mask_view(mask: &Vec<Vec<bool>>) -> Seq<Seq<bool>> {
    mask@.map_values(|row: Vec<bool>| row@)
}

/// True when `t` holds one of the types in `replace`.
fn holds_any(t: Tile, replace: &Vec<TileType>) -> (r: bool)
    ensures
        r == exists|k: int| 0 <= k < replace@.len() && tile_has(t, #[trigger] replace@[k]),
{
    let n = replace.len();
    let mut i: usize = 0;
    while i < n
        invariant
            n == replace@.len(),
            i <= n,
            forall|k: int| 0 <= k < i ==> !tile_has(t, #[trigger] replace@[k]),
        decreases n - i,
    {
        if t.has(replace[i]).is_ok() {
            return true;
        }
        i = i + 1;
    }
    false
}

impl TileMap {
    /// Seeds the automaton's mineral over the map where `mask` (the noise, read
    /// below its threshold) says so, on cells holding a type it can replace,
    /// then lets its rules shape the caves. A disabled automaton does nothing.
    pub fn generate_caves(&mut self, automaton: &Automaton, mask: &Vec<Vec<bool>>)
        requires
            old(self).full_size(),
            mask_fits(mask_view(mask)),
            automaton.enable ==> rules_apply(old(self)@),
            automaton.enable && automaton.can_replace@.len() > 0 ==> all_filled(old(self)@),
        ensures
            final(self).full_size(),
            !automaton.enable ==> final(self)@ == old(self)@,
            automaton.enable ==> final(self)@ == iterate(
                seeded(old(self)@, automaton.can_replace@, automaton.mineral_type, mask_view(mask)),
                automaton.death_limit as int,
                automaton.birth_limit as int,
                automaton.max_air_exposure as int,
                automaton.iterations as nat,
            ),
    {
        if !automaton.enable {
            return;
        }
        let ghost g0 = self@;
        let ghost m = mask_view(mask);
        let ghost target = seeded(g0, automaton.can_replace@, automaton.mineral_type, m);
        proof {
            self.lemma_view();
        }
        let mineral_tile = automaton.mineral_type.to_tile_type().as_tile();
        let mut x: usize = 0;
        while x < WIDTH
            invariant
                self.full_size(),
                g0.len() == WIDTH,
                forall|i: int| 0 <= i < WIDTH ==> (#[trigger] g0[i]).len() == HEIGHT,
                m == mask_view(mask),
                mask_fits(m),
                automaton.can_replace@.len() > 0 ==> all_filled(g0),
                target == seeded(g0, automaton.can_replace@, automaton.mineral_type, m),
                mineral_tile == single_tile(TileType::Mineral(automaton.mineral_type)),
                x <= WIDTH,
                forall|i: int, j: int|
                    0 <= i < WIDTH && 0 <= j < HEIGHT ==> #[trigger] self.cell(i, j) == if i < x {
                        target[i][j]
                    } else {
                        g0[i][j]
                    },
            decreases WIDTH - x,
        {
            let mut y: usize = 0;
            while y < HEIGHT
                invariant
                    self.full_size(),
                    g0.len() == WIDTH,
                    forall|i: int| 0 <= i < WIDTH ==> (#[trigger] g0[i]).len() == HEIGHT,
                    m == mask_view(mask),
                    mask_fits(m),
                    automaton.can_replace@.len() > 0 ==> all_filled(g0),
                    target == seeded(g0, automaton.can_replace@, automaton.mineral_type, m),
                    mineral_tile == single_tile(TileType::Mineral(automaton.mineral_type)),
                    x < WIDTH,
                    y <= HEIGHT,
                    forall|i: int, j: int|
                        0 <= i < WIDTH && 0 <= j < HEIGHT ==> #[trigger] self.cell(i, j) == if i < x || (i == x
                            && j < y) {
                            target[i][j]
                        } else {
                            g0[i][j]
                        },
                decreases HEIGHT - y,
            {
                proof {
                    self.lemma_view();
                }
                if automaton.can_replace.len() > 0 {
                    match self.get_tile(x, y) {
                        Ok((tile, _)) => {
                            assert(tile == g0[x as int][y as int]);
                            assert(m[x as int].len() == HEIGHT);
                            assert(m[x as int] == mask@[x as int]@);
                            if holds_any(tile, &automaton.can_replace) && mask[x][y] {
                                self.set_cell(x, y, mineral_tile);
                            }
                        },
                        Err(_) => {
                            proof {
                                assert(grid_check(g0, x as int, y as int));
                                assert(false);
                            }
                        },
                    }
                }
                y = y + 1;
            }
            x = x + 1;
        }
        proof {
            self.lemma_view();
            assert(self@ =~= target) by {
                assert forall|i: int| 0 <= i < self@.len() implies #[trigger] self@[i] =~= target[i] by {
                    assert forall|j: int| 0 <= j < self@[i].len() implies #[trigger] self@[i][j] == target[i][j] by {
                        assert(self.cell(i, j) == target[i][j]);
                    }
                }
            }
            assert forall|i: int, j: int| 1 <= i < WIDTH && 1 <= j < HEIGHT implies #[trigger] grid_check(self@, i, j) by {
                assert(grid_check(g0, i, j));
            }
        }
        automaton.apply_rules(self);
        proof {
            self.lemma_view();
            assert forall|i: int| 0 <= i < HEIGHT implies (#[trigger] self.data@[i])@.len() == WIDTH by {
                assert(self@[i] == self.data@[i]@);
            }
        }
    }
}

} // verus!
