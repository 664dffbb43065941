use vstd::prelude::*;

use super::automaton::{iterate, rules_apply, step_cell, step_grid, Automaton};
use super::caves::{all_filled, mask_fits, mask_view, seeded};
use super::tile::minerals::MineralType;
use super::tile::{Tile, TileType};
use super::{air, grid_check, hearth_tile, in_disk, stockpile_at, stockpile_tile, TileMap, HEIGHT, WIDTH};
use crate::coords::Coords;
use crate::game::units::{start_of, RaceType, HOME_STARTING_SIZE};

verus! {

/// A `HEIGHT x WIDTH` grid of air.
pub open spec fn air_grid() -> Seq<Seq<Tile>> {
    Seq::new(HEIGHT as nat, |x: int| Seq::new(WIDTH as nat, |y: int| air()))
}

/// The grids of each mask.
pub open spec fn masks_view(masks: &Vec<Vec<Vec<bool>>>) -> Seq<Seq<Seq<bool>>> {
    masks@.map_values(|m: Vec<Vec<bool>>| mask_view(&m))
}

/// Grid `g` once the first `k` automata have seeded and shaped their minerals
/// in turn, automaton `i` reading mask `i`; a disabled automaton leaves it as is.
pub open spec fn layered(g: Seq<Seq<Tile>>, params: Seq<Automaton>, masks: Seq<Seq<Seq<bool>>>, k: nat) -> Seq<Seq<Tile>>
    decreases k,
{
    if k == 0 {
        g
    } else {
        let h = layered(g, params, masks, (k - 1) as nat);
        let a = params[k - 1];
        if a.enable {
            iterate(
                seeded(h, a.can_replace@, a.mineral_type, masks[k - 1]),
                a.death_limit as int,
                a.birth_limit as int,
                a.max_air_exposure as int,
                a.iterations as nat,
            )
        } else {
            h
        }
    }
}

/// Tile `(i, j)` of grid `g` once `race` has built its starting zone: its
/// hearth, its four stockpiles, and the tiles of the disk around the hearth dug out.
pub open spec fn zone_tile(g: Seq<Seq<Tile>>, race: RaceType, i: int, j: int) -> Tile {
    let s = start_of(race);
    if i == s.0 && j == s.1 {
        hearth_tile(race)
    } else if stockpile_at(s, i, j) is Some {
        stockpile_tile(stockpile_at(s, i, j).unwrap())
    } else if in_disk(s, HOME_STARTING_SIZE as int, i, j) && grid_check(g, i, j) {
        air()
    } else {
        g[i][j]
    }
}

/// Grid `g` once `race` has built its starting zone.
pub open spec fn zoned(g: Seq<Seq<Tile>>, race: RaceType) -> Seq<Seq<Tile>> {
    Seq::new(g.len(), |i: int| Seq::new(g[i].len(), |j: int| zone_tile(g, race, i, j)))
}

/// The map a generation ends with: the layers of all automata over air, then the
/// starting zones of ants, humans and aliens.
pub open spec fn generated(params: Seq<Automaton>, masks: Seq<Seq<Seq<bool>>>) -> Seq<Seq<Tile>> {
    zoned(
        zoned(zoned(layered(air_grid(), params, masks, params.len()), RaceType::ANT), RaceType::HUMAN),
        RaceType::ALIEN,
    )
}

/// `g` is `HEIGHT x WIDTH`, and every cell of that square lies in it.
pub open spec fn full_grid(g: Seq<Seq<Tile>>) -> bool {
    &&& g.len() == HEIGHT
    &&& forall|x: int| 0 <= x < HEIGHT ==> (#[trigger] g[x]).len() == WIDTH
    &&& all_filled(g)
}

proof fn lemma_full_rules(g: Seq<Seq<Tile>>)
    requires
        full_grid(g),
    ensures
        rules_apply(g),
{
    assert forall|x: int, y: int| 1 <= x < WIDTH && 1 <= y < HEIGHT implies #[trigger] grid_check(g, x, y) by {
        assert(grid_check(g, x, y));
    }
}

proof fn lemma_seeded_full(g: Seq<Seq<Tile>>, replace: Seq<TileType>, mineral: MineralType, mask: Seq<Seq<bool>>)
    requires
        full_grid(g),
    ensures
        full_grid(seeded(g, replace, mineral, mask)),
{
    let h = seeded(g, replace, mineral, mask);
    assert forall|x: int| 0 <= x < HEIGHT implies (#[trigger] h[x]).len() == WIDTH by {
        assert(g[x].len() == WIDTH);
    }
    assert forall|x: int, y: int| 0 <= x < WIDTH && 0 <= y < HEIGHT implies #[trigger] grid_check(h, x, y) by {
        assert(grid_check(g, x, y));
    }
}

proof fn lemma_iterate_full(g: Seq<Seq<Tile>>, d: int, b: int, ma: int, k: nat)
    requires
        full_grid(g),
    ensures
        full_grid(iterate(g, d, b, ma, k)),
    decreases k,
{
    if k > 0 {
        lemma_iterate_full(g, d, b, ma, (k - 1) as nat);
        let p = iterate(g, d, b, ma, (k - 1) as nat);
        let h = step_grid(p, d, b, ma);
        assert forall|x: int| 0 <= x < HEIGHT implies (#[trigger] h[x]).len() == WIDTH by {
            assert(p[x].len() == WIDTH);
        }
        assert forall|x: int, y: int| 0 <= x < WIDTH && 0 <= y < HEIGHT implies #[trigger] grid_check(h, x, y) by {
            assert(grid_check(p, x, y));
            assert(h[x][y] == step_cell(p, d, b, ma, x, y));
        }
    }
}

proof fn lemma_zoned_full(g: Seq<Seq<Tile>>, race: RaceType)
    requires
        full_grid(g),
    ensures
        full_grid(zoned(g, race)),
{
    let h = zoned(g, race);
    assert forall|x: int| 0 <= x < HEIGHT implies (#[trigger] h[x]).len() == WIDTH by {
        assert(g[x].len() == WIDTH);
    }
    assert forall|x: int, y: int| 0 <= x < WIDTH && 0 <= y < HEIGHT implies #[trigger] grid_check(h, x, y) by {
        assert(grid_check(g, x, y));
    }
}

impl TileMap {
    proof fn lemma_full_checks(&self)
        requires
            self.full_size(),
            all_filled(self@),
        ensures
            full_grid(self@),
            forall|x: int, y: int| 0 <= x < WIDTH && 0 <= y < HEIGHT ==> #[trigger] self.spec_check(x, y),
    {
        self.lemma_view();
        assert forall|x: int| 0 <= x < HEIGHT implies (#[trigger] self@[x]).len() == WIDTH by {
            assert(self@[x] == self.data@[x]@);
        }
        assert forall|x: int, y: int| 0 <= x < WIDTH && 0 <= y < HEIGHT implies #[trigger] self.spec_check(x, y) by {
            assert(grid_check(self@, x, y));
        }
    }

    /// Builds `race`'s starting zone on a full-size map.
    fn build_zone_on_full(&mut self, race: RaceType)
        requires
            old(self).full_size(),
            all_filled(old(self)@),
        ensures
            final(self).full_size(),
            all_filled(final(self)@),
            final(self)@ == zoned(old(self)@, race),
    {
        let ghost m0 = *self;
        proof {
            m0.lemma_full_checks();
            let s = start_of(race);
            assert(m0.spec_check(s.0 as int, s.1 as int));
            assert forall|i: int, j: int| #[trigger] stockpile_at(s, i, j) is Some implies m0.spec_check(i, j) by {
                assert(0 <= i < WIDTH && 0 <= j < HEIGHT);
            }
        }
        let r = self.build_starting_zone(race);
        proof {
            m0.lemma_view();
            self.lemma_view();
            let z = zoned(m0@, race);
            assert forall|i: int| 0 <= i < HEIGHT implies (#[trigger] self.data@[i])@.len() == WIDTH by {
                assert(m0.data@[i]@.len() == WIDTH);
            }
            assert forall|i: int| 0 <= i < self@.len() implies #[trigger] self@[i] =~= z[i] by {
                assert(m0@[i] == m0.data@[i]@);
                assert forall|j: int| 0 <= j < self@[i].len() implies #[trigger] self@[i][j] == z[i][j] by {
                    assert(self.cell(i, j) == TileMap::zone_cell(&m0, race, start_of(race), i, j));
                    assert(m0.spec_check(i, j) == grid_check(m0@, i, j));
                }
            }
            assert(self@ =~= z);
            lemma_zoned_full(m0@, race);
        }
    }

    /// Clears the map to air, lets each automaton seed and shape its mineral in
    /// turn (automaton `k` reading the noise of `masks[k]`), then builds the
    /// starting zones of ants, humans and aliens. The map keeps its full size,
    /// so each zone finds its hearth's tile and the generation succeeds.
    pub fn generate(&mut self, gen_params: &Vec<Automaton>, masks: &Vec<Vec<Vec<bool>>>) -> (r: Result<(), Coords>)
        requires
            masks@.len() == gen_params@.len(),
            forall|k: int| 0 <= k < masks@.len() ==> mask_fits(#[trigger] masks_view(masks)[k]),
        ensures
            r == Ok::<(), Coords>(()),
            final(self).full_size(),
            final(self)@ == generated(gen_params@, masks_view(masks)),
    {
        *self = TileMap::new();
        let ghost mv = masks_view(masks);
        proof {
            self.lemma_view();
            assert forall|x: int| 0 <= x < HEIGHT implies #[trigger] self@[x] =~= air_grid()[x] by {
                assert(self@[x] == self.data@[x]@);
                assert forall|y: int| 0 <= y < WIDTH implies #[trigger] self@[x][y] == air_grid()[x][y] by {
                    assert(self.cell(x, y) == air());
                }
            }
            assert(self@ =~= air_grid());
            assert forall|x: int, y: int| 0 <= x < WIDTH && 0 <= y < HEIGHT implies #[trigger] grid_check(self@, x, y) by {
                assert(self@[x][y] == air());
            }
        }
        let n = gen_params.len();
        let mut k: usize = 0;
        while k < n
            invariant
                n == gen_params@.len(),
                masks@.len() == n,
                mv == masks_view(masks),
                forall|i: int| 0 <= i < masks@.len() ==> mask_fits(#[trigger] masks_view(masks)[i]),
                k <= n,
                self.full_size(),
                all_filled(self@),
                self@ == layered(air_grid(), gen_params@, mv, k as nat),
            decreases n - k,
        {
            let ghost g = self@;
            proof {
                self.lemma_full_checks();
                lemma_full_rules(g);
                assert(mv[k as int] == mask_view(&masks@[k as int]));
            }
            self.generate_caves(&gen_params[k], &masks[k]);
            proof {
                let a = gen_params@[k as int];
                if a.enable {
                    let sd = seeded(g, a.can_replace@, a.mineral_type, mv[k as int]);
                    lemma_seeded_full(g, a.can_replace@, a.mineral_type, mv[k as int]);
                    lemma_iterate_full(
                        sd,
                        a.death_limit as int,
                        a.birth_limit as int,
                        a.max_air_exposure as int,
                        a.iterations as nat,
                    );
                }
            }
            k = k + 1;
        }
        self.build_zone_on_full(RaceType::ANT);
        self.build_zone_on_full(RaceType::HUMAN);
        self.build_zone_on_full(RaceType::ALIEN);
        Ok(())
    }
}

} // verus!
