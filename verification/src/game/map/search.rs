use vstd::prelude::*;

use crate::coords::{abs_int, Coords};
use crate::game::map::tile::buildings::{building_type_of, BuildingType};
use crate::game::map::tile::{tile_has, Tile, TileType};
use crate::game::map::tile::minerals::MineralType;
use crate::game::units::Unit;
use crate::game::map::{grid_check, ix, lemma_small_index, TileMap};

verus! {

/// How many cells of a row are marked.
pub open spec fn row_marks(r: Seq<bool>) -> nat
    decreases r.len(),
{
    if r.len() == 0 {
        0
    } else {
        row_marks(r.drop_last()) + if r.last() {
            1nat
        } else {
            0nat
        }
    }
}

/// How many cells of a grid are marked.
pub open spec fn grid_marks(v: Seq<Seq<bool>>) -> nat
    decreases v.len(),
{
    if v.len() == 0 {
        0
    } else {
        grid_marks(v.drop_last()) + row_marks(v.last())
    }
}

proof fn lemma_row_marks_bound(r: Seq<bool>)
    ensures
        row_marks(r) <= r.len(),
    decreases r.len(),
{
    if r.len() > 0 {
        lemma_row_marks_bound(r.drop_last());
    }
}

proof fn lemma_row_marks_zero(r: Seq<bool>)
    requires
        forall|k: int| 0 <= k < r.len() ==> !r[k],
    ensures
        row_marks(r) == 0,
    decreases r.len(),
{
    if r.len() > 0 {
        lemma_row_marks_zero(r.drop_last());
    }
}

proof fn lemma_row_marks_set(r: Seq<bool>, j: int)
    requires
        0 <= j < r.len(),
        !r[j],
    ensures
        row_marks(r.update(j, true)) == row_marks(r) + 1,
    decreases r.len(),
{
    let u = r.update(j, true);
    if j == r.len() - 1 {
        assert(u.drop_last() =~= r.drop_last());
    } else {
        assert(u.drop_last() =~= r.drop_last().update(j, true));
        lemma_row_marks_set(r.drop_last(), j);
    }
}

proof fn lemma_grid_marks_bound(v: Seq<Seq<bool>>, w: nat)
    requires
        forall|i: int| 0 <= i < v.len() ==> (#[trigger] v[i]).len() <= w,
    ensures
        grid_marks(v) <= v.len() * w,
    decreases v.len(),
{
    if v.len() > 0 {
        lemma_grid_marks_bound(v.drop_last(), w);
        lemma_row_marks_bound(v.last());
        assert(v.len() * w == (v.len() - 1) * w + w) by (nonlinear_arith);
    }
}

proof fn lemma_grid_marks_zero(v: Seq<Seq<bool>>)
    requires
        forall|i: int, k: int| 0 <= i < v.len() && 0 <= k < v[i].len() ==> !(#[trigger] v[i][k]),
    ensures
        grid_marks(v) == 0,
    decreases v.len(),
{
    if v.len() > 0 {
        lemma_grid_marks_zero(v.drop_last());
        lemma_row_marks_zero(v.last());
    }
}

proof fn lemma_grid_marks_set(v: Seq<Seq<bool>>, i: int, j: int)
    requires
        0 <= i < v.len(),
        0 <= j < v[i].len(),
        !v[i][j],
    ensures
        grid_marks(v.update(i, v[i].update(j, true))) == grid_marks(v) + 1,
    decreases v.len(),
{
    let u = v.update(i, v[i].update(j, true));
    if i == v.len() - 1 {
        assert(u.drop_last() =~= v.drop_last());
        lemma_row_marks_set(v[i], j);
    } else {
        assert(u.drop_last() =~= v.drop_last().update(i, v[i].update(j, true)));
        lemma_grid_marks_set(v.drop_last(), i, j);
    }
}

/// The marked cells of a grid, as pairs of indices.
pub open spec fn marked(v: Seq<Seq<bool>>) -> Set<(int, int)> {
    Set::new(|p: (int, int)| 0 <= p.0 < v.len() && 0 <= p.1 < v[p.0].len() && v[p.0][p.1])
}

/// The `k`-th neighbour a search looks at: north, east, south, then west.
pub open spec fn around(c: Coords, k: int) -> Coords {
    if k == 0 {
        Coords(c.0, (c.1 + 1) as i32)
    } else if k == 1 {
        Coords((c.0 + 1) as i32, c.1)
    } else if k == 2 {
        Coords(c.0, (c.1 - 1) as i32)
    } else {
        Coords((c.0 - 1) as i32, c.1)
    }
}

/// The four cells a search looks at around `c` are its four edge neighbours,
/// each exactly once: each is one step away along one axis, and no two are the
/// same. They come in the order north (`y + 1`), east (`x + 1`), south
/// (`y - 1`), west (`x - 1`).
pub proof fn law_around_four_sides(c: Coords)
    requires
        i32::MIN < c.0 < i32::MAX,
        i32::MIN < c.1 < i32::MAX,
    ensures
        forall|k: int|
            0 <= k < 4 ==> abs_int(#[trigger] around(c, k).0 - c.0) + abs_int(around(c, k).1 - c.1) == 1,
        forall|j: int, k: int| 0 <= j < 4 && 0 <= k < 4 && j != k ==> #[trigger] around(c, j) != #[trigger] around(c, k),
        around(c, 0).1 == c.1 + 1,
        around(c, 1).0 == c.0 + 1,
        around(c, 2).1 == c.1 - 1,
        around(c, 3).0 == c.0 - 1,
{
}

/// The `k`-th neighbour of `c`.
fn neighbour(c: Coords, k: usize) -> (r: Coords)
    requires
        0 <= c.0 < 1000,
        0 <= c.1 < 1000,
    ensures
        r == around(c, k as int),
{
    if k == 0 {
        c + Coords(0, 1)
    } else if k == 1 {
        c + Coords(1, 0)
    } else if k == 2 {
        c + Coords(0, -1)
    } else {
        c + Coords(-1, 0)
    }
}

/// What a breadth-first search over the map looks for.
#[derive(Clone, Copy)]
pub enum SearchGoal {
    /// A building of this type, among the neighbours of the cells reached; a
    /// neighbour without a tile, or with a building of another type, ends the
    /// search with nothing.
    Building(BuildingType),
    /// A neighbour whose tile holds this type in one of its layers.
    Holding(TileType),
    /// A cell reached whose tile is exactly this one.
    Exactly(Tile),
}

/// The key under which a search remembers that it reached `c`.
pub open spec fn key_of(c: Coords) -> (int, int) {
    (ix(c.0), ix(c.1))
}

/// What a search decides on reaching cell `c` itself: found, or go on (`None`).
pub open spec fn verdict_at_cell(g: Seq<Seq<Tile>>, goal: SearchGoal, c: Coords) -> Option<Option<Coords>> {
    match goal {
        SearchGoal::Exactly(t) => if grid_check(g, ix(c.0), ix(c.1)) && g[ix(c.0)][ix(c.1)] == t && Coords(
            ix(c.0) as i32,
            ix(c.1) as i32,
        ) == c {
            Some(Some(c))
        } else {
            None
        },
        _ => None,
    }
}

/// What a search decides on looking at neighbour `n`: found (`Some(Some(..))`),
/// failed (`Some(None)`) or go on (`None`).
pub open spec fn verdict_at_neighbour(g: Seq<Seq<Tile>>, goal: SearchGoal, n: Coords) -> Option<Option<Coords>> {
    match goal {
        SearchGoal::Building(bt) => if !grid_check(g, ix(n.0), ix(n.1)) {
            Some(None)
        } else if g[ix(n.0)][ix(n.1)].2 is Some {
            if building_type_of(g[ix(n.0)][ix(n.1)].2.unwrap()) == bt {
                Some(Some(n))
            } else {
                Some(None)
            }
        } else {
            None
        },
        SearchGoal::Holding(tt) => if grid_check(g, ix(n.0), ix(n.1)) && tile_has(g[ix(n.0)][ix(n.1)], tt) {
            Some(Some(Coords(ix(n.0) as i32, ix(n.1) as i32)))
        } else {
            None
        },
        SearchGoal::Exactly(_) => None,
    }
}

/// A search looks at the neighbours of `c` from the `k`-th on: it stops when a
/// neighbour decides (see `verdict_at_neighbour`), and queues each neighbour
/// that has a tile and was not reached yet. Gives the decision, if any, with the
/// queue and the reached cells afterwards.
pub open spec fn scan_around(
    g: Seq<Seq<Tile>>,
    goal: SearchGoal,
    c: Coords,
    k: int,
    queue: Seq<Coords>,
    seen: Set<(int, int)>,
) -> (Option<Option<Coords>>, Seq<Coords>, Set<(int, int)>)
    decreases 4 - k,
{
    if k < 0 || k >= 4 {
        (None, queue, seen)
    } else {
        let n = around(c, k);
        match verdict_at_neighbour(g, goal, n) {
            Some(v) => (Some(v), queue, seen),
            None => if grid_check(g, ix(n.0), ix(n.1)) && !seen.contains(key_of(n)) {
                scan_around(g, goal, c, k + 1, queue.push(n), seen.insert(key_of(n)))
            } else {
                scan_around(g, goal, c, k + 1, queue, seen)
            },
        }
    }
}

/// The breadth-first search, with the cells of `queue` from `head` on still to
/// be handled, at most `fuel` of them: each is checked itself (see
/// `verdict_at_cell`), then looked around.
pub open spec fn search_from(
    g: Seq<Seq<Tile>>,
    goal: SearchGoal,
    queue: Seq<Coords>,
    head: int,
    seen: Set<(int, int)>,
    fuel: nat,
) -> Option<Coords>
    decreases fuel,
{
    if fuel == 0 || head < 0 || head >= queue.len() {
        None
    } else {
        match verdict_at_cell(g, goal, queue[head]) {
            Some(v) => v,
            None => {
                let (done, q, s) = scan_around(g, goal, queue[head], 0, queue, seen);
                match done {
                    Some(v) => v,
                    None => search_from(g, goal, q, head + 1, s, (fuel - 1) as nat),
                }
            },
        }
    }
}

/// What a breadth-first search from `start` finds (a 100 by 100 grid is gone
/// through in at most 10001 steps).
pub open spec fn search_result(g: Seq<Seq<Tile>>, start: Coords, goal: SearchGoal) -> Option<Coords> {
    search_from(g, goal, seq![start], 0, set![key_of(start)], 10001)
}

/// `c` is what `goal` asks for on grid `g`: a building of the type, a tile
/// holding the type, or exactly the tile.
pub open spec fn meets_goal(g: Seq<Seq<Tile>>, goal: SearchGoal, c: Coords) -> bool {
    match goal {
        SearchGoal::Building(bt) => grid_check(g, ix(c.0), ix(c.1)) && g[ix(c.0)][ix(c.1)].2 is Some && building_type_of(
            g[ix(c.0)][ix(c.1)].2.unwrap(),
        ) == bt,
        SearchGoal::Holding(tt) => exists|n: Coords|
            grid_check(g, ix(n.0), ix(n.1)) && tile_has(g[ix(n.0)][ix(n.1)], tt) && c == Coords(
                ix(n.0) as i32,
                ix(n.1) as i32,
            ),
        SearchGoal::Exactly(t) => grid_check(g, ix(c.0), ix(c.1)) && g[ix(c.0)][ix(c.1)] == t,
    }
}

proof fn lemma_scan_sound(
    g: Seq<Seq<Tile>>,
    goal: SearchGoal,
    c: Coords,
    k: int,
    queue: Seq<Coords>,
    seen: Set<(int, int)>,
)
    ensures
        scan_around(g, goal, c, k, queue, seen).0 matches Some(Some(x)) ==> meets_goal(g, goal, x),
    decreases 4 - k,
{
    if 0 <= k < 4 {
        let n = around(c, k);
        match verdict_at_neighbour(g, goal, n) {
            Some(v) => {},
            None => {
                if grid_check(g, ix(n.0), ix(n.1)) && !seen.contains(key_of(n)) {
                    lemma_scan_sound(g, goal, c, k + 1, queue.push(n), seen.insert(key_of(n)));
                } else {
                    lemma_scan_sound(g, goal, c, k + 1, queue, seen);
                }
            },
        }
    }
}

proof fn lemma_search_sound(
    g: Seq<Seq<Tile>>,
    goal: SearchGoal,
    queue: Seq<Coords>,
    head: int,
    seen: Set<(int, int)>,
    fuel: nat,
)
    ensures
        search_from(g, goal, queue, head, seen, fuel) matches Some(x) ==> meets_goal(g, goal, x),
    decreases fuel,
{
    if fuel > 0 && 0 <= head < queue.len() {
        match verdict_at_cell(g, goal, queue[head]) {
            Some(v) => {},
            None => {
                lemma_scan_sound(g, goal, queue[head], 0, queue, seen);
                let (done, q, s) = scan_around(g, goal, queue[head], 0, queue, seen);
                if done is None {
                    lemma_search_sound(g, goal, q, head + 1, s, (fuel - 1) as nat);
                }
            },
        }
    }
}

/// What a search finds is what it was asked for: a building of the type, a
/// tile holding the type, or exactly the tile.
pub proof fn law_search_finds_goal(g: Seq<Seq<Tile>>, start: Coords, goal: SearchGoal)
    ensures
        search_result(g, start, goal) matches Some(x) ==> meets_goal(g, goal, x),
{
    lemma_search_sound(g, goal, seq![start], 0, set![key_of(start)], 10001);
}

/// A grid of `HEIGHT` rows of `WIDTH` unmarked cells.
fn unmarked_grid() -> (v: Vec<Vec<bool>>)
    ensures
        v@.len() == 100,
        forall|i: int| 0 <= i < 100 ==> (#[trigger] v@[i])@.len() == 100,
        forall|i: int, k: int| 0 <= i < 100 && 0 <= k < 100 ==> !(#[trigger] v@[i]@[k]),
{
    let mut v: Vec<Vec<bool>> = Vec::new();
    let mut i: usize = 0;
    while i < 100
        invariant
            i <= 100,
            v@.len() == i,
            forall|x: int| 0 <= x < i ==> (#[trigger] v@[x])@.len() == 100,
            forall|x: int, k: int| 0 <= x < i && 0 <= k < 100 ==> !(#[trigger] v@[x]@[k]),
        decreases 100 - i,
    {
        let mut row: Vec<bool> = Vec::new();
        let mut j: usize = 0;
        while j < 100
            invariant
                j <= 100,
                row@.len() == j,
                forall|k: int| 0 <= k < j ==> !(#[trigger] row@[k]),
            decreases 100 - j,
        {
            row.push(false);
            j = j + 1;
        }
        v.push(row);
        i = i + 1;
    }
    v
}

impl TileMap {
    /// What the search decides on reaching `c` itself.
    fn decide_at_cell(&self, goal: SearchGoal, c: Coords) -> (r: Option<Option<Coords>>)
        ensures
            r == verdict_at_cell(self@, goal, c),
    {
        proof {
            self.lemma_view();
        }
        match goal {
            SearchGoal::Exactly(t) => {
                match self.get_tile_from_coords(c) {
                    Ok((tile, at)) => {
                        if tile == t && at == c {
                            Some(Some(c))
                        } else {
                            None
                        }
                    },
                    Err(_) => None,
                }
            },
            _ => None,
        }
    }

    /// What the search decides on looking at neighbour `n`.
    fn decide_at_neighbour(&self, goal: SearchGoal, n: Coords) -> (r: Option<Option<Coords>>)
        ensures
            r == verdict_at_neighbour(self@, goal, n),
    {
        proof {
            self.lemma_view();
        }
        match goal {
            SearchGoal::Building(bt) => {
                match self.get_tile_from_coords(n) {
                    Err(_) => Some(None),
                    Ok((tile, _)) => {
                        match tile.get_buildable() {
                            Ok(b) => {
                                if b.building_type() == bt {
                                    Some(Some(n))
                                } else {
                                    Some(None)
                                }
                            },
                            Err(_) => None,
                        }
                    },
                }
            },
            SearchGoal::Holding(tt) => {
                match self.get_tile_from_coords(n) {
                    Ok((tile, at)) => {
                        if tile.has(tt).is_ok() {
                            Some(Some(at))
                        } else {
                            None
                        }
                    },
                    Err(_) => None,
                }
            },
            SearchGoal::Exactly(_) => None,
        }
    }

    /// Breadth-first search from `start`: the cells reached are handled in the
    /// order they were reached; each is checked itself, then its neighbours
    /// north, east, south and west are looked at in turn.
    pub fn breadth_first(&self, start: Coords, goal: SearchGoal) -> (r: Option<Coords>)
        requires
            self.fits_search(),
            0 <= start.0 < 100,
            0 <= start.1 < 100,
        ensures
            r == search_result(self@, start, goal),
    {
        proof {
            self.lemma_view();
        }
        let mut visited = unmarked_grid();
        proof {
            lemma_grid_marks_zero(visited@.map_values(|row: Vec<bool>| row@));
        }
        let ghost v0 = visited@.map_values(|row: Vec<bool>| row@);
        visited[start.0 as usize].set(start.1 as usize, true);
        proof {
            let v1 = visited@.map_values(|row: Vec<bool>| row@);
            assert(v1 =~= v0.update(start.0 as int, v0[start.0 as int].update(start.1 as int, true)));
            lemma_grid_marks_set(v0, start.0 as int, start.1 as int);
            assert(marked(v1) =~= set![key_of(start)]);
        }
        let mut queue: Vec<Coords> = Vec::new();
        queue.push(start);
        assert(queue@ =~= seq![start]);
        let mut head: usize = 0;
        while head < queue.len()
            invariant
                self.fits_search(),
                visited@.len() == 100,
                forall|i: int| 0 <= i < 100 ==> (#[trigger] visited@[i])@.len() == 100,
                queue@.len() == grid_marks(visited@.map_values(|row: Vec<bool>| row@)),
                head <= queue@.len(),
                forall|i: int| 0 <= i < queue@.len() ==> 0 <= (#[trigger] queue@[i]).0 < 100 && 0 <= queue@[i].1 < 100,
                search_from(self@, goal, queue@, head as int, marked(visited@.map_values(|row: Vec<bool>| row@)), (10001 - head) as nat)
                    == search_result(self@, start, goal),
            decreases 10001 - head,
        {
            proof {
                let vv = visited@.map_values(|row: Vec<bool>| row@);
                lemma_grid_marks_bound(vv, 100);
            }
            let c = queue[head];
            match self.decide_at_cell(goal, c) {
                Some(v) => {
                    return v;
                },
                None => {},
            }
            let ghost q0 = queue@;
            let ghost s0 = marked(visited@.map_values(|row: Vec<bool>| row@));
            let mut k: usize = 0;
            while k < 4
                invariant
                    self.fits_search(),
                    visited@.len() == 100,
                    forall|i: int| 0 <= i < 100 ==> (#[trigger] visited@[i])@.len() == 100,
                    queue@.len() == grid_marks(visited@.map_values(|row: Vec<bool>| row@)),
                    head < queue@.len(),
                    head < 10001,
                    q0.len() <= queue@.len(),
                    forall|i: int| 0 <= i < queue@.len() ==> 0 <= (#[trigger] queue@[i]).0 < 100 && 0 <= queue@[i].1 < 100,
                    queue@.subrange(0, q0.len() as int) == q0,
                    head < q0.len(),
                    c == q0[head as int],
                    0 <= c.0 < 100,
                    0 <= c.1 < 100,
                    verdict_at_cell(self@, goal, c) is None,
                    search_from(self@, goal, q0, head as int, s0, (10001 - head) as nat) == search_result(self@, start, goal),
                    k <= 4,
                    scan_around(self@, goal, c, 0, q0, s0) == scan_around(
                        self@,
                        goal,
                        c,
                        k as int,
                        queue@,
                        marked(visited@.map_values(|row: Vec<bool>| row@)),
                    ),
                decreases 4 - k,
            {
                let n = neighbour(c, k);
                match self.decide_at_neighbour(goal, n) {
                    Some(v) => {
                        return v;
                    },
                    None => {},
                }
                let x = n.0 as usize;
                let y = n.1 as usize;
                if self.check_data(x, y) {
                    proof {
                        lemma_small_index(n.0);
                        lemma_small_index(n.1);
                    }
                    if !visited[x][y] {
                        let ghost before = visited@.map_values(|row: Vec<bool>| row@);
                        visited[x].set(y, true);
                        proof {
                            let after = visited@.map_values(|row: Vec<bool>| row@);
                            assert(after =~= before.update(x as int, before[x as int].update(y as int, true)));
                            lemma_grid_marks_set(before, x as int, y as int);
                            assert(marked(after) =~= marked(before).insert(key_of(n)));
                        }
                        queue.push(n);
                    }
                }
                k = k + 1;
            }
            head = head + 1;
        }
        None
    }

    /// Breadth-first search from `coords` for a building of type
    /// `building_type`, among the neighbours of the cells reached; the first
    /// neighbour without a tile, or with a building of another type, makes the
    /// search fail.
    pub fn find_closest_building(&self, coords: Coords, building_type: BuildingType) -> (r: Result<Coords, ()>)
        requires
            self.fits_search(),
            0 <= coords.0 < 100,
            0 <= coords.1 < 100,
        ensures
            r == (match search_result(self@, coords, SearchGoal::Building(building_type)) {
                Some(c) => Ok::<Coords, ()>(c),
                None => Err(()),
            }),
    {
        match self.breadth_first(coords, SearchGoal::Building(building_type)) {
            Some(c) => Ok(c),
            None => Err(()),
        }
    }

    /// Breadth-first search from `coords` for a neighbouring tile holding
    /// `tile_type` in one of its layers; fails with `tile_type` when there is none.
    pub fn find_closest(&self, coords: Coords, tile_type: TileType) -> (r: Result<Coords, TileType>)
        requires
            self.fits_search(),
            0 <= coords.0 < 100,
            0 <= coords.1 < 100,
        ensures
            r == (match search_result(self@, coords, SearchGoal::Holding(tile_type)) {
                Some(c) => Ok::<Coords, TileType>(c),
                None => Err(tile_type),
            }),
    {
        match self.breadth_first(coords, SearchGoal::Holding(tile_type)) {
            Some(c) => Ok(c),
            None => Err(tile_type),
        }
    }
}

impl MineralType {
    /// Breadth-first search from `unit`'s position for a cell whose tile is
    /// exactly `tile`.
    pub fn find_closest(&self, tile: Tile, map: &TileMap, unit: Unit) -> (r: Option<Coords>)
        requires
            map.fits_search(),
            0 <= unit.coords.0 < 100,
            0 <= unit.coords.1 < 100,
        ensures
            r == search_result(map@, unit.coords, SearchGoal::Exactly(tile)),
    {
        map.breadth_first(unit.coords, SearchGoal::Exactly(tile))
    }
}

} // verus!
