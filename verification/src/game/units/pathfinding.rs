use vstd::prelude::*;

use crate::coords::Coords;
use crate::game::map::tile::minerals::{Mineral, MineralType};
use crate::game::map::tile::terrain::TerrainType;
use crate::game::map::tile::Tile;
use crate::game::map::{grid_check, ix, TileMap};
use crate::game::units::actions::ActionType;
use crate::game::units::{diagonal_cost_of, RaceType, Unit};
use crate::game::units::jobs::miner_target;
use pathfinding::prelude::astar;

verus! {

/// Units walk through air or water without minerals, moss, and buildings.
pub open spec fn tile_walkable(t: Tile) -> bool {
    ||| (t.0 == Some(TerrainType::AIR) && t.1 is None)
    ||| (t.0 == Some(TerrainType::WATER) && t.1 is None)
    ||| t.1 == Some(Mineral(MineralType::MOSS))
    ||| t.2 is Some
}

/// Any mineral can be dug.
pub open spec fn tile_diggable(t: Tile) -> bool {
    t.1 is Some
}

impl Tile {
    /// Air or water without mineral, moss, and any building can be walked through.
    pub fn is_walkable(self) -> (r: bool)
        ensures
            r == tile_walkable(self),
    {
        match self {
            Tile(Some(TerrainType::AIR), None, _) => true,
            Tile(Some(TerrainType::WATER), None, _) => true,
            Tile(_, Some(Mineral(MineralType::MOSS)), _) => true,
            Tile(_, _, Some(_)) => true,
            _ => false,
        }
    }

    /// Dirt, rock, iron, gold and moss can be dug.
    pub fn is_diggable(self) -> (r: bool)
        ensures
            r == tile_diggable(self),
    {
        match self {
            Tile(_, Some(Mineral(MineralType::DIRT)), _) => true,
            Tile(_, Some(Mineral(MineralType::ROCK)), _) => true,
            Tile(_, Some(Mineral(MineralType::IRON)), _) => true,
            Tile(_, Some(Mineral(MineralType::GOLD)), _) => true,
            Tile(_, Some(Mineral(MineralType::MOSS)), _) => true,
            _ => false,
        }
    }
}

/// Cell `(x, y)` of `g` exists and can be walked through.
pub open spec fn walkable_at(g: Seq<Seq<Tile>>, x: int, y: int) -> bool {
    grid_check(g, x, y) && tile_walkable(g[x][y])
}

/// Cell `(x, y)` of `g` exists and can be dug.
pub open spec fn diggable_at(g: Seq<Seq<Tile>>, x: int, y: int) -> bool {
    grid_check(g, x, y) && tile_diggable(g[x][y])
}

/// What stepping onto cell `(x, y)` of `g` costs a unit of `race`: its taste
/// for diagonals plus what the cell is worth for the kind of search (nothing
/// for a free search, 10 for a cell a dig cannot dig or a walk cannot cross, 1
/// for any other action); a cell that does not exist costs 100.
pub open spec fn movement_cost(
    race: RaceType,
    is_diagonal: bool,
    g: Seq<Seq<Tile>>,
    action: Option<ActionType>,
    x: int,
    y: int,
) -> int {
    diagonal_cost_of(race, is_diagonal) + if grid_check(g, x, y) {
        match action {
            None => 0int,
            Some(ActionType::DIG) => if tile_diggable(g[x][y]) {
                0int
            } else {
                10int
            },
            Some(ActionType::MOVE) => if tile_walkable(g[x][y]) {
                0int
            } else {
                10int
            },
            Some(_) => 1int,
        }
    } else {
        100int
    }
}

/// A dig search is drawn to what it can dig, and a walk to what it can cross:
/// of two cells of the map, one the search's action suits (diggable for a dig,
/// walkable for a walk) and one it does not, the first costs 10 less to step
/// onto; a suited cell costs only the race's taste for diagonals; a free search
/// pays that alone for any cell of the map; and a cell outside the map costs 100
/// more than that.
pub proof fn law_step_costs(race: RaceType, diagonal: bool, g: Seq<Seq<Tile>>, x1: int, y1: int, x2: int, y2: int)
    requires
        grid_check(g, x1, y1),
        grid_check(g, x2, y2),
    ensures
        tile_diggable(g[x1][y1]) && !tile_diggable(g[x2][y2]) ==> movement_cost(
            race,
            diagonal,
            g,
            Some(ActionType::DIG),
            x1,
            y1,
        ) + 10 == movement_cost(race, diagonal, g, Some(ActionType::DIG), x2, y2),
        tile_walkable(g[x1][y1]) && !tile_walkable(g[x2][y2]) ==> movement_cost(
            race,
            diagonal,
            g,
            Some(ActionType::MOVE),
            x1,
            y1,
        ) + 10 == movement_cost(race, diagonal, g, Some(ActionType::MOVE), x2, y2),
        tile_diggable(g[x1][y1]) ==> movement_cost(race, diagonal, g, Some(ActionType::DIG), x1, y1)
            == diagonal_cost_of(race, diagonal),
        tile_walkable(g[x1][y1]) ==> movement_cost(race, diagonal, g, Some(ActionType::MOVE), x1, y1)
            == diagonal_cost_of(race, diagonal),
        movement_cost(race, diagonal, g, None, x1, y1) == diagonal_cost_of(race, diagonal),
        forall|x: int, y: int|
            !grid_check(g, x, y) ==> #[trigger] movement_cost(race, diagonal, g, Some(ActionType::DIG), x, y)
                == diagonal_cost_of(race, diagonal) + 100,
{
}

/// The cost of moving a unit of `race` onto `coords` during a search for `action`.
pub(crate) fn get_movement_cost(
    race: RaceType,
    is_diagonal: bool,
    terrain: &TileMap,
    action: Option<ActionType>,
    coords: Coords,
) -> (r: i32)
    ensures
        r == movement_cost(race, is_diagonal, terrain@, action, ix(coords.0), ix(coords.1)),
{
    proof {
        terrain.lemma_view();
    }
    let extra: i32 = match terrain.get_tile_from_coords(coords) {
        Ok((tile, _)) => match action {
            None => 0,
            Some(ActionType::DIG) => {
                if tile.is_diggable() {
                    0
                } else {
                    10
                }
            },
            Some(ActionType::MOVE) => {
                if tile.is_walkable() {
                    0
                } else {
                    10
                }
            },
            Some(_) => 1,
        },
        Err(_) => 100,
    };
    race.diagonal_cost(is_diagonal) + extra
}

/// `x + 1`, wrapping to 0 past the largest index.
pub open spec fn next_up(x: usize) -> usize {
    if x == usize::MAX {
        0
    } else {
        (x + 1) as usize
    }
}

/// `x - 1`, wrapping to the largest index below 0.
pub open spec fn next_down(x: usize) -> usize {
    if x == 0 {
        usize::MAX
    } else {
        (x - 1) as usize
    }
}

/// The eight neighbours of `p`, straight ones first, each with whether the step
/// is diagonal.
pub open spec fn steps(p: (usize, usize)) -> Seq<(usize, usize, bool)> {
    seq![
        (next_up(p.0), p.1, false),
        (next_down(p.0), p.1, false),
        (p.0, next_up(p.1), false),
        (p.0, next_down(p.1), false),
        (next_up(p.0), next_up(p.1), true),
        (next_up(p.0), next_down(p.1), true),
        (next_down(p.0), next_up(p.1), true),
        (next_down(p.0), next_down(p.1), true),
    ]
}

/// A step is offered when the search is free (`action` is none) or the cell exists.
pub open spec fn step_kept(g: Seq<Seq<Tile>>, action: Option<ActionType>, s: (usize, usize, bool)) -> bool {
    action is None || grid_check(g, s.0 as int, s.1 as int)
}

/// A step with its cost: free searches cost nothing, others pay `movement_cost`.
pub open spec fn step_with_cost(race: RaceType, g: Seq<Seq<Tile>>, action: Option<ActionType>, s: (usize, usize, bool)) -> ((usize, usize), i32) {
    if action is None {
        ((s.0, s.1), 0i32)
    } else {
        ((s.0, s.1), movement_cost(race, s.2, g, action, ix(s.0 as i32), ix(s.1 as i32)) as i32)
    }
}

/// The cells a search may go to from `p`, in order, with their costs.
pub open spec fn successors_of(race: RaceType, g: Seq<Seq<Tile>>, action: Option<ActionType>, p: (usize, usize)) -> Seq<((usize, usize), i32)> {
    steps(p).filter(|s: (usize, usize, bool)| step_kept(g, action, s)).map_values(
        |s: (usize, usize, bool)| step_with_cost(race, g, action, s),
    )
}

/// The neighbours of `pos` that a search for `action` by a unit of `race` may step to,
/// with the cost of each step.
pub fn successors(race: RaceType, map: &TileMap, action: Option<ActionType>, pos: (usize, usize)) -> (r: Vec<((usize, usize), i32)>)
    ensures
        r@ == successors_of(race, map@, action, pos),
{
    proof {
        map.lemma_view();
    }
    let (x, y) = pos;
    let xu = if x == usize::MAX { 0 } else { x + 1 };
    let xd = if x == 0 { usize::MAX } else { x - 1 };
    let yu = if y == usize::MAX { 0 } else { y + 1 };
    let yd = if y == 0 { usize::MAX } else { y - 1 };
    let candidates: Vec<(usize, usize, bool)> = vec![
        (xu, y, false),
        (xd, y, false),
        (x, yu, false),
        (x, yd, false),
        (xu, yu, true),
        (xu, yd, true),
        (xd, yu, true),
        (xd, yd, true),
    ];
    assert(candidates@ =~= steps(pos));
    let ghost keep = |s: (usize, usize, bool)| step_kept(map@, action, s);
    let ghost cost = |s: (usize, usize, bool)| step_with_cost(race, map@, action, s);
    let mut r: Vec<((usize, usize), i32)> = Vec::new();
    let n = candidates.len();
    let mut i: usize = 0;
    while i < n
        invariant
            n == 8,
            candidates@ == steps(pos),
            i <= n,
            keep == (|s: (usize, usize, bool)| step_kept(map@, action, s)),
            cost == (|s: (usize, usize, bool)| step_with_cost(race, map@, action, s)),
            r@ == candidates@.take(i as int).filter(keep).map_values(cost),
        decreases n - i,
    {
        proof {
            reveal_with_fuel(Seq::<_>::filter, 1);
            assert(candidates@.take(i + 1).drop_last() =~= candidates@.take(i as int));
        }
        let ghost before = candidates@.take(i as int).filter(keep);
        let (nx, ny, diag) = candidates[i];
        match action {
            Some(_) => {
                if map.check_data(nx, ny) {
                    let c = get_movement_cost(race, diag, map, action, Coords(nx as i32, ny as i32));
                    r.push(((nx, ny), c));
                    assert(before.push((nx, ny, diag)).map_values(cost) =~= before.map_values(cost).push(cost((nx, ny, diag))));
                }
            },
            None => {
                r.push(((nx, ny), 0));
                assert(before.push((nx, ny, diag)).map_values(cost) =~= before.map_values(cost).push(cost((nx, ny, diag))));
            },
        }
        i = i + 1;
    }
    assert(candidates@.take(n as int) =~= candidates@);
    r
}

/// `r` is the integer square root of `n`.
pub open spec fn is_isqrt(n: int, r: int) -> bool {
    0 <= r && r * r <= n < (r + 1) * (r + 1)
}

/// The integer square root of `n`.
fn isqrt(n: u64) -> (r: u64)
    requires
        n < 0x8000_0000_0000_0000u64,
    ensures
        is_isqrt(n as int, r as int),
{
    let mut lo: u64 = 0;
    let mut hi: u64 = 0x1_0000_0000;
    assert(n < hi * hi) by (nonlinear_arith)
        requires
            n < 0x8000_0000_0000_0000u64,
            hi == 0x1_0000_0000u64,
    ;
    while hi - lo > 1
        invariant
            lo < hi <= 0x1_0000_0000u64,
            lo * lo <= n,
            n < hi * hi,
        decreases hi - lo,
    {
        let mid = lo + (hi - lo) / 2;
        assert(mid * mid < 0x1_0000_0000_0000_0000) by (nonlinear_arith)
            requires
                mid < 0x1_0000_0000u64,
        ;
        if mid * mid <= n {
            lo = mid;
        } else {
            hi = mid;
        }
    }
    lo
}

/// A coordinate read as a signed number, as `usize as isize` does.
pub open spec fn signed(u: usize) -> int {
    u as isize as int
}

/// Squared straight-line distance between `p` and `goal`, coordinates read as signed numbers.
pub open spec fn squared_gap(p: (usize, usize), goal: (usize, usize)) -> int {
    let dx = signed(p.0) - signed(goal.0);
    let dy = signed(p.1) - signed(goal.1);
    dx * dx + dy * dy
}

/// `h` is the straight-line distance from `p` to `goal`, rounded down and capped
/// at `i32::MAX`.
pub open spec fn heuristic_is(p: (usize, usize), goal: (usize, usize), h: i32) -> bool {
    if squared_gap(p, goal) < 0x4000_0000_0000_0000 {
        is_isqrt(squared_gap(p, goal), h as int)
    } else {
        h == i32::MAX
    }
}

/// Estimated cost from `p` to `goal`: their straight-line distance, rounded
/// down, at most `i32::MAX`.
pub fn heuristic(p: (usize, usize), goal: (usize, usize)) -> (h: i32)
    ensures
        heuristic_is(p, goal, h),
{
    let dx: i128 = (p.0 as isize as i128) - (goal.0 as isize as i128);
    let dy: i128 = (p.1 as isize as i128) - (goal.1 as isize as i128);
    let ax: i128 = if dx < 0 { -dx } else { dx };
    let ay: i128 = if dy < 0 { -dy } else { dy };
    if ax >= 0x8000_0000 || ay >= 0x8000_0000 {
        assert(dx * dx + dy * dy >= 0x4000_0000_0000_0000) by (nonlinear_arith)
            requires
                ax >= 0x8000_0000 || ay >= 0x8000_0000,
                ax == dx || ax == -dx,
                ay == dy || ay == -dy,
                ax >= 0,
                ay >= 0,
        ;
        return i32::MAX;
    }
    assert(0 <= ax * ax < 0x4000_0000_0000_0000 && 0 <= ay * ay < 0x4000_0000_0000_0000) by (nonlinear_arith)
        requires
            0 <= ax < 0x8000_0000,
            0 <= ay < 0x8000_0000,
    ;
    assert(ax * ax == dx * dx && ay * ay == dy * dy) by (nonlinear_arith)
        requires
            ax == dx || ax == -dx,
            ay == dy || ay == -dy,
    ;
    let n: i128 = ax * ax + ay * ay;
    if n >= 0x4000_0000_0000_0000 {
        return i32::MAX;
    }
    let r = isqrt(n as u64);
    assert(r < 0x8000_0000) by (nonlinear_arith)
        requires
            r * r <= n,
            n < 0x4000_0000_0000_0000,
    ;
    r as i32
}

/// True when `p` is the goal.
pub fn is_goal(p: (usize, usize), goal: (usize, usize)) -> (r: bool)
    ensures
        r == (p == goal),
{
    p.0 == goal.0 && p.1 == goal.1
}

/// What `pathfinding::directed::astar::astar` returns when it searches, from
/// `start` to `goal`, the steps that `successors` offers a unit of `race` on grid `g` for `action`.
pub uninterp spec fn astar_route(
    race: RaceType,
    g: Seq<Seq<Tile>>,
    action: Option<ActionType>,
    start: (usize, usize),
    goal: (usize, usize),
) -> Option<(Seq<(usize, usize)>, i32)>;

/// `path` leads from `start` to `goal`, each step one that `successors` offers.
pub open spec fn is_route(
    race: RaceType,
    g: Seq<Seq<Tile>>,
    action: Option<ActionType>,
    start: (usize, usize),
    goal: (usize, usize),
    path: Seq<(usize, usize)>,
) -> bool {
    &&& path.len() >= 1
    &&& path[0] == start
    &&& path.last() == goal
    &&& forall|i: int|
        0 <= i < path.len() - 1 ==> exists|k: int|
            0 <= k < successors_of(race, g, action, #[trigger] path[i]).len() && successors_of(race, g, action, path[i])[k].0
                == path[i + 1]
}

/// Grid of at most 1000 by 1000 cells.
pub open spec fn grid_bounded(g: Seq<Seq<Tile>>) -> bool {
    &&& g.len() <= 1000
    &&& forall|x: int| 0 <= x < g.len() ==> (#[trigger] g[x]).len() <= 1000
}

/// A coordinate whose signed reading lies within a million of the origin.
pub open spec fn near(u: usize) -> bool {
    -0x10_0000 <= signed(u) <= 0x10_0000
}

/// The search stays far from overflowing its `i32` costs: a bounded grid and
/// end points near the origin.
pub open spec fn search_bounded(g: Seq<Seq<Tile>>, start: (usize, usize), goal: (usize, usize)) -> bool {
    &&& grid_bounded(g)
    &&& near(start.0)
    &&& near(start.1)
    &&& near(goal.0)
    &&& near(goal.1)
}

/// Runs `pathfinding::directed::astar::astar` from `start` to `goal` over the steps of
/// `successors`, estimating with `heuristic`. Claimed: the result is `astar_route` of
/// the arguments; a path found starts at `start`, ends at `goal`, and each of its
/// steps is one that `successors` offers (the crate's documentation: the path
/// comprises both ends, built from the successors it was given); and a path is
/// found whenever some route leads from `start` to `goal` (the documentation:
/// `None` only when no path can be found; the costs are never negative and the
/// cells a search can reach are finitely many). Not claimed: that
/// the path is the cheapest, which the crate promises only for a heuristic that
/// never overestimates.
#[verifier::external_body]
fn search(
    race: RaceType,
    map: &TileMap,
    action: Option<ActionType>,
    start: (usize, usize),
    goal: (usize, usize),
) -> (r: Option<(Vec<(usize, usize)>, i32)>)
    requires
        search_bounded(map@, start, goal),
    ensures
        r is None ==> astar_route(race, map@, action, start, goal) is None,
        r matches Some((p, c)) ==> astar_route(race, map@, action, start, goal) == Some((p@, c)),
        r matches Some((p, c)) ==> is_route(race, map@, action, start, goal, p@),
        (exists|p: Seq<(usize, usize)>| is_route(race, map@, action, start, goal, p)) ==> r is Some,
{
    astar(
        &start,
        |p: &(usize, usize)| successors(race, map, action, *p),
        |p: &(usize, usize)| heuristic(*p, goal),
        |p: &(usize, usize)| is_goal(*p, goal),
    )
}

/// Cell `c` of `g` exists and can be walked through.
pub open spec fn walkable_cell(g: Seq<Seq<Tile>>, c: (usize, usize)) -> bool {
    walkable_at(g, c.0 as int, c.1 as int)
}

/// Cell `c` of `g` exists and can be dug.
pub open spec fn diggable_cell(g: Seq<Seq<Tile>>, c: (usize, usize)) -> bool {
    diggable_at(g, c.0 as int, c.1 as int)
}

/// `q` is the longest start of `p` made of cells that can be walked through.
pub open spec fn walk_prefix_of(g: Seq<Seq<Tile>>, p: Seq<(usize, usize)>, q: Seq<(usize, usize)>) -> bool {
    &&& q.len() <= p.len()
    &&& q == p.take(q.len() as int)
    &&& forall|i: int| 0 <= i < q.len() ==> walkable_cell(g, #[trigger] p[i])
    &&& q.len() < p.len() ==> !walkable_cell(g, p[q.len() as int])
}

/// `q` holds the first cell of `p` that can be dug, when `miner` holds and `p`
/// has such a cell; `q` is empty otherwise.
pub open spec fn dig_pick_of(g: Seq<Seq<Tile>>, miner: bool, p: Seq<(usize, usize)>, q: Seq<(usize, usize)>) -> bool {
    if miner && exists|i: int| 0 <= i < p.len() && diggable_cell(g, #[trigger] p[i]) {
        exists|i: int|
            0 <= i < p.len() && diggable_cell(g, #[trigger] p[i]) && q == seq![p[i]] && forall|j: int|
                0 <= j < i ==> !diggable_cell(g, #[trigger] p[j])
    } else {
        q.len() == 0
    }
}

/// True when cell `c` of `map` exists and can be walked through.
fn walkable_here(map: &TileMap, c: (usize, usize)) -> (r: bool)
    ensures
        r == walkable_cell(map@, c),
{
    proof {
        map.lemma_view();
    }
    match map.get_tile(c.0, c.1) {
        Ok((tile, _)) => tile.is_walkable(),
        Err(_) => false,
    }
}

/// True when cell `c` of `map` exists and can be dug.
fn diggable_here(map: &TileMap, c: (usize, usize)) -> (r: bool)
    ensures
        r == diggable_cell(map@, c),
{
    proof {
        map.lemma_view();
    }
    match map.get_tile(c.0, c.1) {
        Ok((tile, _)) => tile.is_diggable(),
        Err(_) => false,
    }
}

impl Unit {
    /// Searches a path from `start` to `goal` with this unit's tastes (see
    /// `get_movement_cost`). A free search (`None`) may cross any cell at no
    /// cost; the other searches cross only cells of the map, each at its cost.
    /// A free search or a walk (`MOVE`) keeps the path up to its first cell that
    /// cannot be walked through; a dig (`DIG`) keeps only the first cell of the
    /// path that a miner can dig. Any other action, or no path at all, gives
    /// `None`; for these three a path is found whenever some route leads to the
    /// goal. The cost is that of the whole path.
    pub fn find_path(
        &self,
        start: (usize, usize),
        goal: (usize, usize),
        map: &TileMap,
        action: Option<ActionType>,
    ) -> (r: Option<(Vec<(usize, usize)>, i32)>)
        requires
            search_bounded(map@, start, goal),
        ensures
            astar_route(self.race, map@, action, start, goal) matches Some((p, c)) ==> is_route(
                self.race,
                map@,
                action,
                start,
                goal,
                p,
            ),
            match astar_route(self.race, map@, action, start, goal) {
                None => r is None,
                Some((p, c)) => match action {
                    None | Some(ActionType::MOVE) => r matches Some((q, k)) && k == c && walk_prefix_of(map@, p, q@),
                    Some(ActionType::DIG) => r matches Some((q, k)) && k == c && dig_pick_of(
                        map@,
                        miner_target(self.job) is Some,
                        p,
                        q@,
                    ),
                    Some(_) => r is None,
                },
            },
            (action is None || action == Some(ActionType::MOVE) || action == Some(ActionType::DIG)) && (exists|p: Seq<
                (usize, usize),
            >| is_route(self.race, map@, action, start, goal, p)) ==> r is Some,
    {
        let (path, cost) = match search(self.race, map, action, start, goal) {
            Some(found) => found,
            None => {
                return None;
            },
        };
        let n = path.len();
        match action {
            None | Some(ActionType::MOVE) => {
                let mut kept: Vec<(usize, usize)> = Vec::new();
                let mut i: usize = 0;
                while i < n && walkable_here(map, path[i])
                    invariant
                        n == path@.len(),
                        i <= n,
                        kept@ == path@.take(i as int),
                        forall|j: int| 0 <= j < i ==> walkable_cell(map@, #[trigger] path@[j]),
                    decreases n - i,
                {
                    kept.push(path[i]);
                    i = i + 1;
                }
                Some((kept, cost))
            },
            Some(ActionType::DIG) => {
                let mut kept: Vec<(usize, usize)> = Vec::new();
                if self.job.get_miner_target().is_ok() {
                    let mut i: usize = 0;
                    while i < n && !diggable_here(map, path[i])
                        invariant
                            n == path@.len(),
                            i <= n,
                            forall|j: int| 0 <= j < i ==> !diggable_cell(map@, #[trigger] path@[j]),
                        decreases n - i,
                    {
                        i = i + 1;
                    }
                    if i < n {
                        kept.push(path[i]);
                        assert(kept@ =~= seq![path@[i as int]]);
                    } else {
                        assert(forall|j: int| 0 <= j < path@.len() ==> !diggable_cell(map@, #[trigger] path@[j]));
                    }
                }
                Some((kept, cost))
            },
            Some(_) => None,
        }
    }
}

} // verus!
