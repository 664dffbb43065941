use vstd::prelude::*;

use crate::coords::Coords;
use crate::game::map::tile::minerals::Mineral;
use crate::game::map::{ix, lemma_small_index, TileMap};
use crate::coords::{chebyshev, distance_fits};
use crate::game::map::search::{search_result, SearchGoal};
use crate::game::map::tile::buildings::BuildingType;
use crate::game::map::tile::Tile;
use crate::game::units::actions::{Action, ActionQueue, ActionType};
use crate::game::units::jobs::{miner_target, JobType};
use crate::game::units::pathfinding::{astar_route, search_bounded, tile_diggable, walk_prefix_of, walkable_cell};
use crate::game::units::{Inventory, Item, RaceType, Unit};
use crate::random::random_direction;

verus! {

/// Grid position of a point, each coordinate reinterpreted as a `usize`.
pub open spec fn cell_of(c: Coords) -> (usize, usize) {
    (c.0 as usize, c.1 as usize)
}

/// The path that a search of kind `action` finds for a unit of `race`.
pub open spec fn route_path(
    race: RaceType,
    g: Seq<Seq<Tile>>,
    action: Option<ActionType>,
    start: (usize, usize),
    goal: (usize, usize),
) -> Seq<(usize, usize)> {
    astar_route(race, g, action, start, goal).unwrap().0
}

/// The cell a unit steps to when a search of kind `action` finds a path whose
/// first two cells can be walked through.
pub open spec fn walk_step(
    race: RaceType,
    g: Seq<Seq<Tile>>,
    action: Option<ActionType>,
    start: (usize, usize),
    goal: (usize, usize),
) -> Option<(usize, usize)> {
    match astar_route(race, g, action, start, goal) {
        Some((p, _)) => if p.len() > 1 && walkable_cell(g, p[0]) && walkable_cell(g, p[1]) {
            Some(p[1])
        } else {
            None
        },
        None => None,
    }
}

/// A free search from `start` to `goal` finds a path and `start` can be walked through.
pub open spec fn dig_opens(race: RaceType, g: Seq<Seq<Tile>>, start: (usize, usize), goal: (usize, usize)) -> bool {
    astar_route(race, g, None, start, goal) is Some && walkable_cell(g, start)
}

/// What a unit reports it is doing: its first action, or wandering where it stands.
pub open spec fn report_of(u: Unit) -> (ActionType, Coords) {
    if u.action_queue@.len() > 0 {
        u.action_queue@[0]
    } else {
        (ActionType::WANDER, u.coords)
    }
}

/// Squared straight-line distance between two points.
pub open spec fn squared_distance(a: Coords, b: Coords) -> int {
    (a.0 - b.0) * (a.0 - b.0) + (a.1 - b.1) * (a.1 - b.1)
}

/// The point `(dx, dy)` away from `c`.
pub open spec fn shifted(c: Coords, dx: int, dy: int) -> Coords {
    Coords((c.0 + dx) as i32, (c.1 + dy) as i32)
}

impl Unit {
    /// Both units agree on everything but their position and remembered path.
    pub open spec fn same_plans(self, other: Unit) -> bool {
        &&& self.inventory.0@ == other.inventory.0@
        &&& self.color == other.color
        &&& self.job == other.job
        &&& self.race == other.race
        &&& self.action_queue@ == other.action_queue@
        &&& self.thinking_speed == other.thinking_speed
        &&& self.moving_speed == other.moving_speed
        &&& self.last_action_timer == other.last_action_timer
        &&& self.last_move_timer == other.last_move_timer
    }

    /// Both units agree on everything but their queue of actions.
    pub open spec fn same_but_queue(self, other: Unit) -> bool {
        &&& self.inventory.0@ == other.inventory.0@
        &&& self.color == other.color
        &&& self.job == other.job
        &&& self.race == other.race
        &&& self.coords == other.coords
        &&& self.path@ == other.path@
        &&& self.thinking_speed == other.thinking_speed
        &&& self.moving_speed == other.moving_speed
        &&& self.last_action_timer == other.last_action_timer
        &&& self.last_move_timer == other.last_move_timer
    }

    /// Same inventory, color, job, race and speeds.
    pub open spec fn same_kind(self, other: Unit) -> bool {
        &&& self.inventory.0@ == other.inventory.0@
        &&& self.color == other.color
        &&& self.job == other.job
        &&& self.race == other.race
        &&& self.thinking_speed == other.thinking_speed
        &&& self.moving_speed == other.moving_speed
    }

    /// Same position, remembered path and queue of actions.
    pub open spec fn same_place(self, other: Unit) -> bool {
        &&& self.coords == other.coords
        &&& self.path@ == other.path@
        &&& self.action_queue@ == other.action_queue@
    }

    /// The timers read `action` and `moving`.
    pub open spec fn timers_at(self, action: int, moving: int) -> bool {
        self.last_action_timer == action && self.last_move_timer == moving
    }

    /// What `think` needs to run without overflowing or panicking: timers that
    /// fit once advanced by `delta`, and for the first action of the queue,
    /// when its timer has run out, searches that stay bounded; a dig on a
    /// mineral or a haul only by a miner of some mineral; a haul from a cell of
    /// a full size map.
    pub open spec fn can_think(u: Unit, map: TileMap, delta: i32) -> bool {
        let g = map@;
        let at = u.last_action_timer + delta;
        let mt = u.last_move_timer + delta;
        let q = u.action_queue@;
        &&& i32::MIN <= at <= i32::MAX
        &&& i32::MIN <= mt <= i32::MAX
        &&& q.len() > 0 ==> match q[0] {
            (ActionType::MOVE, m) => mt >= u.moving_speed ==> search_bounded(g, cell_of(u.coords), cell_of(m)),
            (ActionType::DIG, d) => (u.job is MINER && at >= u.moving_speed) ==> {
                &&& distance_fits(u.coords, d)
                &&& chebyshev(u.coords, d) <= 1 ==> {
                    &&& search_bounded(g, cell_of(u.coords), cell_of(d))
                    &&& (dig_opens(u.race, g, cell_of(u.coords), cell_of(d)) && map.spec_check(ix(d.0), ix(d.1))
                        && tile_diggable(map.cell(ix(d.0), ix(d.1)))) ==> miner_target(u.job) is Some
                }
            },
            (ActionType::WANDER, w) => at >= u.thinking_speed ==> {
                &&& distance_fits(u.coords, w)
                &&& (q.len() == 1 && squared_distance(u.coords, w) < 57) ==> forall|dx: int, dy: int|
                    -1 <= dx <= 1 && -1 <= dy <= 1 ==> {
                        &&& i32::MIN <= u.coords.0 + dx <= i32::MAX
                        &&& i32::MIN <= u.coords.1 + dy <= i32::MAX
                        &&& search_bounded(g, cell_of(u.coords), cell_of(#[trigger] shifted(u.coords, dx, dy)))
                    }
            },
            (ActionType::HAUL, _) => (u.job is MINER && at >= u.thinking_speed) ==> {
                &&& map.full_size()
                &&& 0 <= u.coords.0 < 100
                &&& 0 <= u.coords.1 < 100
                &&& miner_target(u.job) is Some
            },
            _ => true,
        }
    }

    /// What one call of `think` does to unit `u` (becoming `v`) and its map
    /// (`m0` becoming `m1`) after `delta` milliseconds. Both timers advance by
    /// `delta`; then, by the first action of the queue:
    /// - a move, once the move timer reached the moving speed: a step towards
    ///   its target, or, when no step is possible, a queue of a lone wander
    ///   where the unit stands; the move timer restarts;
    /// - a dig by a miner, once the action timer reached the moving speed: a
    ///   target more than a tile away is walked to first (a move put first, the
    ///   dig put last); else the unit digs (see `dig`): when that hands an
    ///   action back, a full inventory takes one more of the miner's mineral and
    ///   a haul replaces the first action; the action timer restarts, unless
    ///   the dig failed, which ends with the dig's error;
    /// - a wander, once the action timer reached the thinking speed: far (a
    ///   squared distance of 57 or more) from its spot with nothing else
    ///   queued, the unit forgets its path and moves back to it; with nothing
    ///   else queued it steps at random around itself; otherwise a move to
    ///   where it stands replaces the wander and the next action;
    /// - a build does nothing; a wait drops the last action of the queue;
    /// - a haul by a miner, once the action timer reached the thinking speed:
    ///   eleven searches for a stockpile of its mineral, each found one putting
    ///   a move there first;
    /// - anything else (or nothing) fails with the unit's position.
    /// Success reports the first action of the queue, or a wander where the
    /// unit stands when the queue is empty.
    pub open spec fn thought(u: Unit, v: Unit, m0: TileMap, m1: TileMap, delta: i32, r: Result<(ActionType, Coords), Coords>) -> bool {
        let g = m0@;
        let at = u.last_action_timer + delta;
        let mt = u.last_move_timer + delta;
        let q = u.action_queue@;
        let kept_map = m1.data@ == m0.data@;
        let reported = r == Ok::<(ActionType, Coords), Coords>(report_of(v));
        let waited = v.same_kind(u) && v.same_place(u) && v.timers_at(at, mt);
        let failed = r == Err::<(ActionType, Coords), Coords>(u.coords) && waited && kept_map;
        if q.len() == 0 {
            failed
        } else {
            match q[0] {
                (ActionType::MOVE, m) => kept_map && reported && v.same_kind(u) && if mt < u.moving_speed {
                    waited
                } else if Unit::can_step(u.race, g, u.coords, m) {
                    Unit::stepped_toward(u, v, g, m) && v.action_queue@ == q && v.timers_at(at, 0)
                } else {
                    &&& v.coords == u.coords
                    &&& v.path@ == u.path@
                    &&& v.action_queue@ == seq![(ActionType::WANDER, u.coords)]
                    &&& v.timers_at(at, 0)
                },
                (ActionType::DIG, d) => match u.job {
                    JobType::MINER(tt) => if at < u.moving_speed {
                        waited && kept_map && reported
                    } else if chebyshev(u.coords, d) > 1 {
                        &&& kept_map && reported && v.same_kind(u)
                        &&& v.coords == u.coords && v.path@ == u.path@
                        &&& v.action_queue@ == seq![(ActionType::MOVE, d)] + q.push((ActionType::DIG, d))
                        &&& v.timers_at(0, mt)
                    } else {
                        let opens = dig_opens(u.race, g, cell_of(u.coords), cell_of(d));
                        let here = m0.spec_check(ix(d.0), ix(d.1));
                        let t = m0.cell(ix(d.0), ix(d.1));
                        if opens && here && !tile_diggable(t) {
                            &&& kept_map && reported
                            &&& v.color == u.color && v.job == u.job && v.race == u.race
                            &&& v.thinking_speed == u.thinking_speed && v.moving_speed == u.moving_speed
                            &&& v.coords == u.coords && v.path@ == u.path@
                            &&& v.timers_at(0, mt)
                            &&& if u.inventory.0@.len() >= 10 {
                                &&& v.inventory.0@ == u.inventory.0@.push(Item::Mineral(tt))
                                &&& v.action_queue@ == seq![(ActionType::HAUL, u.coords)] + q.drop_first()
                            } else {
                                &&& v.inventory.0@ == u.inventory.0@
                                &&& v.action_queue@ == q.drop_first()
                            }
                        } else {
                            &&& r == Err::<(ActionType, Coords), Coords>(u.coords)
                            &&& waited
                            &&& if opens && here && t.1 == Some(Mineral(miner_target(u.job).unwrap())) {
                                TileMap::spec_dug(&m0, &m1, d, 0)
                            } else {
                                kept_map
                            }
                        }
                    },
                    _ => failed,
                },
                (ActionType::WANDER, w) => kept_map && reported && v.same_kind(u) && v.timers_at(at, mt) && if at
                    < u.thinking_speed {
                    v.same_place(u)
                } else if squared_distance(u.coords, w) >= 57 && q.len() == 1 {
                    v.coords == u.coords && v.path@.len() == 0 && v.action_queue@ == seq![(ActionType::MOVE, w)]
                } else if q.len() < 2 {
                    &&& v.action_queue@ == q
                    &&& exists|dx: int, dy: int|
                        -1 <= dx <= 1 && -1 <= dy <= 1 && Unit::stepped_toward(u, v, g, #[trigger] shifted(u.coords, dx, dy))
                } else {
                    v.coords == u.coords && v.path@ == u.path@ && v.action_queue@ == seq![(ActionType::MOVE, u.coords)]
                        + q.drop_first()
                },
                (ActionType::BUILD, _) => waited && kept_map && reported,
                (ActionType::WAIT, _) => {
                    &&& kept_map && reported && v.same_kind(u)
                    &&& v.coords == u.coords && v.path@ == u.path@
                    &&& v.action_queue@ == q.drop_last()
                    &&& v.timers_at(at, mt)
                },
                (ActionType::HAUL, _) => match u.job {
                    JobType::MINER(_) => {
                        &&& kept_map && reported && v.same_kind(u)
                        &&& v.coords == u.coords && v.path@ == u.path@
                        &&& v.timers_at(at, mt)
                        &&& v.action_queue@ == if at < u.thinking_speed {
                            q
                        } else {
                            match search_result(
                                g,
                                u.coords,
                                SearchGoal::Building(BuildingType::Stockpile(miner_target(u.job).unwrap())),
                            ) {
                                Some(s) => Seq::new(11, |i: int| (ActionType::MOVE, s)) + q,
                                None => q,
                            }
                        }
                    },
                    _ => failed,
                },
                _ => failed,
            }
        }
    }

    /// `after` stands on `c`, and remembers the walkable start of the path that a
    /// search of kind `action` from `before`'s position to `goal` found.
    pub open spec fn placed(before: Unit, after: Unit, g: Seq<Seq<Tile>>, action: Option<ActionType>, goal: (usize, usize), c: (usize, usize)) -> bool {
        &&& after.coords == Coords(c.0 as i32, c.1 as i32)
        &&& walk_prefix_of(g, route_path(before.race, g, action, cell_of(before.coords), goal), after.path@)
    }

    /// A unit of `race` at `from` can take a step towards `m`: along a walk, or
    /// else along a free search.
    pub open spec fn can_step(race: RaceType, g: Seq<Seq<Tile>>, from: Coords, m: Coords) -> bool {
        ||| walk_step(race, g, Some(ActionType::MOVE), cell_of(from), cell_of(m)) is Some
        ||| walk_step(race, g, None, cell_of(from), cell_of(m)) is Some
    }

    /// Where `after` stands and what path it remembers once `before` tried to
    /// step towards `m`: the next cell of a walk, else of a free search; with no
    /// step, where it was.
    pub open spec fn stepped_toward(before: Unit, after: Unit, g: Seq<Seq<Tile>>, m: Coords) -> bool {
        match walk_step(before.race, g, Some(ActionType::MOVE), cell_of(before.coords), cell_of(m)) {
            Some(c) => Unit::placed(before, after, g, Some(ActionType::MOVE), cell_of(m), c),
            None => match walk_step(before.race, g, None, cell_of(before.coords), cell_of(m)) {
                Some(c) => Unit::placed(before, after, g, None, cell_of(m), c),
                None => after.coords == before.coords && after.path@ == before.path@,
            },
        }
    }

    /// Moves the unit one cell towards `m`. First along a walk: the path of a
    /// `MOVE` search, when its first two cells can be walked through; else along
    /// a free search, likewise. The path is remembered. `None`, and nothing
    /// changes, when neither works.
    pub fn move_to(&mut self, terrain: &mut TileMap, m: Coords) -> (r: Option<()>)
        requires
            search_bounded(old(terrain)@, cell_of(old(self).coords), cell_of(m)),
        ensures
            final(terrain).data@ == old(terrain).data@,
            r is Some == Unit::can_step(old(self).race, old(terrain)@, old(self).coords, m),
            Unit::stepped_toward(*old(self), *final(self), old(terrain)@, m),
            final(self).same_plans(*old(self)),
    {
        let start = self.coords.to_tuple();
        let goal = m.to_tuple();
        proof {
            terrain.lemma_view();
        }
        if let Some((path, _)) = self.find_path(start, goal, terrain, Some(ActionType::MOVE)) {
            if path.len() > 1 {
                let next_coords = Coords(path[1].0 as i32, path[1].1 as i32);
                assert(walkable_cell(terrain@, path@[1]));
                if terrain.is_walkable(next_coords) {
                    self.coords = next_coords;
                    self.path = path;
                    return Some(());
                }
            }
        }
        if let Some((path, _)) = self.find_path(start, goal, terrain, None) {
            if path.len() > 1 {
                let next_coords = Coords(path[1].0 as i32, path[1].1 as i32);
                assert(walkable_cell(terrain@, path@[1]));
                if terrain.is_walkable(next_coords) {
                    self.coords = next_coords;
                    self.path = path;
                    return Some(());
                }
            }
        }
        None
    }

    /// The miner's work at `coords`. When a free search towards it opens on the
    /// unit's own cell and `coords` lies in the map: a tile that cannot be dug ends
    /// the current action and hands back a `DIG` at the unit's position; a tile
    /// of the mineral the miner digs is dug out (it becomes air) and the unit's
    /// position is handed back as an error, as it is in every other case, with
    /// nothing changed.
    pub fn dig(&mut self, terrain: &mut TileMap, coords: &Coords) -> (r: Result<Vec<(ActionType, Coords)>, Coords>)
        requires
            search_bounded(old(terrain)@, cell_of(old(self).coords), cell_of(*coords)),
            dig_opens(old(self).race, old(terrain)@, cell_of(old(self).coords), cell_of(*coords)) && old(terrain).spec_check(
                ix(coords.0),
                ix(coords.1),
            ) ==> if tile_diggable(old(terrain).cell(ix(coords.0), ix(coords.1))) {
                miner_target(old(self).job) is Some
            } else {
                old(self).action_queue@.len() > 0
            },
        ensures
            ({
                let opens = dig_opens(old(self).race, old(terrain)@, cell_of(old(self).coords), cell_of(*coords));
                let here = old(terrain).spec_check(ix(coords.0), ix(coords.1));
                let t = old(terrain).cell(ix(coords.0), ix(coords.1));
                if opens && here && !tile_diggable(t) {
                    &&& r matches Ok(v) && v@ == seq![(ActionType::DIG, old(self).coords)]
                    &&& final(self).action_queue@ == old(self).action_queue@.drop_first()
                    &&& final(self).same_but_queue(*old(self))
                    &&& final(terrain).data@ == old(terrain).data@
                } else {
                    &&& r == Err::<Vec<(ActionType, Coords)>, Coords>(old(self).coords)
                    &&& *final(self) == *old(self)
                    &&& if opens && here && t.1 == Some(Mineral(miner_target(old(self).job).unwrap())) {
                        TileMap::spec_dug(old(terrain), final(terrain), *coords, 0)
                    } else {
                        final(terrain).data@ == old(terrain).data@
                    }
                }
            }),
    {
        let goal = *coords;
        let start = self.coords;
        proof {
            terrain.lemma_view();
        }
        let found = self.find_path(start.to_tuple(), goal.to_tuple(), terrain, None);
        if let Some((dig_path, _)) = found {
            if dig_path.len() > 0 {
                let next_pos = Coords(dig_path[0].0 as i32, dig_path[0].1 as i32);
                proof {
                    lemma_small_index(start.0);
                    lemma_small_index(start.1);
                }
                assert(next_pos == start);
                if let Ok((tile, _)) = terrain.get_tile_from_coords(goal) {
                    if tile.is_diggable() {
                        if start.distance_in_tiles(&next_pos) < 2 {
                            let mineral = match tile.get_mineral() {
                                Ok(m) => m,
                                Err(_) => {
                                    proof {
                                        assert(false);
                                    }
                                    return Err(self.coords);
                                },
                            };
                            let target = match self.job.get_miner_target() {
                                Ok(t) => t,
                                Err(_) => {
                                    proof {
                                        assert(false);
                                    }
                                    return Err(self.coords);
                                },
                            };
                            if mineral.0 == target {
                                match terrain.dig_radius(&goal, 0) {
                                    Ok(()) => {},
                                    Err(c) => {
                                        return Err(c);
                                    },
                                }
                            }
                        }
                    } else {
                        let _ = self.action_queue.remove(0);
                        let mut actions: Vec<(ActionType, Coords)> = Vec::new();
                        actions.push((ActionType::DIG, next_pos));
                        assert(actions@ =~= seq![(ActionType::DIG, start)]);
                        return Ok(actions);
                    }
                }
            }
        }
        Err(self.coords)
    }

    /// Decides and does the unit's next step; see `Unit::thought` for what
    /// happens for each first action of the queue. Fails with the unit's
    /// position when it has nothing to do, or a first action that it cannot do.
    pub fn think(&mut self, map: &mut TileMap, delta_time: i32) -> (r: Result<(ActionType, Coords), Coords>)
        requires
            Unit::can_think(*old(self), *old(map), delta_time),
        ensures
            Unit::thought(*old(self), *final(self), *old(map), *final(map), delta_time, r),
    {
        self.last_action_timer = self.last_action_timer + delta_time;
        self.last_move_timer = self.last_move_timer + delta_time;
        let first = if self.action_queue.len() > 0 {
            Some(self.action_queue[0])
        } else {
            None
        };
        match first {
            Some((ActionType::MOVE, coords)) => {
                if self.last_move_timer >= self.moving_speed {
                    if self.move_to(map, coords).is_none() {
                        self.action_queue.clear();
                        self.action_queue.push((ActionType::WANDER, self.coords));
                    }
                    self.last_move_timer = 0;
                }
            },
            Some((ActionType::DIG, coords)) => {
                match self.job {
                    JobType::MINER(tile_type) => {
                        if self.last_action_timer >= self.moving_speed {
                            if self.coords.distance_in_tiles(&coords) > 1 {
                                let ghost q0 = self.action_queue@;
                                self.action_queue.do_later(Action(ActionType::DIG, coords));
                                self.action_queue.do_now(Action(ActionType::MOVE, coords));
                            } else {
                                let actions = match self.dig(map, &coords) {
                                    Ok(a) => a,
                                    Err(c) => {
                                        return Err(c);
                                    },
                                };
                                let item = Item::Mineral(tile_type);
                                if Inventory(self.inventory.0.clone()).is_full() {
                                    self.inventory.add(item);
                                    self.action_queue.do_now(Action(ActionType::HAUL, self.coords));
                                }
                                if actions.len() > 1 {
                                    let mut i: usize = 0;
                                    while i < actions.len()
                                        decreases actions.len() - i,
                                    {
                                        self.action_queue.push(actions[i]);
                                        i = i + 1;
                                    }
                                }
                            }
                            self.last_action_timer = 0;
                        }
                    },
                    _ => {
                        return Err(self.coords);
                    },
                }
            },
            Some((ActionType::WANDER, coords)) => {
                if self.last_action_timer >= self.thinking_speed {
                    let dx = (self.coords.0 as i128) - (coords.0 as i128);
                    let dy = (self.coords.1 as i128) - (coords.1 as i128);
                    assert(0 <= dx * dx <= 0x1_0000_0000_0000_0000 && 0 <= dy * dy <= 0x1_0000_0000_0000_0000)
                        by (nonlinear_arith)
                        requires
                            -0x1_0000_0000 <= dx <= 0x1_0000_0000,
                            -0x1_0000_0000 <= dy <= 0x1_0000_0000,
                    ;
                    if dx * dx + dy * dy >= 57 && self.action_queue.len() == 1 {
                        self.path.clear();
                        let _ = self.action_queue.remove(0);
                        self.action_queue.do_now(Action(ActionType::MOVE, coords));
                    } else if self.action_queue.len() < 2 {
                        let step_x = random_direction();
                        let step_y = random_direction();
                        assert(squared_distance(self.coords, coords) == dx * dx + dy * dy);
                        assert(search_bounded(
                            map@,
                            cell_of(self.coords),
                            cell_of(shifted(self.coords, step_x as int, step_y as int)),
                        ));
                        let target = Coords(self.coords.0 + step_x, self.coords.1 + step_y);
                        let _ = self.move_to(map, target);
                    } else {
                        let ghost q0 = self.action_queue@;
                        let _ = self.action_queue.remove(0);
                        self.action_queue.do_now(Action(ActionType::MOVE, self.coords));
                        assert(q0.remove(0) =~= q0.drop_first());
                    }
                }
            },
            Some((ActionType::BUILD, _)) => {},
            Some((ActionType::WAIT, _)) => {
                let _ = self.action_queue.pop();
            },
            Some((ActionType::HAUL, _)) => {
                match self.job {
                    JobType::MINER(_) => {
                        if self.last_action_timer >= self.thinking_speed {
                            let ghost q0 = self.action_queue@;
                            let ghost before = *self;
                            let ghost found = search_result(
                                map@,
                                self.coords,
                                SearchGoal::Building(BuildingType::Stockpile(miner_target(self.job).unwrap())),
                            );
                            let mut count: usize = self.race.patience();
                            loop
                                invariant_except_break
                                    count <= 10,
                                    self.same_kind(before),
                                    self.coords == before.coords,
                                    self.path@ == before.path@,
                                    self.timers_at(before.last_action_timer as int, before.last_move_timer as int),
                                    map.full_size(),
                                    0 <= self.coords.0 < 100,
                                    0 <= self.coords.1 < 100,
                                    miner_target(self.job) is Some,
                                    found == search_result(
                                        map@,
                                        self.coords,
                                        SearchGoal::Building(BuildingType::Stockpile(miner_target(self.job).unwrap())),
                                    ),
                                    self.action_queue@ == match found {
                                        Some(s) => Seq::new((10 - count) as nat, |i: int| (ActionType::MOVE, s)) + q0,
                                        None => q0,
                                    },
                                ensures
                                    self.same_kind(before),
                                    self.coords == before.coords,
                                    self.path@ == before.path@,
                                    self.timers_at(before.last_action_timer as int, before.last_move_timer as int),
                                    self.action_queue@ == match found {
                                        Some(s) => Seq::new(11, |i: int| (ActionType::MOVE, s)) + q0,
                                        None => q0,
                                    },
                                decreases count,
                            {
                                let target = match self.job.get_miner_target() {
                                    Ok(t) => t,
                                    Err(_) => {
                                        proof {
                                            assert(false);
                                        }
                                        break;
                                    },
                                };
                                match map.find_closest_building(self.coords, BuildingType::Stockpile(target)) {
                                    Ok(stockpile) => {
                                        let ghost before = self.action_queue@;
                                        self.action_queue.do_next(Action(ActionType::MOVE, stockpile));
                                        assert(self.action_queue@ =~= Seq::new((10 - count + 1) as nat, |i: int| (ActionType::MOVE, stockpile)) + q0);
                                    },
                                    Err(_) => {},
                                }
                                if count == 0 {
                                    break;
                                } else {
                                    count = count - 1;
                                }
                            }
                        }
                    },
                    _ => {
                        return Err(self.coords);
                    },
                }
            },
            _ => {
                return Err(self.coords);
            },
        }
        if self.action_queue.len() > 0 {
            Ok(self.action_queue[0])
        } else {
            Ok((ActionType::WANDER, self.coords))
        }
    }
}

} // verus!
