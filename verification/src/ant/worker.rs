use vstd::prelude::*;

use super::direction::{can_move, direction_of_index, moved, Direction};
use super::{column_readable, gravity_readable, passable, Action};
use crate::chunk::manager::{chunk_pos_of, trunc_div, LoadedChunk, Manager as ChunkManager};
use crate::chunk::tile::{TileFlag, TRAVERSABLE};
use crate::chunk::WIDTH;

verus! {

/// A worker ant; `last_action` is the game time (milliseconds) of its last action.
#[derive(Clone, Copy)]
pub struct Worker {
    pub pos: (i32, i32, i32),
    pub last_action: u64,
}

/// Where an ant at `pos` ends up after trying to walk along `d`: into the next
/// tile when it is passable, else climbing on top of it when the tile above it is
/// passable, else nowhere.
pub open spec fn walk_dest(m: &ChunkManager, pos: (i32, i32, i32), d: Direction) -> (i32, i32, i32) {
    let dest = (moved(d, pos).0 as i32, moved(d, pos).1 as i32, moved(d, pos).2 as i32);
    let climb = (dest.0, dest.1, (dest.2 + 1) as i32);
    match m.spec_tile_at(dest) {
        Some(t) => if t.properties.bits & TRAVERSABLE == TRAVERSABLE {
            dest
        } else if passable(m, climb) {
            climb
        } else {
            pos
        },
        None => pos,
    }
}

/// Walking from `pos` along `d` neither overflows nor reads outside a chunk.
pub open spec fn walk_ok(m: &ChunkManager, pos: (i32, i32, i32), d: Direction) -> bool {
    let dest = (moved(d, pos).0 as i32, moved(d, pos).1 as i32, moved(d, pos).2 as i32);
    &&& can_move(d, pos)
    &&& m.readable(dest)
    &&& dest.2 < i32::MAX
    &&& m.readable((dest.0, dest.1, (dest.2 + 1) as i32))
}

/// Of the six draws a wandering worker may make, four (north, east, south and
/// west, each its own direction) make it walk, and two (up and down) do not.
pub proof fn law_wander_draws()
    ensures
        forall|n: int|
            0 <= n <= 5 ==> ((#[trigger] direction_of_index(n) != Direction::Up && direction_of_index(n)
                != Direction::Down) <==> 2 <= n),
        forall|i: int, j: int|
            0 <= i <= 5 && 0 <= j <= 5 && i != j ==> #[trigger] direction_of_index(i) != #[trigger] direction_of_index(j),
{
}

impl Worker {
    /// A worker standing at `pos`, having last acted at time `now`.
    pub fn new(pos: (i32, i32, i32), now: u64) -> (r: Worker)
        ensures
            r.pos == pos,
            r.last_action == now,
    {
        Worker { pos, last_action: now }
    }

    /// Where the worker stands.
    pub fn pos(&self) -> (r: (i32, i32, i32))
        ensures
            r == self.pos,
    {
        self.pos
    }

    /// Moves the worker to `pos`.
    pub fn set_pos(&mut self, pos: (i32, i32, i32))
        ensures
            final(self).pos == pos,
            final(self).last_action == old(self).last_action,
    {
        self.pos = pos;
    }

    /// Game time of the worker's last action.
    pub fn last_action(&self) -> (r: u64)
        ensures
            r == self.last_action,
    {
        self.last_action
    }

    /// Records `now` as the time of the worker's last action.
    pub fn reset_last_action(&mut self, now: u64)
        ensures
            final(self).last_action == now,
            final(self).pos == old(self).pos,
    {
        self.last_action = now;
    }

    /// Compares the chunk's position with bounds derived from the worker's
    /// position (the bounds leave no room, so no chunk ever matches).
    pub open spec fn spec_is_in(&self, c: &LoadedChunk) -> bool {
        let w = WIDTH as int;
        let (x_min, x_max) = (trunc_div(self.pos.0 as int, w), trunc_div(self.pos.0 + w, w) - 1);
        let (y_min, y_max) = (trunc_div(self.pos.1 as int, w), trunc_div(self.pos.1 + w, w) - 1);
        c.pos.0 > x_min && c.pos.0 < x_max && c.pos.1 > y_min && c.pos.1 < y_max
    }

    /// True when the worker stands inside chunk `c`.
    pub fn is_in(&self, c: &LoadedChunk) -> (r: bool)
        requires
            self.pos.0 + 8 <= i32::MAX,
            self.pos.1 + 8 <= i32::MAX,
        ensures
            r == self.spec_is_in(c),
    {
        let (x, y, width) = (c.pos.0, c.pos.1, 8i32);
        let (x_min, x_max) = (self.pos.0 / width, (self.pos.0 + width) / width - 1);
        let (y_min, y_max) = (self.pos.1 / width, (self.pos.1 + width) / width - 1);
        if x > x_min && x < x_max && y > y_min && y < y_max {
            true
        } else {
            false
        }
    }

    /// Wanders: draws a direction at random (handed back as ghost `r.1`), then
    /// walks along it when it is horizontal, and does nothing when it is up or down.
    pub fn think(&mut self) -> (r: (Option<Action>, Ghost<Direction>))
        ensures
            *final(self) == *old(self),
            exists|n: int| 0 <= n <= 5 && r.1@ == direction_of_index(n),
            (r.1@ == Direction::Up || r.1@ == Direction::Down) ==> r.0 is None,
            !(r.1@ == Direction::Up || r.1@ == Direction::Down) ==> (r.0 matches Some(a) && a matches Action::Walk(
                d,
            ) && d == r.1@),
    {
        let direction = Direction::random();
        (Self::decide(direction), Ghost(direction))
    }

    /// The decision for a drawn direction: walk along a horizontal one.
    pub fn decide(direction: Direction) -> (r: Option<Action>)
        ensures
            (direction == Direction::Up || direction == Direction::Down) ==> r is None,
            !(direction == Direction::Up || direction == Direction::Down) ==> (r matches Some(a) && a matches Action::Walk(d) && d == direction),
    {
        match direction {
            Direction::Up | Direction::Down => None,
            _ => Some(Action::Walk(direction)),
        }
    }

    /// True when a worker at `pos` can try to walk along `direction` and then
    /// fall, reading only tiles inside their chunk's content.
    pub fn can_walk(chunk_mngr: &ChunkManager, pos: (i32, i32, i32), direction: Direction) -> (r: bool)
        requires
            chunk_mngr.wf(),
        ensures
            r == (walk_ok(chunk_mngr, pos, direction) && gravity_readable(
                chunk_mngr,
                walk_dest(chunk_mngr, pos, direction),
            )),
    {
        let off = direction.to_offset();
        let (x, y, z) = (pos.0 as i64 + off.0 as i64, pos.1 as i64 + off.1 as i64, pos.2 as i64 + off.2 as i64);
        let lo = i32::MIN as i64;
        let hi = i32::MAX as i64;
        if x < lo || x > hi || y < lo || y > hi || z < lo || z > hi {
            return false;
        }
        let dest = direction.add_to(&pos);
        if !chunk_mngr.readable_at(dest) || dest.2 == i32::MAX {
            return false;
        }
        if !chunk_mngr.readable_at((dest.0, dest.1, dest.2 + 1)) {
            return false;
        }
        let mut w = Worker::new(pos, 0);
        w.walk(chunk_mngr, direction);
        column_readable(chunk_mngr, w.pos)
    }

    /// Steps along `direction`, climbing one tile when the way is blocked.
    pub fn walk(&mut self, chunk_mngr: &ChunkManager, direction: Direction)
        requires
            chunk_mngr.wf(),
            walk_ok(chunk_mngr, old(self).pos, direction),
        ensures
            final(self).pos == walk_dest(chunk_mngr, old(self).pos, direction),
            final(self).last_action == old(self).last_action,
    {
        let dest = direction.add_to(&self.pos());
        if let Some(tile) = chunk_mngr.tile_at(dest) {
            if tile.properties.contains(TileFlag::from_bits_retain(TRAVERSABLE)) {
                self.set_pos(dest);
            } else {
                let climb_dest = Direction::Up.add_to(&dest);
                if let Some(climb_tile) = chunk_mngr.tile_at(climb_dest) {
                    if climb_tile.properties.contains(TileFlag::from_bits_retain(TRAVERSABLE)) {
                        self.set_pos(climb_dest);
                    }
                }
            }
        }
    }
}

} // verus!
