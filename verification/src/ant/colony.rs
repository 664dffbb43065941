use vstd::prelude::*;

use super::direction::Direction;
use super::queen::{Egg, Queen};
use super::worker::{walk_dest, walk_ok, Worker};
use super::{apply_gravity, column_readable, gravity_readable, gravity_rest, Action, ACTION_DELAY_MS};
use crate::chunk::manager::Manager as ChunkManager;
use crate::chunk::SEA_LEVEL;

verus! {

/// A horizontal direction, the only ones workers walk along.
pub open spec fn horizontal(d: Direction) -> bool {
    d != Direction::Up && d != Direction::Down
}

/// A walk along any horizontal direction from `pos`, and the fall after it,
/// neither overflow nor read outside a chunk.
pub open spec fn walks_safe(m: &ChunkManager, pos: (i32, i32, i32)) -> bool {
    forall|d: Direction| #[trigger] horizontal(d) ==> walk_ok(m, pos, d) && gravity_readable(m, walk_dest(m, pos, d))
}

/// Nothing worker `a` may do in a tick at time `now` overflows or reads outside a
/// chunk: it can fall from where it stands and, when it is due to act, walk any
/// horizontal way and fall from there.
pub open spec fn ant_safe(m: &ChunkManager, a: Worker, now: u64) -> bool {
    &&& gravity_readable(m, a.pos)
    &&& is_due(a.last_action, now) ==> walks_safe(m, a.pos)
}

/// True when a walk along any horizontal direction from `pos`, and the fall
/// after it, neither overflow nor read outside a chunk.
pub fn walks_are_safe(chunk_mngr: &ChunkManager, pos: (i32, i32, i32)) -> (r: bool)
    requires
        chunk_mngr.wf(),
    ensures
        r == walks_safe(chunk_mngr, pos),
{
    let ok = Worker::can_walk(chunk_mngr, pos, Direction::North)
        && Worker::can_walk(chunk_mngr, pos, Direction::East) && Worker::can_walk(chunk_mngr, pos, Direction::South)
        && Worker::can_walk(chunk_mngr, pos, Direction::West);
    proof {
        if ok {
            assert forall|d: Direction| #[trigger] horizontal(d) implies walk_ok(chunk_mngr, pos, d) && gravity_readable(
                chunk_mngr,
                walk_dest(chunk_mngr, pos, d),
            ) by {
                match d {
                    Direction::North => {},
                    Direction::East => {},
                    Direction::South => {},
                    Direction::West => {},
                    _ => {},
                }
            }
        } else {
            assert(horizontal(Direction::North) && horizontal(Direction::East) && horizontal(Direction::South)
                && horizontal(Direction::West));
        }
    }
    ok
}

/// True when nothing worker `a` may do in a tick at time `now` overflows or
/// reads outside a chunk.
pub fn ant_is_safe(chunk_mngr: &ChunkManager, a: &Worker, now: u64) -> (r: bool)
    requires
        chunk_mngr.wf(),
    ensures
        r == ant_safe(chunk_mngr, *a, now),
{
    let due = now > a.last_action && now - a.last_action > ACTION_DELAY_MS;
    column_readable(chunk_mngr, a.pos) && (!due || walks_are_safe(chunk_mngr, a.pos))
}

/// An action is due once more than `ACTION_DELAY_MS` have passed since the last one.
pub open spec fn is_due(last_action: u64, now: u64) -> bool {
    now > last_action + ACTION_DELAY_MS
}

/// `a1` is what a tick makes of worker `a0`: when due it may walk one step (and
/// then records `now`), then it falls.
pub open spec fn ant_ticked(m: &ChunkManager, a0: Worker, a1: Worker, now: u64) -> bool {
    ||| a1.last_action == a0.last_action && gravity_rest(m, a0.pos, a1.pos)
    ||| is_due(a0.last_action, now) && a1.last_action == now && exists|d: Direction|
        #[trigger] horizontal(d) && gravity_rest(m, walk_dest(m, a0.pos, d), a1.pos)
}

/// A colony: its queen and its workers.
pub struct Colony {
    pub name: String,
    pub queen: Queen,
    pub ants: Vec<Worker>,
}

/// Index of the player's colony.
pub const PLAYER: usize = 0;
/// Index of the computer's colony.
pub const AI: usize = 1;

impl Colony {
    /// Everything a tick at time `now` may do in this colony is safe: the queen,
    /// who never walks, can fall, and so can the workers she hatches there.
    pub open spec fn safe(&self, m: &ChunkManager, now: u64) -> bool {
        &&& gravity_readable(m, self.queen.pos)
        &&& forall|i: int| 0 <= i < self.ants@.len() ==> ant_safe(m, #[trigger] self.ants@[i], now)
    }

    /// `new` is what one tick at time `now` makes of colony `old`.
    pub open spec fn spec_ticked(m: &ChunkManager, old: &Colony, new: &Colony, now: u64) -> bool {
        let due = is_due(old.queen.last_action, now);
        let breeds = due && old.queen.eggs@.len() > 0;
        let born = if breeds { old.queen.eggs@.len() } else { 0 };
        &&& new.name@ == old.name@
        &&& due ==> gravity_rest(m, old.queen.pos, new.queen.pos)
        &&& !due ==> new.queen.pos == old.queen.pos
        &&& breeds ==> new.queen.eggs@.len() == 0 && new.queen.last_action == now
        &&& !breeds ==> new.queen.eggs@ == old.queen.eggs@ && new.queen.last_action == old.queen.last_action
        &&& new.ants@.len() == old.ants@.len() + born
        &&& forall|i: int| 0 <= i < old.ants@.len() ==> ant_ticked(m, old.ants@[i], #[trigger] new.ants@[i], now)
        &&& forall|i: int| old.ants@.len() <= i < new.ants@.len() ==> ant_ticked(m, Worker {
            pos: old.queen.pos,
            last_action: now,
        }, #[trigger] new.ants@[i], now)
    }

    /// True when every member of the colony is safe to tick (see `tick`).
    pub fn is_safe(&self, chunk_mngr: &ChunkManager, now: u64) -> (r: bool)
        requires
            chunk_mngr.wf(),
        ensures
            r == self.safe(chunk_mngr, now),
    {
        if !column_readable(chunk_mngr, self.queen.pos) {
            return false;
        }
        let n = self.ants.len();
        let mut i: usize = 0;
        while i < n
            invariant
                chunk_mngr.wf(),
                n == self.ants@.len(),
                i <= n,
                forall|j: int| 0 <= j < i ==> ant_safe(chunk_mngr, #[trigger] self.ants@[j], now),
            decreases n - i,
        {
            if !ant_is_safe(chunk_mngr, &self.ants[i], now) {
                return false;
            }
            i = i + 1;
        }
        true
    }

    /// A colony named `name` whose queen stands at `pos`, with no egg and no worker yet.
    pub fn new(name: String, pos: (i32, i32, i32), now: u64) -> (r: Self)
        ensures
            r.name@ == name@,
            r.queen.pos == pos,
            r.queen.last_action == now,
            r.queen.eggs@.len() == 0,
            r.ants@.len() == 0,
    {
        Colony { name, queen: Queen { pos, last_action: now, eggs: Vec::new() }, ants: Vec::new() }
    }

    /// The player's colony, 15 tiles above the sea, with one egg.
    pub fn bel_o_kan(now: u64) -> (r: Self)
        ensures
            r.name@ == "Bel-o-Kan"@,
            r.queen.pos == (0i32, 0i32, (SEA_LEVEL + 15) as i32),
            r.queen.last_action == now,
            r.queen.eggs@.len() == 1,
            r.ants@.len() == 0,
    {
        let mut bok = Self::new("Bel-o-Kan".to_owned(), (0, 0, (SEA_LEVEL as i32) + 15), now);
        bok.queen.eggs.push(Egg);
        bok
    }

    /// The computer's colony, 15 tiles below the sea.
    pub fn computer_colony(now: u64) -> (r: Self)
        ensures
            r.name@ == "Com-p-uter"@,
            r.queen.pos == (-5i32, 0i32, (SEA_LEVEL - 15) as i32),
            r.queen.last_action == now,
            r.queen.eggs@.len() == 0,
            r.ants@.len() == 0,
    {
        Self::new("Com-p-uter".to_owned(), (-5, 0, (SEA_LEVEL as i32) - 15), now)
    }

    /// One tick: the queen breeds when due, then every worker that is due may
    /// walk; everyone falls.
    pub fn tick(&mut self, chunk_mngr: &ChunkManager, now: u64)
        requires
            chunk_mngr.wf(),
            old(self).safe(chunk_mngr, now),
            old(self).queen.last_action + ACTION_DELAY_MS <= u64::MAX,
        ensures
            Colony::spec_ticked(chunk_mngr, old(self), final(self), now),
    {
        let ghost old_ants = self.ants@;
        let ghost queen0 = self.queen.pos;
        //////////  QUEEN  /////////
        if now > self.queen.last_action + ACTION_DELAY_MS {
            if let Some(action) = self.queen.think(now) {
                match action {
                    Action::Walk(_) => {
                        proof {
                            assert(false);
                        }
                    },
                    Action::Breed(mut newborns) => {
                        self.ants.append(&mut newborns);
                        self.queen.last_action = now;
                    },
                }
            }
            let new_pos = apply_gravity(&self.queen.pos, chunk_mngr);
            self.queen.pos = new_pos;
        }
        let ghost mid_ants = self.ants@;
        let ghost q1 = (self.queen.pos, self.queen.last_action, self.queen.eggs@);
        proof {
            let breeds = is_due(old(self).queen.last_action, now) && old(self).queen.eggs@.len() > 0;
            if !breeds {
                assert(mid_ants == old_ants);
            }
            assert forall|j: int| 0 <= j < mid_ants.len() implies ant_safe(chunk_mngr, #[trigger] mid_ants[j], now) by {
                if j < old_ants.len() {
                    assert(mid_ants[j] == old_ants[j]);
                } else {
                    assert(mid_ants[j].pos == queen0);
                }
            }
        }
        //////////  ANTS  /////////
        let n = self.ants.len();
        let mut i: usize = 0;
        while i < n
            invariant
                chunk_mngr.wf(),
                n == self.ants@.len(),
                n == mid_ants.len(),
                i <= n,
                forall|j: int| 0 <= j < n ==> ant_safe(chunk_mngr, #[trigger] mid_ants[j], now),
                forall|j: int| i <= j < n ==> #[trigger] self.ants@[j] == mid_ants[j],
                forall|j: int| 0 <= j < i ==> ant_ticked(chunk_mngr, mid_ants[j], #[trigger] self.ants@[j], now),
                self.name@ == old(self).name@,
                (self.queen.pos, self.queen.last_action, self.queen.eggs@) == q1,
            decreases n - i,
        {
            let mut ant = self.ants[i];
            let ghost a0 = ant;
            assert(ant_safe(chunk_mngr, mid_ants[i as int], now));
            if now > ant.last_action() && now - ant.last_action() > ACTION_DELAY_MS {
                let (decision, Ghost(_drawn)) = ant.think();
                if let Some(action) = decision {
                    match action {
                        Action::Walk(direction) => {
                            assert(super::colony::horizontal(direction));
                            ant.walk(chunk_mngr, direction);
                            ant.reset_last_action(now);
                        },
                        Action::Breed(_) => {
                            proof {
                                assert(false);
                            }
                        },
                    }
                }
            }
            let new_pos = apply_gravity(&ant.pos(), chunk_mngr);
            ant.set_pos(new_pos);
            self.ants.set(i, ant);
            i = i + 1;
        }
        proof {
            assert forall|j: int| 0 <= j < old_ants.len() implies ant_ticked(chunk_mngr, old_ants[j], #[trigger] self.ants@[j], now) by {
                assert(mid_ants[j] == old_ants[j]);
            }
            assert forall|j: int| old_ants.len() <= j < self.ants@.len() implies ant_ticked(chunk_mngr, Worker {
                pos: queen0,
                last_action: now,
            }, #[trigger] self.ants@[j], now) by {
                assert(mid_ants[j] == Worker { pos: queen0, last_action: now });
            }
        }
    }
}

} // verus!
