use vstd::prelude::*;

pub mod colony;
pub mod direction;
pub mod manager;
pub mod queen;
pub mod worker;

pub use direction::Direction;
pub use manager::Manager as AntManager;

use worker::Worker;

use crate::chunk::index::{fits_in_chunk, flat_of_i32};
use crate::chunk::manager::{chunk_pos_of, Manager as ChunkManager};
use crate::chunk::WIDTH;
use crate::chunk::tile::{TileFlag, TRAVERSABLE};

verus! {

/// What a colony member decided to do.
pub enum Action {
    Walk(Direction),
    Breed(Vec<Worker>),
}

/// Milliseconds a colony member waits between two actions.
pub const ACTION_DELAY_MS: u64 = 1000;

/// Kind of an ant.
#[derive(Copy, Clone, PartialEq, Eq, Debug, Structural)]
pub enum Type {
    Explorer,
    Fetch,
    Warrior,
}

/// An ant at a world position.
#[derive(Copy, Clone, Debug)]
pub struct Ant {
    pub pos: (i32, i32, i32),
    pub t: Type,
}

impl Ant {
    /// An ant of kind `t` standing at `pos`.
    pub fn new(pos: (i32, i32, i32), t: Type) -> (r: Self)
        ensures
            r.pos == pos,
            r.t == t,
    {
        Self { pos, t }
    }
}

} // verus!

verus! {

/// Ants can stand in (walk through) the tile at `p`: it is loaded and traversable.
pub open spec fn passable(m: &ChunkManager, p: (i32, i32, i32)) -> bool {
    match m.spec_tile_at(p) {
        Some(t) => t.properties.bits & TRAVERSABLE == TRAVERSABLE,
        None => false,
    }
}

/// Reading every tile of the column below `pos` succeeds.
pub open spec fn gravity_readable(m: &ChunkManager, pos: (i32, i32, i32)) -> bool {
    &&& pos.2 > i32::MIN
    &&& pos.2 >= 0 ==> forall|z: int| 0 <= z < pos.2 ==> #[trigger] m.readable((pos.0, pos.1, z as i32))
    &&& pos.2 < 0 ==> !m.has_chunk(chunk_pos_of(pos))
}

/// `r` is where `pos` comes to rest when falling: same column, every layer it falls
/// through is passable, and it stops at the bottom or on a non passable tile.
pub open spec fn gravity_rest(m: &ChunkManager, pos: (i32, i32, i32), r: (i32, i32, i32)) -> bool {
    &&& r.0 == pos.0
    &&& r.1 == pos.1
    &&& pos.2 < 0 ==> r.2 == pos.2
    &&& pos.2 >= 0 ==> {
        &&& 0 <= r.2 <= pos.2
        &&& forall|z: int| r.2 <= z < pos.2 ==> #[trigger] passable(m, (pos.0, pos.1, z as i32))
        &&& r.2 == 0 || !passable(m, (pos.0, pos.1, (r.2 - 1) as i32))
    }
}

/// True when every tile `apply_gravity` may read below `pos` can be read.
pub fn column_readable(chunk_mngr: &ChunkManager, pos: (i32, i32, i32)) -> (r: bool)
    ensures
        r == gravity_readable(chunk_mngr, pos),
{
    if pos.2 == i32::MIN {
        return false;
    }
    let loaded = chunk_mngr.contains((pos.0 / (WIDTH as i32), pos.1 / (WIDTH as i32)));
    proof {
        assert forall|z: int| #[trigger] chunk_pos_of((pos.0, pos.1, z as i32)) == chunk_pos_of(pos) by {}
    }
    if !loaded {
        return true;
    }
    if pos.2 < 0 {
        return false;
    }
    if pos.2 == 0 {
        return true;
    }
    let top = (pos.0, pos.1, pos.2 - 1);
    let fits = fits_in_chunk(top);
    proof {
        if fits {
            assert forall|z: int| 0 <= z < pos.2 implies #[trigger] chunk_mngr.readable((pos.0, pos.1, z as i32)) by {
                assert((z as i32) as usize as int == z);
                assert(flat_of_i32((pos.0, pos.1, z as i32)) <= flat_of_i32(top));
            }
        } else {
            assert(!chunk_mngr.readable((pos.0, pos.1, (pos.2 - 1) as i32)));
        }
    }
    fits
}

/// Lets `pos` fall straight down through traversable tiles until it rests on a
/// non traversable (or unloaded) tile, or reaches the bottom layer `z == 0`.
pub fn apply_gravity(pos: &(i32, i32, i32), chunk_mngr: &ChunkManager) -> (r: (i32, i32, i32))
    requires
        chunk_mngr.wf(),
        gravity_readable(chunk_mngr, *pos),
    ensures
        gravity_rest(chunk_mngr, *pos, r),
{
    let mut current = *pos;
    loop
        invariant
            chunk_mngr.wf(),
            gravity_readable(chunk_mngr, *pos),
            current.0 == pos.0,
            current.1 == pos.1,
            pos.2 < 0 ==> current.2 == pos.2,
            pos.2 >= 0 ==> 0 <= current.2 <= pos.2,
            pos.2 >= 0 ==> forall|z: int| current.2 <= z < pos.2 ==> #[trigger] passable(chunk_mngr, (pos.0, pos.1, z as i32)),
        ensures
            current.0 == pos.0,
            current.1 == pos.1,
            pos.2 < 0 ==> current.2 == pos.2,
            pos.2 >= 0 ==> {
                &&& 0 <= current.2 <= pos.2
                &&& forall|z: int| current.2 <= z < pos.2 ==> #[trigger] passable(chunk_mngr, (pos.0, pos.1, z as i32))
                &&& current.2 == 0 || !passable(chunk_mngr, (pos.0, pos.1, (current.2 - 1) as i32))
            },
        decreases (if current.2 >= 0 { current.2 as int } else { 0 }),
    {
        if current.2 == 0 {
            break;
        }
        let below = Direction::Down.add_to(&current);
        proof {
            assert(chunk_pos_of(below) == chunk_pos_of(*pos));
            if pos.2 >= 0 {
                assert(chunk_mngr.readable((pos.0, pos.1, (current.2 - 1) as i32)));
            }
            assert(below == (pos.0, pos.1, (current.2 - 1) as i32));
        }
        if let Some(tile) = chunk_mngr.tile_at(below) {
            if tile.properties.contains(TileFlag::from_bits_retain(TRAVERSABLE)) {
                proof {
                    assert(pos.2 >= 0);
                    assert(passable(chunk_mngr, below));
                }
                current = below;
            } else {
                break;
            }
        } else {
            break;
        }
    }
    current
}

} // verus!
