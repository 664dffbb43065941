use vstd::prelude::*;

use crate::random::random_in;

verus! {

/// The six moves of a voxel world.
#[derive(Copy, Clone, PartialEq, Eq, Debug, Structural)]
pub enum Direction {
    Up,
    Down,
    North,
    East,
    South,
    West,
}

/// Unit offset of a direction: x grows East, y grows South, z grows Up.
pub open spec fn offset(d: Direction) -> (int, int, int) {
    match d {
        Direction::West => (-1, 0, 0),
        Direction::East => (1, 0, 0),
        Direction::North => (0, -1, 0),
        Direction::South => (0, 1, 0),
        Direction::Up => (0, 0, 1),
        Direction::Down => (0, 0, -1),
    }
}

/// `p` moved one step along `d` (over mathematical integers).
pub open spec fn moved(d: Direction, p: (i32, i32, i32)) -> (int, int, int) {
    (p.0 + offset(d).0, p.1 + offset(d).1, p.2 + offset(d).2)
}

/// Moving `p` along `d` stays within `i32`.
pub open spec fn can_move(d: Direction, p: (i32, i32, i32)) -> bool {
    let m = moved(d, p);
    &&& i32::MIN <= m.0 <= i32::MAX
    &&& i32::MIN <= m.1 <= i32::MAX
    &&& i32::MIN <= m.2 <= i32::MAX
}

/// The direction numbered `n` (0 Up, 1 Down, 2 North, 3 East, 4 South, 5 West).
pub open spec fn direction_of_index(n: int) -> Direction {
    if n == 0 {
        Direction::Up
    } else if n == 1 {
        Direction::Down
    } else if n == 2 {
        Direction::North
    } else if n == 3 {
        Direction::East
    } else if n == 4 {
        Direction::South
    } else {
        Direction::West
    }
}

impl Direction {
    /// The unit offset of this direction.
    pub fn to_offset(self) -> (r: (i32, i32, i32))
        ensures
            r.0 == offset(self).0,
            r.1 == offset(self).1,
            r.2 == offset(self).2,
    {
        match self {
            Direction::West => (-1, 0, 0),
            Direction::East => (1, 0, 0),
            Direction::North => (0, -1, 0),
            Direction::South => (0, 1, 0),
            Direction::Up => (0, 0, 1),
            Direction::Down => (0, 0, -1),
        }
    }

    /// `p` moved one tile along this direction.
    pub fn add_to(&self, p: &(i32, i32, i32)) -> (r: (i32, i32, i32))
        requires
            can_move(*self, *p),
        ensures
            r.0 == moved(*self, *p).0,
            r.1 == moved(*self, *p).1,
            r.2 == moved(*self, *p).2,
    {
        let (mut x, mut y, mut z) = *p;
        match self {
            Direction::West => {
                x -= 1;
            },
            Direction::East => {
                x += 1;
            },
            Direction::North => {
                y -= 1;
            },
            Direction::South => {
                y += 1;
            },
            Direction::Up => {
                z += 1;
            },
            Direction::Down => {
                z -= 1;
            },
        }
        (x, y, z)
    }

    /// The direction numbered `n`; numbers above 5 give West.
    pub fn from_index(n: u32) -> (r: Direction)
        ensures
            r == direction_of_index(n as int),
    {
        if n == 0 {
            Direction::Up
        } else if n == 1 {
            Direction::Down
        } else if n == 2 {
            Direction::North
        } else if n == 3 {
            Direction::East
        } else if n == 4 {
            Direction::South
        } else {
            Direction::West
        }
    }

    /// A direction drawn uniformly at random.
    pub fn random() -> (r: Direction)
        ensures
            exists|n: int| 0 <= n <= 5 && r == direction_of_index(n),
    {
        let n = random_in(0, 5);
        Direction::from_index(n)
    }
}

/// `a + b` is the sum of both offsets.
impl core::ops::Add for Direction {
    type Output = (i32, i32, i32);

    fn add(self, rhs: Direction) -> (i32, i32, i32) {
        let p = self.to_offset();
        let other = rhs.to_offset();
        (p.0 + other.0, p.1 + other.1, p.2 + other.2)
    }
}

impl vstd::std_specs::ops::AddSpecImpl for Direction {
    open spec fn obeys_add_spec() -> bool {
        true
    }

    open spec fn add_req(self, rhs: Direction) -> bool {
        true
    }

    open spec fn add_spec(self, rhs: Direction) -> (i32, i32, i32) {
        (
            (offset(self).0 + offset(rhs).0) as i32,
            (offset(self).1 + offset(rhs).1) as i32,
            (offset(self).2 + offset(rhs).2) as i32,
        )
    }
}

} // verus!
