use vstd::prelude::*;

pub mod actions;
pub mod jobs;
pub mod pathfinding;
pub mod behavior;

use crate::coords::Coords;
use crate::terminal::{colored_blue, colored_green, colored_red, paint_blue, paint_green, paint_red};
use colored::ColoredString;
use crate::game::map::tile::minerals::MineralType;
use crate::game::map::tile::TileType;
use crate::random::random_in;
use actions::ActionType;
use jobs::JobType;
use crate::game::map::{HEIGHT, WIDTH};

verus! {

#[derive(Debug, Copy, Clone, PartialEq, Eq, Structural)]
pub enum RaceType {
    ANT,
    HUMAN,
    ALIEN,
}

/// Radius of the zone dug around each race's hearth.
pub const HOME_STARTING_SIZE: u32 = 15;

/// Where a race's hearth stands.
pub open spec fn start_of(r: RaceType) -> Coords {
    match r {
        RaceType::ANT => Coords(50, 50),
        RaceType::HUMAN => Coords(15, 15),
        RaceType::ALIEN => Coords(85, 85),
    }
}

/// Display name of a race.
pub open spec fn race_name(r: RaceType) -> Seq<char> {
    match r {
        RaceType::ALIEN => "ALIEN"@,
        RaceType::ANT => "ANT"@,
        RaceType::HUMAN => "HUMAN"@,
    }
}

/// Extra path cost of a diagonal (or straight) step: ants prefer straight
/// lines, aliens prefer diagonals, humans don't care.
pub open spec fn diagonal_cost_of(r: RaceType, is_diagonal: bool) -> i32 {
    match r {
        RaceType::HUMAN => 0,
        RaceType::ANT => if is_diagonal { 5 } else { 0 },
        RaceType::ALIEN => if is_diagonal { 0 } else { 5 },
    }
}

impl RaceType {
    /// The race's color as RGBA.
    pub open spec fn spec_to_u32(self) -> u32 {
        match self {
            RaceType::ANT => 0xff0000ffu32,
            RaceType::ALIEN => 0x00ff00ffu32,
            RaceType::HUMAN => 0x0000ffffu32,
        }
    }

    /// Milliseconds a unit of the race takes to think: humans think quickly,
    /// aliens at a medium pace, ants slowly.
    pub open spec fn spec_thinking_speed(self) -> i32 {
        match self {
            RaceType::HUMAN => 150i32,
            RaceType::ALIEN => 250i32,
            RaceType::ANT => 1000i32,
        }
    }

    /// Milliseconds a unit of the race takes to move.
    pub open spec fn spec_moving_speed(self) -> i32 {
        match self {
            RaceType::HUMAN => 100i32,
            RaceType::ANT => 25i32,
            RaceType::ALIEN => 50i32,
        }
    }

    /// RGBA color of the race's units, packed as `0xRRGGBBAA`.
    pub fn to_u32(self) -> (r: u32)
        ensures
            r == self.spec_to_u32(),
    {
        match self {
            RaceType::ANT => 0xff0000ff,
            RaceType::ALIEN => 0x00ff00ff,
            RaceType::HUMAN => 0x0000ffff,
        }
    }

    /// How many times a unit looks for a stockpile before giving up.
    pub fn patience(self) -> (r: usize)
        ensures
            r == 10,
    {
        match self {
            RaceType::HUMAN => 10,
            RaceType::ANT => 10,
            RaceType::ALIEN => 10,
        }
    }

    /// Amount of items a unit can carry.
    pub fn get_carry_capacity(self) -> (r: i32)
        ensures
            r == 5,
    {
        match self {
            RaceType::HUMAN => 5,
            RaceType::ANT => 5,
            RaceType::ALIEN => 5,
        }
    }

    /// Milliseconds between two decisions (the lower, the quicker): humans
    /// think quickly, aliens at a medium pace, ants slowly.
    pub fn get_thinking_speed(self) -> (r: i32)
        ensures
            r == self.spec_thinking_speed(),
    {
        match self {
            RaceType::HUMAN => 150,
            RaceType::ALIEN => 250,
            RaceType::ANT => 1000,
        }
    }

    /// Milliseconds between two moves (the lower, the quicker).
    pub fn get_moving_speed(self) -> (r: i32)
        ensures
            r == self.spec_moving_speed(),
    {
        match self {
            RaceType::HUMAN => 100,
            RaceType::ANT => 25,
            RaceType::ALIEN => 50,
        }
    }

    /// Extra cost of a move for the race, by whether it is diagonal.
    pub fn diagonal_cost(self, is_diagonal: bool) -> (r: i32)
        ensures
            r == diagonal_cost_of(self, is_diagonal),
    {
        match self {
            RaceType::HUMAN => {
                if is_diagonal {
                    0
                } else {
                    0
                }
            },
            RaceType::ANT => {
                if is_diagonal {
                    5
                } else {
                    0
                }
            },
            RaceType::ALIEN => {
                if is_diagonal {
                    0
                } else {
                    5
                }
            },
        }
    }

    /// The race's name.
    pub fn to_string(self) -> (r: String)
        ensures
            r@ == race_name(self),
    {
        match self {
            RaceType::ALIEN => "ALIEN".to_owned(),
            RaceType::ANT => "ANT".to_owned(),
            RaceType::HUMAN => "HUMAN".to_owned(),
        }
    }

    /// The race's name colored for a terminal: aliens green, ants red, humans blue.
    pub fn to_colored_string(self) -> (r: ColoredString)
        ensures
            r == (match self {
                RaceType::ALIEN => colored_green("ALIEN"@),
                RaceType::ANT => colored_red("ANT"@),
                RaceType::HUMAN => colored_blue("HUMAN"@),
            }),
    {
        match self {
            RaceType::ALIEN => paint_green("ALIEN"),
            RaceType::ANT => paint_red("ANT"),
            RaceType::HUMAN => paint_blue("HUMAN"),
        }
    }

    /// The ants start at the center, humans near the origin, aliens in the far corner.
    pub fn starting_coords(self) -> (r: Coords)
        ensures
            r == start_of(self),
    {
        match self {
            RaceType::ANT => Coords(WIDTH as i32 / 2, HEIGHT as i32 / 2),
            RaceType::HUMAN => Coords(HOME_STARTING_SIZE as i32, HOME_STARTING_SIZE as i32),
            RaceType::ALIEN => Coords(
                (WIDTH - HOME_STARTING_SIZE as usize) as i32,
                (HEIGHT - HOME_STARTING_SIZE as usize) as i32,
            ),
        }
    }
}

/// Something a unit carries.
#[derive(Clone, Copy, PartialEq, Eq, Debug, Structural)]
pub enum Item {
    Mineral(TileType),
}

impl Item {
    /// The item itself when it is a mineral (every item is).
    pub fn mineral(self) -> (r: Result<Item, ()>)
        ensures
            r == Ok::<Item, ()>(self),
    {
        match self {
            Item::Mineral(_) => Ok(self),
        }
    }
}

/// A unit of some race, with its job, position and plans.
pub struct Unit {
    pub inventory: Inventory,
    pub color: u32,
    pub job: JobType,
    pub race: RaceType,
    pub coords: Coords,
    pub action_queue: Vec<(ActionType, Coords)>,
    pub path: Vec<(usize, usize)>,
    pub thinking_speed: i32,
    pub moving_speed: i32,
    pub last_action_timer: i32,
    pub last_move_timer: i32,
}

/// The race a draw in `1..=3` picks: 1 humans, 2 ants, else aliens.
pub open spec fn race_of_roll(n: int) -> RaceType {
    if n == 1 {
        RaceType::HUMAN
    } else if n == 2 {
        RaceType::ANT
    } else {
        RaceType::ALIEN
    }
}

/// The job a draw in `0..=5` picks: 1 rock miner, 2 iron miner, else moss miner.
pub open spec fn job_of_roll(n: int) -> JobType {
    if n == 1 {
        JobType::MINER(TileType::Mineral(MineralType::ROCK))
    } else if n == 2 {
        JobType::MINER(TileType::Mineral(MineralType::IRON))
    } else {
        JobType::MINER(TileType::Mineral(MineralType::MOSS))
    }
}

impl Unit {
    /// A newborn of `race` with `job`, standing on its race's hearth with nothing planned.
    pub open spec fn newborn(self, race: RaceType, job: JobType) -> bool {
        &&& self.race == race
        &&& self.job == job
        &&& self.inventory.0@.len() == 0
        &&& self.color == race.spec_to_u32()
        &&& self.coords == start_of(race)
        &&& self.action_queue@.len() == 0
        &&& self.path@.len() == 0
        &&& self.last_action_timer == race.spec_thinking_speed()
        &&& self.thinking_speed == race.spec_thinking_speed()
        &&& self.last_move_timer == race.spec_moving_speed()
        &&& self.moving_speed == race.spec_moving_speed()
    }

    /// A newborn of `race` with `job`.
    pub fn born(race: RaceType, job: JobType) -> (r: Unit)
        ensures
            r.newborn(race, job),
    {
        Unit {
            inventory: Inventory::new(race.get_carry_capacity() as u32),
            color: race.to_u32(),
            race,
            job,
            coords: race.starting_coords(),
            action_queue: Vec::new(),
            path: Vec::new(),
            last_action_timer: race.get_thinking_speed(),
            last_move_timer: race.get_moving_speed(),
            thinking_speed: race.get_thinking_speed(),
            moving_speed: race.get_moving_speed(),
        }
    }

    /// A newborn of `race_type`, or of a random race; its mining job is random.
    pub fn new(race_type: Option<RaceType>) -> (r: Unit)
        ensures
            exists|rr: int, jr: int|
                1 <= rr <= 3 && 0 <= jr <= 5 && r.newborn(
                    match race_type {
                        Some(race) => race,
                        None => race_of_roll(rr),
                    },
                    job_of_roll(jr),
                ),
    {
        let race_roll = random_in(1, 3);
        let race = match race_type {
            Some(race) => race,
            None => {
                if race_roll == 1 {
                    RaceType::HUMAN
                } else if race_roll == 2 {
                    RaceType::ANT
                } else {
                    RaceType::ALIEN
                }
            },
        };
        let job_roll = random_in(0, 5);
        let job = if job_roll == 1 {
            JobType::MINER(TileType::Mineral(MineralType::ROCK))
        } else if job_roll == 2 {
            JobType::MINER(TileType::Mineral(MineralType::IRON))
        } else {
            JobType::MINER(TileType::Mineral(MineralType::MOSS))
        };
        let r = Unit::born(race, job);
        assert(r.newborn(
            match race_type {
                Some(race) => race,
                None => race_of_roll(race_roll as int),
            },
            job_of_roll(job_roll as int),
        ));
        r
    }

}

/// What a unit carries: at most 10 items are meant to fit.
#[derive(Clone, PartialEq, Eq, Debug)]
pub struct Inventory(pub Vec<Item>);

/// `i` is where `item` first occurs in `s`.
pub open spec fn first_at(s: Seq<Item>, item: Item, i: int) -> bool {
    0 <= i < s.len() && s[i] == item && forall|j: int| 0 <= j < i ==> s[j] != item
}

/// An item just added can always be consumed; when the inventory did not hold
/// it before, consuming it gives the inventory back.
pub proof fn law_add_then_consume(s: Seq<Item>, x: Item)
    ensures
        exists|i: int| 0 <= i < s.push(x).len() && s.push(x)[i] == x,
        !s.contains(x) ==> forall|i: int| #[trigger] first_at(s.push(x), x, i) ==> s.push(x).remove(i) == s,
{
    assert(s.push(x)[s.len() as int] == x);
    if !s.contains(x) {
        assert forall|i: int| #[trigger] first_at(s.push(x), x, i) implies s.push(x).remove(i) == s by {
            if i < s.len() {
                assert(s[i] == x);
            }
            assert(s.push(x).remove(i) =~= s);
        }
    }
}

impl Inventory {
    /// An empty inventory with room reserved for `capacity` items.
    pub fn new(capacity: u32) -> (r: Inventory)
        ensures
            r.0@.len() == 0,
    {
        Inventory(Vec::with_capacity(capacity as usize))
    }

    /// Puts `item` at the end of the inventory.
    pub fn add(&mut self, item: Item)
        ensures
            final(self).0@ == old(self).0@.push(item),
    {
        self.0.push(item);
    }

    /// Removes the first occurrence of `item`.
    pub fn consume(&mut self, item: &mut Item) -> (r: Result<(), ()>)
        ensures
            *final(item) == *old(item),
            (exists|i: int| 0 <= i < old(self).0@.len() && old(self).0@[i] == *old(item)) ==> {
                &&& r is Ok
                &&& exists|i: int| #[trigger] first_at(old(self).0@, *old(item), i) && final(self).0@ == old(self).0@.remove(i)
            },
            !(exists|i: int| 0 <= i < old(self).0@.len() && old(self).0@[i] == *old(item)) ==> r is Err && final(self).0@ == old(self).0@,
    {
        let target = *item;
        let n = self.0.len();
        let mut index: usize = 0;
        while index < n
            invariant
                n == self.0@.len(),
                self.0@ == old(self).0@,
                index <= n,
                target == *old(item),
                forall|j: int| 0 <= j < index ==> self.0@[j] != target,
            decreases n - index,
        {
            if self.0[index] == target {
                self.0.remove(index);
                assert(first_at(old(self).0@, target, index as int));
                return Ok(());
            }
            index = index + 1;
        }
        Err(())
    }

    /// True when the inventory holds nothing.
    pub fn is_empty(self) -> (r: bool)
        ensures
            r == (self.0@.len() == 0),
    {
        self.0.len() == 0
    }

    /// Ten items or more.
    pub fn is_full(self) -> (r: bool)
        ensures
            r == (self.0@.len() >= 10),
    {
        self.0.len() >= 10
    }

    /// Hands the inventory back: no mineral is ever picked.
    pub fn any_mineral(self) -> (r: Result<Item, Self>)
        ensures
            r == Err::<Item, Self>(self),
    {
        Err(self)
    }
}

} // verus!
