use vstd::prelude::*;

use crate::game::map::tile::buildings::BuildingType;
use crate::game::map::tile::minerals::MineralType;
use crate::game::map::tile::TileType;
use crate::game::units::actions::{Action, ActionQueue, ActionType};
use crate::game::units::jobs::JobType;
use crate::game::units::{race_of_roll, start_of, RaceType, Unit};

verus! {

/// The units of a race, its buildings (each with the race it belongs to) and
/// its color.
pub struct Team {
    pub units: Vec<Unit>,
    pub buildings: Vec<(BuildingType, RaceType)>,
    pub color: u32,
}

impl Team {
    /// A team of `race_type`: one iron miner, born as a unit of a random race
    /// then made one of `race_type`, wandering where it stands; a hearth and
    /// stockpiles of moss, rock, iron and gold.
    pub fn new(race_type: RaceType) -> (r: Team)
        ensures
            r.units@.len() == 1,
            r.units@[0].race == race_type,
            r.units@[0].job == JobType::MINER(TileType::Mineral(MineralType::IRON)),
            r.units@[0].action_queue@ == seq![(ActionType::WANDER, r.units@[0].coords)],
            r.units@[0].inventory.0@.len() == 0,
            r.units@[0].path@.len() == 0,
            exists|rr: int|
                1 <= rr <= 3 && r.units@[0].coords == start_of(race_of_roll(rr)) && r.units@[0].color
                    == race_of_roll(rr).spec_to_u32() && r.units@[0].thinking_speed
                    == race_of_roll(rr).spec_thinking_speed() && r.units@[0].moving_speed
                    == race_of_roll(rr).spec_moving_speed(),
            r.color == 0xff000033,
            r.buildings@ == seq![
                (BuildingType::Hearth, race_type),
                (BuildingType::Stockpile(MineralType::MOSS), race_type),
                (BuildingType::Stockpile(MineralType::ROCK), race_type),
                (BuildingType::Stockpile(MineralType::IRON), race_type),
                (BuildingType::Stockpile(MineralType::GOLD), race_type),
            ],
    {
        let mut units: Vec<Unit> = Vec::new();
        let mut unit = Unit::new(None);
        unit.race = race_type;
        unit.job = JobType::MINER(TileType::Mineral(MineralType::IRON));
        let here = unit.coords;
        unit.action_queue.do_now(Action(ActionType::WANDER, here));
        assert(unit.action_queue@ =~= seq![(ActionType::WANDER, here)]);
        units.push(unit);
        let mut buildings: Vec<(BuildingType, RaceType)> = Vec::new();
        buildings.push((BuildingType::Hearth, race_type));
        buildings.push((BuildingType::Stockpile(MineralType::MOSS), race_type));
        buildings.push((BuildingType::Stockpile(MineralType::ROCK), race_type));
        buildings.push((BuildingType::Stockpile(MineralType::IRON), race_type));
        buildings.push((BuildingType::Stockpile(MineralType::GOLD), race_type));
        assert(buildings@ =~= seq![
            (BuildingType::Hearth, race_type),
            (BuildingType::Stockpile(MineralType::MOSS), race_type),
            (BuildingType::Stockpile(MineralType::ROCK), race_type),
            (BuildingType::Stockpile(MineralType::IRON), race_type),
            (BuildingType::Stockpile(MineralType::GOLD), race_type),
        ]);
        Team { units, color: 0xff000033, buildings }
    }
}

} // verus!
