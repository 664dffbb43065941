use ants_layer::coords::Coords;
use ants_layer::game::map::tile::minerals::{Mineral, MineralType};
use ants_layer::game::map::tile::terrain::TerrainType;
use ants_layer::game::map::tile::{Tile, TileType};
use ants_layer::game::map::TileMap;
use ants_layer::game::units::actions::{Action, ActionQueue, ActionType};
use ants_layer::game::units::jobs::JobType;
use ants_layer::game::units::pathfinding::{heuristic, is_goal, successors};
use ants_layer::game::units::{Inventory, Item, RaceType, Unit};
use ants_layer::team::Team;

fn rock() -> Tile {
    Tile(Some(TerrainType::AIR), Some(Mineral(MineralType::ROCK)), None)
}

fn air() -> Tile {
    Tile(Some(TerrainType::AIR), None, None)
}

fn miner_at(x: i32, y: i32) -> Unit {
    let mut u = Unit::born(RaceType::HUMAN, JobType::MINER(TileType::Mineral(MineralType::ROCK)));
    u.coords = Coords(x, y);
    u
}

#[test]
fn heuristic_is_straight_line_distance() {
    assert_eq!(heuristic((0, 0), (3, 4)), 5);
    assert_eq!(heuristic((10, 10), (10, 10)), 0);
    assert_eq!(heuristic((0, 0), (1, 1)), 1);
    assert_eq!(heuristic((0, 0), (2, 2)), 2);
    // coordinates are read as signed numbers: usize::MAX is -1
    assert_eq!(heuristic((usize::MAX, 0), (2, 0)), 3);
    assert!(is_goal((4, 5), (4, 5)));
    assert!(!is_goal((4, 5), (5, 4)));
}

#[test]
fn successors_offer_existing_cells_with_costs() {
    let map = TileMap::new();
    // a free search offers all eight neighbours at no cost, wrapping below zero
    let free = successors(RaceType::ANT, &map, None, (0, 0));
    assert_eq!(free.len(), 8);
    assert_eq!(free[0], ((1, 0), 0));
    assert_eq!(free[1], ((usize::MAX, 0), 0));
    // a walk offers only cells of the map; ants pay 5 for a diagonal step
    let walk = successors(RaceType::ANT, &map, Some(ActionType::MOVE), (0, 0));
    assert_eq!(walk, vec![((1, 0), 0), ((0, 1), 0), ((1, 1), 5)]);
    // aliens pay 5 for a straight step, and 10 more for a cell they cannot walk
    let mut map = TileMap::new();
    map.set_tile(Coords(6, 5), Some(rock())).unwrap();
    let alien = successors(RaceType::ALIEN, &map, Some(ActionType::MOVE), (5, 5));
    assert_eq!(alien[0], ((6, 5), 15));
    assert_eq!(alien[4], ((6, 6), 0));
}

fn king_step(a: (usize, usize), b: (usize, usize)) -> bool {
    let dx = (a.0 as i64 - b.0 as i64).abs();
    let dy = (a.1 as i64 - b.1 as i64).abs();
    dx.max(dy) == 1
}

#[test]
fn find_path_walks_through_air() {
    let map = TileMap::new();
    let unit = miner_at(10, 10);
    let (path, cost) = unit.find_path((10, 10), (13, 10), &map, Some(ActionType::MOVE)).unwrap();
    assert!(path.len() >= 4);
    assert_eq!(path[0], (10, 10));
    assert_eq!(path[path.len() - 1], (13, 10));
    for i in 0..path.len() - 1 {
        assert!(king_step(path[i], path[i + 1]));
    }
    assert_eq!(cost, 0);
    // any other action finds nothing
    assert!(unit.find_path((10, 10), (13, 10), &map, Some(ActionType::WAIT)).is_none());
}

#[test]
fn find_path_stops_at_walls() {
    let mut map = TileMap::new();
    for y in 0..100 {
        map.set_tile(Coords(12, y), Some(rock())).unwrap();
    }
    let unit = miner_at(10, 10);
    // a free search goes through the wall; only its walkable start is kept
    let (path, _) = unit.find_path((10, 10), (14, 10), &map, None).unwrap();
    assert_eq!(path.len(), 2);
    assert_eq!(path[0], (10, 10));
    assert_eq!(path[1].0, 11);
    // a dig keeps the first cell that can be dug
    let (dig, _) = unit.find_path((10, 10), (14, 10), &map, Some(ActionType::DIG)).unwrap();
    assert_eq!(dig.len(), 1);
    assert_eq!(dig[0].0, 12);
    // a walk pays to go through the wall, and keeps its walkable start too
    let (walk, cost) = unit.find_path((10, 10), (14, 10), &map, Some(ActionType::MOVE)).unwrap();
    assert_eq!(walk.len(), 2);
    assert!(cost >= 10);
}

#[test]
fn move_to_steps_one_cell() {
    let mut map = TileMap::new();
    let mut unit = miner_at(10, 10);
    assert_eq!(unit.move_to(&mut map, Coords(13, 10)), Some(()));
    assert_eq!(unit.coords.0, 11);
    assert!((unit.coords.1 - 10).abs() <= 1);
    assert_eq!(unit.path[0], (10, 10));
    // walled in: no step
    let mut map = TileMap::new();
    for x in 0..3 {
        for y in 0..3 {
            if (x, y) != (1, 1) {
                map.set_tile(Coords(x, y), Some(rock())).unwrap();
            }
        }
    }
    let mut unit = miner_at(1, 1);
    assert_eq!(unit.move_to(&mut map, Coords(5, 5)), None);
    assert_eq!(unit.coords, Coords(1, 1));
}

#[test]
fn dig_digs_the_miners_mineral() {
    let mut map = TileMap::new();
    map.set_tile(Coords(11, 10), Some(rock())).unwrap();
    let mut unit = miner_at(10, 10);
    unit.action_queue.do_next(Action(ActionType::DIG, Coords(11, 10)));
    assert_eq!(unit.dig(&mut map, &Coords(11, 10)), Err(Coords(10, 10)));
    assert_eq!(map.get_tile(11, 10), Ok((air(), Coords(11, 10))));
    // an air target ends the action and hands a dig back
    let r = unit.dig(&mut map, &Coords(11, 10));
    assert_eq!(r, Ok(vec![(ActionType::DIG, Coords(10, 10))]));
    assert!(unit.action_queue.is_empty());
}

#[test]
fn think_without_plan_fails() {
    let mut map = TileMap::new();
    let mut unit = miner_at(10, 10);
    assert_eq!(unit.think(&mut map, 5), Err(Coords(10, 10)));
    assert_eq!(unit.last_action_timer, 150 + 5);
}

#[test]
fn think_moves_when_ready() {
    let mut map = TileMap::new();
    let mut unit = miner_at(10, 10);
    unit.action_queue.do_next(Action(ActionType::MOVE, Coords(12, 10)));
    unit.last_move_timer = 0;
    // not ready yet: only the timers advance
    assert_eq!(unit.think(&mut map, 10), Ok((ActionType::MOVE, Coords(12, 10))));
    assert_eq!(unit.coords, Coords(10, 10));
    // ready: one step, and the move timer restarts
    assert_eq!(unit.think(&mut map, 100), Ok((ActionType::MOVE, Coords(12, 10))));
    assert_eq!(unit.coords.0, 11);
    assert_eq!(unit.last_move_timer, 0);
}

#[test]
fn think_walks_to_a_far_dig() {
    let mut map = TileMap::new();
    let mut unit = miner_at(10, 10);
    unit.action_queue.do_next(Action(ActionType::DIG, Coords(20, 10)));
    unit.last_action_timer = 1000;
    assert_eq!(unit.think(&mut map, 0), Ok((ActionType::MOVE, Coords(20, 10))));
    assert_eq!(
        unit.action_queue,
        vec![(ActionType::MOVE, Coords(20, 10)), (ActionType::DIG, Coords(20, 10)), (ActionType::DIG, Coords(20, 10))]
    );
    assert_eq!(unit.last_action_timer, 0);
}

#[test]
fn think_waits_and_builds() {
    let mut map = TileMap::new();
    let mut unit = miner_at(10, 10);
    unit.action_queue.do_next(Action(ActionType::WAIT, Coords(1, 1)));
    unit.action_queue.do_later(Action(ActionType::BUILD, Coords(2, 2)));
    // a wait drops the last action
    assert_eq!(unit.think(&mut map, 1), Ok((ActionType::WAIT, Coords(1, 1))));
    assert_eq!(unit.action_queue, vec![(ActionType::WAIT, Coords(1, 1))]);
    assert_eq!(unit.think(&mut map, 1), Ok((ActionType::WANDER, Coords(10, 10))));
    // a build does nothing
    unit.action_queue.do_next(Action(ActionType::BUILD, Coords(3, 3)));
    assert_eq!(unit.think(&mut map, 1), Ok((ActionType::BUILD, Coords(3, 3))));
    // a unit that is no miner cannot dig
    unit.job = JobType::JOBLESS;
    unit.action_queue.do_now(Action(ActionType::DIG, Coords(3, 3)));
    assert_eq!(unit.think(&mut map, 1), Err(Coords(10, 10)));
}

#[test]
fn think_wanders_home() {
    let mut map = TileMap::new();
    let mut unit = miner_at(10, 10);
    unit.action_queue.do_next(Action(ActionType::WANDER, Coords(30, 30)));
    unit.path.push((1, 1));
    assert_eq!(unit.think(&mut map, 0), Ok((ActionType::MOVE, Coords(30, 30))));
    assert!(unit.path.is_empty());
    // near its spot, it steps at random around itself
    let mut unit = miner_at(10, 10);
    unit.action_queue.do_next(Action(ActionType::WANDER, Coords(10, 11)));
    assert_eq!(unit.think(&mut map, 0), Ok((ActionType::WANDER, Coords(10, 11))));
    assert!((unit.coords.0 - 10).abs() <= 1 && (unit.coords.1 - 10).abs() <= 1);
}

#[test]
fn think_hauls_to_a_stockpile() {
    let mut map = TileMap::new();
    map.build_starting_zone(RaceType::HUMAN).unwrap();
    // rock stockpile of the human zone stands at (20, 15)
    let mut unit = miner_at(19, 15);
    unit.action_queue.do_next(Action(ActionType::HAUL, Coords(0, 0)));
    assert_eq!(unit.think(&mut map, 0), Ok((ActionType::MOVE, Coords(20, 15))));
    assert_eq!(unit.action_queue.len(), 12);
}

#[test]
fn new_team() {
    let team = Team::new(RaceType::ALIEN);
    assert_eq!(team.units.len(), 1);
    assert_eq!(team.units[0].race, RaceType::ALIEN);
    assert_eq!(team.units[0].job, JobType::MINER(TileType::Mineral(MineralType::IRON)));
    assert_eq!(team.units[0].action_queue, vec![(ActionType::WANDER, team.units[0].coords)]);
    assert_eq!(team.color, 0xff000033);
    assert_eq!(team.buildings.len(), 5);
}

#[test]
fn inventory_add_then_consume() {
    let mut inv = Inventory::new(5);
    let mut item = Item::Mineral(TileType::Mineral(MineralType::GOLD));
    inv.add(item);
    assert!(!inv.clone().is_empty());
    assert_eq!(inv.consume(&mut item), Ok(()));
    assert!(inv.clone().is_empty());
    assert_eq!(inv.consume(&mut item), Err(()));
}

#[test]
fn humans_think_quickest_and_ants_slowest() {
    assert_eq!(RaceType::HUMAN.get_thinking_speed(), 150);
    assert_eq!(RaceType::ALIEN.get_thinking_speed(), 250);
    assert_eq!(RaceType::ANT.get_thinking_speed(), 1000);
}
