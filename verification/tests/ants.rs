use ants_layer::ant::colony::{ant_is_safe, walks_are_safe, Colony};
use ants_layer::ant::direction::Direction;
use ants_layer::ant::queen::{Egg, Queen};
use ants_layer::ant::worker::Worker;
use ants_layer::ant::{apply_gravity, column_readable, Action, Ant, AntManager, Type};
use ants_layer::chunk::manager::{LoadedChunk, Manager};
use ants_layer::chunk::tile::Tile;

fn one_chunk() -> Manager {
    let mut m = Manager::empty();
    let mut c = LoadedChunk::new((0, 0));
    c.c.set((1, 1, 5), Tile::dirt());
    c.c.set((2, 1, 6), Tile::dirt());
    c.c.set((3, 1, 6), Tile::dirt());
    c.c.set((3, 1, 7), Tile::dirt());
    c.c.set((3, 1, 8), Tile::dirt());
    m.insert(c);
    m
}

#[test]
fn colonies_at_start() {
    let player = Colony::bel_o_kan(7);
    assert_eq!(player.name, "Bel-o-Kan");
    assert_eq!(player.queen.pos, (0, 0, 79));
    assert_eq!(player.queen.eggs.len(), 1);
    let computer = Colony::computer_colony(7);
    assert_eq!(computer.name, "Com-p-uter");
    assert_eq!(computer.queen.pos, (-5, 0, 49));
    let manager = AntManager::new(0);
    assert_eq!(manager.colonies.len(), 2);
    assert_eq!(manager.colonies[0].name, "Bel-o-Kan");
    let ant = Ant::new((1, 2, 3), Type::Warrior);
    assert_eq!(ant.pos, (1, 2, 3));
}

#[test]
fn queen_breeds_her_eggs() {
    let mut queen = Queen { pos: (4, 4, 4), last_action: 0, eggs: vec![Egg, Egg] };
    let born = queen.breed(50);
    assert_eq!(born.len(), 2);
    assert_eq!(born[1].pos, (4, 4, 4));
    assert_eq!(born[1].last_action, 50);
    assert!(queen.eggs.is_empty());
    assert!(queen.think(60).is_none());
    queen.new_worker();
    match queen.think(70) {
        Some(Action::Breed(workers)) => assert_eq!(workers.len(), 1),
        _ => panic!("the queen should breed"),
    }
}

#[test]
fn ants_fall_until_ground() {
    let m = one_chunk();
    // dirt at height 5 stops the fall just above it
    assert_eq!(apply_gravity(&(1, 1, 10), &m), (1, 1, 6));
    // with nothing below, the fall ends at the bottom
    assert_eq!(apply_gravity(&(5, 5, 10), &m), (5, 5, 0));
    // outside the loaded chunks nothing moves
    assert_eq!(apply_gravity(&(20, 5, 10), &m), (20, 5, 10));
}

#[test]
fn workers_walk_and_climb() {
    let m = one_chunk();
    let mut w = Worker::new((1, 1, 6), 0);
    // blocked at (2, 1, 6), but the tile above is free: climb
    w.walk(&m, Direction::East);
    assert_eq!(w.pos, (2, 1, 7));
    // blocked and the tile above is blocked too: stay
    let mut w = Worker::new((2, 1, 7), 0);
    w.walk(&m, Direction::East);
    assert_eq!(w.pos, (2, 1, 7));
    // free way: walk
    let mut w = Worker::new((5, 5, 5), 0);
    w.walk(&m, Direction::West);
    assert_eq!(w.pos, (4, 5, 5));
    assert!(Worker::decide(Direction::Up).is_none());
    assert!(matches!(Worker::decide(Direction::North), Some(Action::Walk(Direction::North))));
}

#[test]
fn directions() {
    assert_eq!(Direction::from_index(3), Direction::East);
    assert_eq!(Direction::from_index(9), Direction::West);
    assert_eq!(Direction::North.to_offset(), (0, -1, 0));
    assert_eq!(Direction::Up.add_to(&(1, 1, 1)), (1, 1, 2));
    assert_eq!(Direction::East + Direction::South, (1, 1, 0));
}

#[test]
fn colony_tick_hatches_eggs() {
    let m = Manager::empty();
    let mut colony = Colony::bel_o_kan(0);
    colony.tick(&m, 10);
    // not due yet
    assert!(colony.ants.is_empty());
    colony.tick(&m, 2000);
    assert_eq!(colony.ants.len(), 1);
    assert_eq!(colony.ants[0].pos, (0, 0, 79));
}

#[test]
fn safety_of_positions() {
    let m = one_chunk();
    assert!(column_readable(&m, (1, 1, 10)));
    assert!(!column_readable(&m, (1, 1, 200)));
    assert!(column_readable(&m, (20, 5, -1)));
    assert!(!column_readable(&m, (1, 1, -1)));
    assert!(Worker::can_walk(&m, (1, 1, 10), Direction::North));
    assert!(!Worker::can_walk(&m, (1, 1, 127), Direction::North));
    assert!(!Worker::can_walk(&m, (0, 0, 10), Direction::North));
    assert!(walks_are_safe(&m, (1, 1, 10)));
    // due to act at time 2000: every walk must be safe
    assert!(ant_is_safe(&m, &Worker::new((1, 1, 10), 0), 2000));
    assert!(!ant_is_safe(&m, &Worker::new((0, 0, 10), 0), 2000));
    // not due yet: only the fall matters
    assert!(ant_is_safe(&m, &Worker::new((0, 0, 10), 0), 10));
    let colony = Colony::bel_o_kan(0);
    assert!(colony.is_safe(&m, 2000));
    assert!(colony.is_safe(&Manager::empty(), 2000));
    let mut high = Colony::bel_o_kan(0);
    high.queen.pos = (1, 1, 200);
    assert!(!high.is_safe(&m, 10));
}
