use ants_layer::chunk::generation::MapShape;
use ants_layer::chunk::manager::{LoadedChunk, Manager};
use ants_layer::chunk::tile::Tile;
use ants_layer::coords::Coords;
use ants_layer::game::map::TileMap;
use ants_layer::game::units::actions::{Action, ActionQueue, ActionType};
use ants_layer::time::game_time;

#[test]
fn game_clock() {
    assert_eq!(game_time(0), (0, 0, 0));
    assert_eq!(game_time(4), (0, 1, 0));
    assert_eq!(game_time(100), (1, 1, 0));
    assert_eq!(game_time(97), (1, 0, 15));
}

#[test]
fn coords_vectors() {
    let a = Coords(1, 2);
    let b = Coords(4, 6);
    assert_eq!(a + b, b + a);
    assert_eq!(a - b, Coords(-3, -4));
    assert_eq!(b - a, Coords(3, 4));
    assert_eq!((a - b) + b, a);
    assert_eq!(a.swap_coords().swap_coords(), a);
    assert_eq!(a.distance_in_tiles(&b), b.distance_in_tiles(&a));
    assert_eq!(a.distance_in_tiles(&a), 0);
}

#[test]
fn missing_chunks_column_by_column() {
    let mut m = Manager::empty();
    m.insert(LoadedChunk::new((0, 1)));
    assert_eq!(m.look_for_new_chunks((0, 2, 0, 2)), vec![(0, 0), (1, 0), (1, 1)]);
    assert!(m.look_for_new_chunks((3, 3, 0, 2)).is_empty());
    assert_eq!(m.generate_range(-1..1, 0..2), vec![(-1, 0), (0, 0), (-1, 1), (0, 1)]);
    assert!(m.contains((0, 1)));
    assert!(!m.contains((1, 0)));
}

#[test]
fn loaded_chunk_read_back() {
    let mut m = Manager::empty();
    let mut c = LoadedChunk::new((1, 0));
    // tiles are read back at the flat index of the world position itself
    c.c.set((10, 3, 4), Tile::granite());
    m.insert(c);
    assert_eq!(m.tile_at((10, 3, 4)), Some(Tile::granite()));
    assert_eq!(m.tile_at((11, 3, 4)), Some(Tile::air()));
    assert_eq!(m.tile_at((30, 3, 4)), None);
}

#[test]
fn dig_twice_is_dig_once() {
    let mut once = TileMap::new();
    let mut twice = TileMap::new();
    once.dig_radius(&Coords(6, 6), 2).unwrap();
    twice.dig_radius(&Coords(6, 6), 2).unwrap();
    twice.dig_radius(&Coords(6, 6), 2).unwrap();
    for x in 0..12 {
        for y in 0..12 {
            assert_eq!(once.get_tile(x, y), twice.get_tile(x, y));
        }
    }
}

#[test]
fn queue_next_then_cancel() {
    let mut q: Vec<(ActionType, Coords)> = vec![(ActionType::DIG, Coords(1, 1))];
    q.do_next(Action(ActionType::MOVE, Coords(2, 2)));
    assert_eq!(q.cancel_first(), Ok(()));
    assert_eq!(q, vec![(ActionType::DIG, Coords(1, 1))]);
    q.do_now(Action(ActionType::WAIT, Coords(5, 5)));
    assert_eq!(q, vec![(ActionType::WAIT, Coords(5, 5)), (ActionType::DIG, Coords(1, 1))]);
    let mut q: Vec<(ActionType, Coords)> = vec![
        (ActionType::DIG, Coords(1, 1)),
        (ActionType::MOVE, Coords(2, 2)),
        (ActionType::DIG, Coords(3, 3)),
    ];
    let mut r = q.clone();
    q.keep_only(vec![ActionType::DIG]);
    r.remove_only(vec![ActionType::DIG]);
    assert_eq!(q.len() + r.len(), 3);
    assert_eq!(q, vec![(ActionType::DIG, Coords(1, 1)), (ActionType::DIG, Coords(3, 3))]);
}

#[test]
fn starting_chunks_by_shape() {
    let m = Manager::empty();
    let square = m.starting_chunks(MapShape::SQUARE);
    assert_eq!(square.len(), 16);
    assert_eq!(square[0], (-2, -2));
    assert_eq!(square[4], (-2, -1));
    assert_eq!(square[15], (1, 1));
    let rect = m.starting_chunks(MapShape::RECT);
    assert_eq!(rect, vec![(-2, -1), (-1, -1), (0, -1), (1, -1), (-2, 0), (-1, 0), (0, 0), (1, 0)]);
}

#[test]
fn loaded_chunk_has_its_whole_square() {
    let origin = LoadedChunk::new((0, 0));
    assert!(origin.has((0, 0, 5)));
    assert!(origin.has((7, 7, 0)));
    assert!(origin.has((3, 4, 100)));
    assert!(!origin.has((8, 0, 5)));
    assert!(!origin.has((-1, 3, 5)));
    let east = LoadedChunk::new((1, -1));
    assert!(east.has((8, -8, 0)));
    assert!(east.has((15, -1, 0)));
    assert!(!east.has((16, -1, 0)));
    assert!(!east.has((8, 0, 0)));
}
