use ants_layer::ant::direction::Direction;
use ants_layer::chunk::manager::{LoadedChunk, Manager};
use ants_layer::chunk::tile::Tile;
use ants_layer::coords::Coords;
use ants_layer::inputs::{process_key, process_wheel, Inputs, Key};
use ants_layer::interface::{create_main_menu_buttons, menu_choice, Button, ButtonId};
use ants_layer::renderer::{Renderer, DEFAULT_TILE_SIZE, MAX_TILE_SIZE, VIEW_DISTANCE};

#[test]
fn renderer_starts_at_defaults() {
    let r = Renderer::new();
    assert_eq!(r.camera, (0, 0, 65));
    assert_eq!(r.tile_size, DEFAULT_TILE_SIZE);
    assert_eq!(r.view_distance, VIEW_DISTANCE);
    assert_eq!(r.camera_range_i32(), (-5, 5, -5, 5));
    assert_eq!(r.get_offset(), (150, 150));
    assert_eq!(r.tile_to_screen_coords((1, 2)), (155, 160));
    assert_eq!(Renderer::to_world_coords((2, -1), (3, 4)), (19, -4));
}

#[test]
fn range_rounds_toward_zero() {
    let mut r = Renderer::new();
    r.camera = (3, -20, 65);
    r.view_distance = 10;
    // (-3 - 10) / 8, (-3 + 10) / 8, (20 - 10) / 8, (20 + 10) / 8
    assert_eq!(r.camera_range_i32(), (-1, 0, 1, 3));
}

#[test]
fn chunks_on_screen() {
    let r = Renderer::new();
    assert!(r.is_chunk_on_screen((0, 0)));
    assert!(r.is_chunk_on_screen((-4, -4)));
    assert!(!r.is_chunk_on_screen((10, 0)));
    assert!(!r.is_chunk_on_screen((0, -5)));
    let chunks = vec![LoadedChunk::new((0, 0)), LoadedChunk::new((10, 0)), LoadedChunk::new((1, 1))];
    assert_eq!(r.visible_chunks(&chunks), vec![(0, 0), (1, 1)]);
}

#[test]
fn filter_keeps_chunks_in_range() {
    let r = Renderer::new();
    let mut m = Manager::empty();
    m.insert(LoadedChunk::new((0, 0)));
    m.insert(LoadedChunk::new((6, 0)));
    m.insert(LoadedChunk::new((-5, 5)));
    r.filter_visible_chunks(&mut m);
    let kept: Vec<(i32, i32)> = m.loaded_chunks.iter().map(|c| c.pos).collect();
    assert_eq!(kept, vec![(0, 0), (-5, 5)]);
}

#[test]
fn camera_moves_and_comes_back() {
    let mut r = Renderer::new();
    r.move_camera(Direction::North);
    assert_eq!(r.camera, (0, 10, 65));
    r.move_camera(Direction::South);
    assert_eq!(r.camera, (0, 0, 65));
    r.move_camera(Direction::East);
    assert_eq!(r.camera, (-10, 0, 65));
    r.move_camera(Direction::West);
    r.move_camera(Direction::Up);
    assert_eq!(r.camera, (0, 0, 66));
    r.camera.2 = 0;
    r.move_camera(Direction::Down);
    assert_eq!(r.camera, (0, 0, 0));
}

#[test]
fn view_distance_and_zoom() {
    let mut r = Renderer::new();
    r.increase_view_dist().unwrap();
    assert_eq!(r.view_distance, 48);
    r.decrease_view_dist().unwrap();
    assert_eq!(r.view_distance, 40);
    r.view_distance = 5;
    r.decrease_view_dist().unwrap();
    assert_eq!(r.view_distance, 0);
    r.zoom_in().unwrap();
    assert_eq!(r.tile_size, 6);
    r.zoom_out().unwrap();
    assert_eq!(r.tile_size, 5);
}

#[test]
fn keys_drive_the_view() {
    let mut r = Renderer::new();
    assert!(process_key(&mut r, Key::Z));
    assert_eq!(r.camera, (0, 10, 65));
    assert!(process_key(&mut r, Key::C));
    assert_eq!(r.camera, (0, 10, 64));
    assert!(process_key(&mut r, Key::W));
    assert_eq!(r.camera, (0, 10, 65));
    assert!(process_key(&mut r, Key::G));
    assert!(r.is_grid_enabled);
    assert!(process_key(&mut r, Key::E));
    assert_eq!(r.view_distance, 48);
    assert!(process_key(&mut r, Key::A));
    assert_eq!(r.view_distance, 40);
    assert!(process_key(&mut r, Key::Other(7)));
    assert!(!process_key(&mut r, Key::Escape));
    assert_eq!(Key::Q.to_direction(), Ok(Direction::West));
    assert_eq!(Key::C.to_direction(), Ok(Direction::Down));
    assert_eq!(Key::W.to_direction(), Ok(Direction::Up));
    assert_eq!(Key::G.to_direction(), Err(Key::G));
}

#[test]
fn wheel_zooms_within_bounds() {
    let mut r = Renderer::new();
    process_wheel(&mut r, 3);
    assert_eq!(r.tile_size, 6);
    process_wheel(&mut r, -1);
    assert_eq!(r.tile_size, 5);
    r.tile_size = 1;
    process_wheel(&mut r, -1);
    assert_eq!(r.tile_size, 1);
    r.tile_size = MAX_TILE_SIZE;
    process_wheel(&mut r, 1);
    assert_eq!(r.tile_size, MAX_TILE_SIZE);
}

#[test]
fn pressed_keys() {
    let mut inputs = Inputs::new();
    assert!(!inputs.is_key_pressed(Key::A));
    inputs.pressed_keys.push(Key::A);
    inputs.just_pressed_keys.push(Key::D);
    assert!(inputs.is_key_pressed(Key::A));
    assert!(inputs.is_key_just_pressed(Key::D));
    assert!(!inputs.is_key_just_pressed(Key::A));
}

#[test]
fn menu_buttons() {
    let start = Button::new(ButtonId::Start);
    assert_eq!(start.text, "Start");
    assert_eq!(start.clicked(Coords(310, 50)), Ok(ButtonId::Start));
    let exit = Button::new(ButtonId::Exit);
    assert_eq!(exit.text, "Close");
    assert_eq!(exit.clicked(Coords(310, 50)), Err(()));
    let buttons = create_main_menu_buttons();
    assert_eq!(buttons.len(), 3);
    assert_eq!(menu_choice(&buttons, Coords(599, 699)), Some(ButtonId::Exit));
    assert_eq!(menu_choice(&buttons, Coords(600, 699)), None);
}

#[test]
fn column_seen_from_above() {
    let mut c = LoadedChunk::new((0, 0));
    // air down to height 10, then dirt
    for z in 0..10 {
        c.c.set((1, 2, z), Tile::dirt());
    }
    let seen = c.tiles_to_draw(1, 2, 12);
    assert_eq!(seen.len(), 4);
    assert_eq!(seen[0], Tile::air());
    assert_eq!(seen[3], Tile::dirt());
    // from high above only 25 tiles are stacked
    let seen = c.tiles_to_draw(1, 2, 100);
    assert_eq!(seen.len(), 25);
}
