use vstd::prelude::*;

use crate::ant::direction::{offset, Direction};
use crate::chunk::WIDTH;
use crate::renderer::{camera_moved, decreased_view, Renderer, MAX_TILE_SIZE, MIN_TILE_SIZE};

verus! {

/// The keys the game reacts to (AZERTY layout); any other key keeps its code.
#[derive(Copy, Clone, PartialEq, Eq, Debug, Structural)]
pub enum Key {
    A,
    C,
    D,
    E,
    G,
    Q,
    S,
    W,
    Z,
    Escape,
    Other(i32),
}

/// The widgets of the interface.
#[derive(Copy, Clone, PartialEq, Eq, Debug, Structural)]
pub enum Id {
    Zoom,
    CameraZ,
    Plus,
    Minus,
}

/// The direction a movement key moves the camera (AZERTY): C down, W up, Z north,
/// S south, Q west, D east.
pub open spec fn key_direction(k: Key) -> Option<Direction> {
    match k {
        Key::C => Some(Direction::Down),
        Key::W => Some(Direction::Up),
        Key::Z => Some(Direction::North),
        Key::S => Some(Direction::South),
        Key::Q => Some(Direction::West),
        Key::D => Some(Direction::East),
        _ => None,
    }
}

/// The six movement keys each move the camera its own way, in three opposite
/// pairs: Z north and S south, Q west and D east, W up and C down. No two of
/// them share a direction, and no other key moves the camera.
pub proof fn law_movement_keys()
    ensures
        forall|k: Key|
            (#[trigger] key_direction(k) is Some) <==> (k == Key::Z || k == Key::S || k == Key::Q || k == Key::D
                || k == Key::W || k == Key::C),
        forall|j: Key, k: Key|
            j != k && key_direction(j) is Some && key_direction(k) is Some ==> #[trigger] key_direction(j)
                != #[trigger] key_direction(k),
        key_direction(Key::Z) == Some(Direction::North),
        key_direction(Key::Q) == Some(Direction::West),
        key_direction(Key::W) == Some(Direction::Up),
        ({
            let (z, s) = (offset(key_direction(Key::Z).unwrap()), offset(key_direction(Key::S).unwrap()));
            z.0 + s.0 == 0 && z.1 + s.1 == 0 && z.2 + s.2 == 0 && z != s
        }),
        ({
            let (q, d) = (offset(key_direction(Key::Q).unwrap()), offset(key_direction(Key::D).unwrap()));
            q.0 + d.0 == 0 && q.1 + d.1 == 0 && q.2 + d.2 == 0 && q != d
        }),
        ({
            let (w, c) = (offset(key_direction(Key::W).unwrap()), offset(key_direction(Key::C).unwrap()));
            w.0 + c.0 == 0 && w.1 + c.1 == 0 && w.2 + c.2 == 0 && w != c
        }),
{
}

impl Key {
    /// The direction of a movement key; any other key is handed back.
    pub fn to_direction(self) -> (r: Result<Direction, Key>)
        ensures
            r == (match key_direction(self) {
                Some(d) => Ok::<Direction, Key>(d),
                None => Err(self),
            }),
    {
        match self {
            Key::C => Ok(Direction::Down),
            Key::W => Ok(Direction::Up),
            Key::Z => Ok(Direction::North),
            Key::S => Ok(Direction::South),
            Key::Q => Ok(Direction::West),
            Key::D => Ok(Direction::East),
            key => Err(key),
        }
    }
}

/// The keys held and the keys just pressed, not yet handled, and the slider
/// being dragged, if any.
pub struct Inputs {
    pub pressed_keys: Vec<Key>,
    pub just_pressed_keys: Vec<Key>,
    pub dragging_slider_id: Option<Id>,
}

/// True when `keys` holds `key`.
fn holds(keys: &Vec<Key>, key: Key) -> (r: bool)
    ensures
        r == keys@.contains(key),
{
    let n = keys.len();
    let mut i: usize = 0;
    while i < n
        invariant
            n == keys@.len(),
            i <= n,
            forall|j: int| 0 <= j < i ==> keys@[j] != key,
        decreases n - i,
    {
        if keys[i] == key {
            return true;
        }
        i = i + 1;
    }
    false
}

impl Inputs {
    /// No key pressed, no slider dragged.
    pub fn new() -> (r: Inputs)
        ensures
            r.pressed_keys@.len() == 0,
            r.just_pressed_keys@.len() == 0,
            r.dragging_slider_id is None,
    {
        Inputs { pressed_keys: Vec::new(), just_pressed_keys: Vec::new(), dragging_slider_id: None }
    }

    /// True when `key` is held.
    pub fn is_key_pressed(&self, key: Key) -> (r: bool)
        ensures
            r == self.pressed_keys@.contains(key),
    {
        holds(&self.pressed_keys, key)
    }

    /// True when `key` was just pressed.
    pub fn is_key_just_pressed(&self, key: Key) -> (r: bool)
        ensures
            r == self.just_pressed_keys@.contains(key),
    {
        holds(&self.just_pressed_keys, key)
    }
}

/// Handling key `k` leaves the view's numbers in range.
pub open spec fn key_fits(r: Renderer, k: Key) -> bool {
    &&& key_direction(k) matches Some(d) ==> {
        &&& r.camera_speed > i32::MIN
        &&& i32::MIN <= camera_moved(r.camera, r.camera_speed as int, d).0 <= i32::MAX
        &&& i32::MIN <= camera_moved(r.camera, r.camera_speed as int, d).1 <= i32::MAX
    }
    &&& k == Key::E ==> r.view_distance + WIDTH <= i32::MAX
}

/// Handles a key press: a movement key moves the camera (see `Key::to_direction`),
/// G switches the grid on or off, A sees a chunk less far, E a chunk further,
/// and Escape quits. Answers whether the game goes on.
pub fn process_key(renderer: &mut Renderer, key: Key) -> (running: bool)
    requires
        key_fits(*old(renderer), key),
    ensures
        running == (key != Key::Escape),
        (final(renderer).camera.0 as int, final(renderer).camera.1 as int, final(renderer).camera.2 as int) == match key_direction(key) {
            Some(d) => camera_moved(old(renderer).camera, old(renderer).camera_speed as int, d),
            None => (old(renderer).camera.0 as int, old(renderer).camera.1 as int, old(renderer).camera.2 as int),
        },
        final(renderer).is_grid_enabled == if key == Key::G {
            !old(renderer).is_grid_enabled
        } else {
            old(renderer).is_grid_enabled
        },
        final(renderer).view_distance == if key == Key::A {
            decreased_view(old(renderer).view_distance as int)
        } else if key == Key::E {
            old(renderer).view_distance + WIDTH
        } else {
            old(renderer).view_distance as int
        },
        final(renderer).tile_size == old(renderer).tile_size,
        final(renderer).dims == old(renderer).dims,
        final(renderer).camera_speed == old(renderer).camera_speed,
{
    match key.to_direction() {
        Ok(dir) => {
            renderer.move_camera(dir);
        },
        Err(_) => {},
    }
    match key {
        Key::G => {
            renderer.is_grid_enabled = if renderer.is_grid_enabled {
                false
            } else {
                true
            };
        },
        Key::A => {
            let _ = renderer.decrease_view_dist();
        },
        Key::E => {
            let _ = renderer.increase_view_dist();
        },
        Key::Escape => {
            return false;
        },
        _ => {},
    }
    true
}

/// Handles a turn of the mouse wheel by `scroll` notches (already signed by
/// the wheel's direction): forward widens tiles by a pixel, backward narrows
/// them by one, and the width is kept within `MIN_TILE_SIZE..=MAX_TILE_SIZE`.
pub fn process_wheel(renderer: &mut Renderer, scroll: i32)
    requires
        scroll > 0 ==> old(renderer).tile_size < usize::MAX,
        scroll < 0 ==> old(renderer).tile_size > 0,
    ensures
        ({
            let t = if scroll > 0 {
                old(renderer).tile_size + 1
            } else if scroll < 0 {
                old(renderer).tile_size - 1
            } else {
                old(renderer).tile_size as int
            };
            final(renderer).tile_size == if t < MIN_TILE_SIZE {
                MIN_TILE_SIZE as int
            } else if t > MAX_TILE_SIZE {
                MAX_TILE_SIZE as int
            } else {
                t
            }
        }),
        final(renderer).camera == old(renderer).camera,
        final(renderer).view_distance == old(renderer).view_distance,
        final(renderer).dims == old(renderer).dims,
        final(renderer).is_grid_enabled == old(renderer).is_grid_enabled,
        final(renderer).camera_speed == old(renderer).camera_speed,
{
    if scroll > 0 {
        renderer.tile_size = renderer.tile_size + 1;
    } else if scroll < 0 {
        renderer.tile_size = renderer.tile_size - 1;
    }
    if renderer.tile_size < MIN_TILE_SIZE {
        renderer.tile_size = MIN_TILE_SIZE;
    } else if renderer.tile_size > MAX_TILE_SIZE {
        renderer.tile_size = MAX_TILE_SIZE;
    }
}

} // verus!
