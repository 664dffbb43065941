use vstd::prelude::*;

use crate::ant::direction::Direction;
use crate::chunk::manager::{trunc_div, LoadedChunk, Manager};
use crate::chunk::index::{flat_of_i32, in_chunk};
use crate::chunk::tile::{Tile, TileFlag, TRANSPARENT};
use crate::chunk::{Chunk, CHUNK_WIDTH, HEIGHT, WIDTH};

verus! {

/// When drawing an air tile, the renderer looks for tiles to draw below it:
/// at most this many tiles are stacked.
pub const MAX_RENDERING_DEPTH: u8 = 25;

/// Width of a rendered tile, in pixels, at start.
pub const DEFAULT_TILE_SIZE: usize = 5;

/// Whether the grid is drawn at start.
pub const IS_GRID_ENABLED: bool = false;

/// Height from which clouds are drawn: ten tiles above sea level.
pub const CLOUDS_HEIGHT: i32 = 74;

/// Whether clouds are drawn.
pub const CLOUDS_RENDERING: bool = false;

/// How far the camera sees, in tiles: five chunk widths.
pub const VIEW_DISTANCE: i32 = 40;

/// Window width at start.
pub const WIN_DEFAULT_W: u32 = 300;

/// Window height at start.
pub const WIN_DEFAULT_H: u32 = 300;

/// Size of the text font.
pub const FONT_SIZE: u16 = 15;

/// Smallest tile width, in pixels.
pub const MIN_TILE_SIZE: usize = 1;

/// Largest tile width, in pixels.
pub const MAX_TILE_SIZE: usize = 100;

/// What the renderer knows of the view: the camera (x, y and height z), how
/// fast it moves, how far it sees, the window's size, whether the grid is drawn
/// and the width of a tile in pixels.
pub struct Renderer {
    pub camera: (i32, i32, i32),
    pub camera_speed: i32,
    pub view_distance: i32,
    pub dims: (u32, u32),
    pub is_grid_enabled: bool,
    pub tile_size: usize,
}

/// The four bounds (x min, x max, y min, y max) of the chunks the camera sees.
pub open spec fn range_of(camera: (i32, i32, i32), view: i32) -> (int, int, int, int) {
    (
        trunc_div(-camera.0 - view, WIDTH as int),
        trunc_div(-camera.0 + view, WIDTH as int),
        trunc_div(-camera.1 - view, WIDTH as int),
        trunc_div(-camera.1 + view, WIDTH as int),
    )
}

/// Position `p` lies in the range `(x min, x max, y min, y max)`, bounds included.
pub open spec fn in_range(p: (i32, i32), r: (int, int, int, int)) -> bool {
    r.0 <= p.0 <= r.1 && r.2 <= p.1 <= r.3
}

/// Where the camera goes when moved in direction `d` at speed `speed`: up and
/// down by one level within `0..=HEIGHT`, sideways by `speed`.
pub open spec fn camera_moved(c: (i32, i32, i32), speed: int, d: Direction) -> (int, int, int) {
    match d {
        Direction::Up => if c.2 < HEIGHT as int {
            (c.0 as int, c.1 as int, c.2 + 1)
        } else {
            (c.0 as int, c.1 as int, c.2 as int)
        },
        Direction::Down => if c.2 > 0 {
            (c.0 as int, c.1 as int, c.2 - 1)
        } else {
            (c.0 as int, c.1 as int, c.2 as int)
        },
        Direction::North => (c.0 as int, c.1 + speed, c.2 as int),
        Direction::East => (c.0 - speed, c.1 as int, c.2 as int),
        Direction::South => (c.0 as int, c.1 - speed, c.2 as int),
        Direction::West => (c.0 + speed, c.1 as int, c.2 as int),
    }
}

/// The view distance once decreased: a chunk width less, down to nothing.
pub open spec fn decreased_view(v: int) -> int {
    if v > WIDTH {
        v - WIDTH
    } else {
        0
    }
}

/// `new` is `old` with tiles drawn `d` pixels larger, nothing else changed.
pub open spec fn zoomed(old: Renderer, new: Renderer, d: int) -> bool {
    &&& new.tile_size == old.tile_size + d
    &&& new.camera == old.camera
    &&& new.camera_speed == old.camera_speed
    &&& new.view_distance == old.view_distance
    &&& new.dims == old.dims
    &&& new.is_grid_enabled == old.is_grid_enabled
}

/// Zooming in then out gives the same view back.
pub proof fn law_zoom_back(r0: Renderer, r1: Renderer, r2: Renderer)
    requires
        zoomed(r0, r1, 1),
        zoomed(r1, r2, -1),
    ensures
        r2 == r0,
{
}

/// Seeing a chunk further, then a chunk less, gives any view distance back.
pub proof fn law_view_distance_back(v: int)
    requires
        v >= 0,
    ensures
        decreased_view(v + WIDTH) == v,
{
}

/// Moving the camera one way then the opposite way brings it back: north and
/// south, east and west, and up and down between the bottom and the top.
pub proof fn law_camera_back(c: (i32, i32, i32), speed: int)
    requires
        0 <= c.2 < HEIGHT,
        i32::MIN <= c.1 + speed <= i32::MAX,
        i32::MIN <= c.0 - speed <= i32::MAX,
    ensures
        ({
            let n = camera_moved(c, speed, Direction::North);
            camera_moved((n.0 as i32, n.1 as i32, n.2 as i32), speed, Direction::South) == (c.0 as int, c.1 as int, c.2 as int)
        }),
        ({
            let e = camera_moved(c, speed, Direction::East);
            camera_moved((e.0 as i32, e.1 as i32, e.2 as i32), speed, Direction::West) == (c.0 as int, c.1 as int, c.2 as int)
        }),
        ({
            let u = camera_moved(c, speed, Direction::Up);
            camera_moved((u.0 as i32, u.1 as i32, u.2 as i32), speed, Direction::Down) == (c.0 as int, c.1 as int, c.2 as int)
        }),
{
}

impl Renderer {
    /// Screen position of the world's origin: the camera scaled by the tile
    /// width, plus half the window.
    pub open spec fn offset_of(self) -> (int, int) {
        (
            self.camera.0 * self.tile_size + self.dims.0 / 2,
            self.camera.1 * self.tile_size + self.dims.1 / 2,
        )
    }

    /// Screen position of world tile `p`.
    pub open spec fn screen_of(self, p: (int, int)) -> (int, int) {
        (self.offset_of().0 + p.0 * self.tile_size, self.offset_of().1 + p.1 * self.tile_size)
    }

    /// A chunk's width of tiles, in pixels, and the window size fit in an `i32`.
    pub open spec fn sizes_fit(self) -> bool {
        &&& CHUNK_WIDTH * self.tile_size <= i32::MAX
        &&& self.dims.0 <= i32::MAX
        &&& self.dims.1 <= i32::MAX
    }

    /// The screen position of the world's origin fits in an `i32`, every step
    /// of its computation included.
    pub open spec fn offset_fits(self) -> bool {
        &&& self.sizes_fit()
        &&& i32::MIN <= self.camera.0 * self.tile_size <= i32::MAX
        &&& i32::MIN <= self.camera.1 * self.tile_size <= i32::MAX
        &&& i32::MIN <= self.offset_of().0 <= i32::MAX
        &&& i32::MIN <= self.offset_of().1 <= i32::MAX
    }

    /// The screen position of world tile `(x, y)` fits in an `i32`, every step
    /// of its computation included.
    pub open spec fn point_fits(self, x: int, y: int) -> bool {
        &&& self.offset_fits()
        &&& i32::MIN <= x * self.tile_size <= i32::MAX
        &&& i32::MIN <= y * self.tile_size <= i32::MAX
        &&& i32::MIN <= self.screen_of((x, y)).0 <= i32::MAX
        &&& i32::MIN <= self.screen_of((x, y)).1 <= i32::MAX
    }

    /// The view at start: camera at the origin just above sea level, moving 10
    /// tiles at a time, seeing `VIEW_DISTANCE` tiles, in a default window, no
    /// grid, tiles `DEFAULT_TILE_SIZE` pixels wide.
    pub fn new() -> (r: Renderer)
        ensures
            r.camera == (0i32, 0i32, 65i32),
            r.camera_speed == 10,
            r.view_distance == VIEW_DISTANCE,
            r.dims == (WIN_DEFAULT_W, WIN_DEFAULT_H),
            r.is_grid_enabled == IS_GRID_ENABLED,
            r.tile_size == DEFAULT_TILE_SIZE,
    {
        Renderer {
            camera: (0, 0, 65),
            camera_speed: 10,
            view_distance: VIEW_DISTANCE,
            dims: (WIN_DEFAULT_W, WIN_DEFAULT_H),
            is_grid_enabled: IS_GRID_ENABLED,
            tile_size: DEFAULT_TILE_SIZE,
        }
    }

    /// The chunks the camera sees, as `(x min, x max, y min, y max)`: the
    /// camera position, negated, plus or minus the view distance, in chunks
    /// (rounded toward zero).
    pub fn camera_range_i32(&self) -> (r: (i32, i32, i32, i32))
        requires
            i32::MIN <= -self.camera.0 - self.view_distance <= i32::MAX,
            i32::MIN <= -self.camera.0 + self.view_distance <= i32::MAX,
            i32::MIN <= -self.camera.1 - self.view_distance <= i32::MAX,
            i32::MIN <= -self.camera.1 + self.view_distance <= i32::MAX,
        ensures
            (r.0 as int, r.1 as int, r.2 as int, r.3 as int) == range_of(self.camera, self.view_distance),
    {
        let w = WIDTH as i32;
        (
            (-self.camera.0 - self.view_distance) / w,
            (-self.camera.0 + self.view_distance) / w,
            (-self.camera.1 - self.view_distance) / w,
            (-self.camera.1 + self.view_distance) / w,
        )
    }

    /// Keeps only the loaded chunks whose position lies in the camera's range.
    pub fn filter_visible_chunks(&self, chunks: &mut Manager)
        requires
            i32::MIN <= -self.camera.0 - self.view_distance <= i32::MAX,
            i32::MIN <= -self.camera.0 + self.view_distance <= i32::MAX,
            i32::MIN <= -self.camera.1 - self.view_distance <= i32::MAX,
            i32::MIN <= -self.camera.1 + self.view_distance <= i32::MAX,
        ensures
            final(chunks).loaded_chunks@ == old(chunks).loaded_chunks@.filter(
                |c: LoadedChunk| in_range(c.pos, range_of(self.camera, self.view_distance)),
            ),
    {
        let (x_min, x_max, y_min, y_max) = self.camera_range_i32();
        let ghost keep = |c: LoadedChunk| in_range(c.pos, range_of(self.camera, self.view_distance));
        let mut old_chunks: Vec<LoadedChunk> = Vec::new();
        std::mem::swap(&mut old_chunks, &mut chunks.loaded_chunks);
        let ghost all = old_chunks@;
        let mut kept: Vec<LoadedChunk> = Vec::new();
        let mut rest = old_chunks;
        let ghost n = all.len();
        while rest.len() > 0
            invariant
                all == old(chunks).loaded_chunks@,
                n == all.len(),
                rest@.len() <= n,
                rest@ == all.skip(n - rest@.len()),
                kept@ == all.take(n - rest@.len()).filter(keep),
                keep == (|c: LoadedChunk| in_range(c.pos, range_of(self.camera, self.view_distance))),
                (x_min as int, x_max as int, y_min as int, y_max as int) == range_of(self.camera, self.view_distance),
            decreases rest@.len(),
        {
            let ghost i = n - rest@.len();
            let c = rest.remove(0);
            proof {
                assert(all.skip(i + 1) =~= all.skip(i).remove(0));
                reveal_with_fuel(Seq::<_>::filter, 1);
                assert(all.take(i + 1).drop_last() =~= all.take(i));
            }
            let (x, y) = c.pos;
            if x >= x_min && x <= x_max && y >= y_min && y <= y_max {
                kept.push(c);
            }
        }
        assert(all.take(n as int) =~= all);
        chunks.loaded_chunks = kept;
    }

    /// Sees one chunk width further.
    pub fn increase_view_dist(&mut self) -> (r: Result<(), ()>)
        requires
            old(self).view_distance + WIDTH <= i32::MAX,
        ensures
            r is Ok,
            final(self).view_distance == old(self).view_distance + WIDTH,
            final(self).camera == old(self).camera,
            final(self).tile_size == old(self).tile_size,
            final(self).dims == old(self).dims,
            final(self).is_grid_enabled == old(self).is_grid_enabled,
            final(self).camera_speed == old(self).camera_speed,
    {
        self.view_distance = self.view_distance + WIDTH as i32;
        Ok(())
    }

    /// Sees one chunk width less, down to nothing.
    pub fn decrease_view_dist(&mut self) -> (r: Result<(), ()>)
        ensures
            r is Ok,
            final(self).view_distance == decreased_view(old(self).view_distance as int),
            final(self).camera == old(self).camera,
            final(self).tile_size == old(self).tile_size,
            final(self).dims == old(self).dims,
            final(self).is_grid_enabled == old(self).is_grid_enabled,
            final(self).camera_speed == old(self).camera_speed,
    {
        if self.view_distance > WIDTH as i32 {
            self.view_distance = self.view_distance - WIDTH as i32;
        } else {
            self.view_distance = 0;
        }
        Ok(())
    }

    /// Tiles one pixel wider.
    pub fn zoom_in(&mut self) -> (r: Result<(), ()>)
        requires
            old(self).tile_size < usize::MAX,
        ensures
            r is Ok,
            zoomed(*old(self), *final(self), 1),
    {
        self.tile_size = self.tile_size + 1;
        Ok(())
    }

    /// Tiles one pixel narrower.
    pub fn zoom_out(&mut self) -> (r: Result<(), ()>)
        requires
            old(self).tile_size > 0,
        ensures
            r is Ok,
            zoomed(*old(self), *final(self), -1),
    {
        self.tile_size = self.tile_size - 1;
        Ok(())
    }

    /// Moves the camera in direction `dir` (see `camera_moved`).
    pub fn move_camera(&mut self, dir: Direction)
        requires
            old(self).camera_speed > i32::MIN,
            i32::MIN <= camera_moved(old(self).camera, old(self).camera_speed as int, dir).0 <= i32::MAX,
            i32::MIN <= camera_moved(old(self).camera, old(self).camera_speed as int, dir).1 <= i32::MAX,
        ensures
            (final(self).camera.0 as int, final(self).camera.1 as int, final(self).camera.2 as int) == camera_moved(
                old(self).camera,
                old(self).camera_speed as int,
                dir,
            ),
            final(self).tile_size == old(self).tile_size,
            final(self).view_distance == old(self).view_distance,
            final(self).dims == old(self).dims,
            final(self).is_grid_enabled == old(self).is_grid_enabled,
            final(self).camera_speed == old(self).camera_speed,
    {
        let (x, y, z) = self.camera;
        let speed = self.camera_speed;
        let mv: (i32, i32, i32) = match dir {
            Direction::Up => if z < HEIGHT as i32 {
                (0, 0, 1)
            } else {
                (0, 0, 0)
            },
            Direction::Down => if z > 0 {
                (0, 0, -1)
            } else {
                (0, 0, 0)
            },
            Direction::North => (0, speed, 0),
            Direction::East => (-speed, 0, 0),
            Direction::South => (0, -speed, 0),
            Direction::West => (speed, 0, 0),
        };
        self.camera = (x + mv.0, y + mv.1, z + mv.2);
    }

    /// Screen position of the world's origin (see `offset_of`).
    pub fn get_offset(&self) -> (r: (i32, i32))
        requires
            self.offset_fits(),
        ensures
            (r.0 as int, r.1 as int) == self.offset_of(),
    {
        let (w, h) = self.dims;
        let half_w = (w as i32) / 2;
        let half_h = (h as i32) / 2;
        let offset_x = self.camera.0 * (self.tile_size as i32) + half_w;
        let offset_y = self.camera.1 * (self.tile_size as i32) + half_h;
        (offset_x, offset_y)
    }

    /// Screen position of world tile `(x, y)` (see `screen_of`).
    pub fn tile_to_screen_coords(&self, p: (i32, i32)) -> (r: (i32, i32))
        requires
            self.point_fits(p.0 as int, p.1 as int),
        ensures
            (r.0 as int, r.1 as int) == self.screen_of((p.0 as int, p.1 as int)),
    {
        let (x, y) = p;
        let offset = self.get_offset();
        let pixel_x = offset.0 + x * (self.tile_size as i32);
        let pixel_y = offset.1 + y * (self.tile_size as i32);
        (pixel_x, pixel_y)
    }

    /// World tile of tile `tile_pos` of the chunk at `chunk_pos`.
    pub fn to_world_coords(chunk_pos: (i32, i32), tile_pos: (i32, i32)) -> (r: (i32, i32))
        requires
            i32::MIN <= chunk_pos.0 * CHUNK_WIDTH <= i32::MAX,
            i32::MIN <= chunk_pos.1 * CHUNK_WIDTH <= i32::MAX,
            i32::MIN <= chunk_pos.0 * CHUNK_WIDTH + tile_pos.0 <= i32::MAX,
            i32::MIN <= chunk_pos.1 * CHUNK_WIDTH + tile_pos.1 <= i32::MAX,
        ensures
            r.0 == chunk_pos.0 * CHUNK_WIDTH + tile_pos.0,
            r.1 == chunk_pos.1 * CHUNK_WIDTH + tile_pos.1,
    {
        let x = chunk_pos.0 * (CHUNK_WIDTH as i32) + tile_pos.0;
        let y = chunk_pos.1 * (CHUNK_WIDTH as i32) + tile_pos.1;
        (x, y)
    }

    /// The chunk at `chunk_pos`, drawn from its corner on, overlaps the window.
    pub open spec fn chunk_on_screen(self, chunk_pos: (i32, i32)) -> bool {
        let s = self.screen_of((chunk_pos.0 * CHUNK_WIDTH, chunk_pos.1 * CHUNK_WIDTH));
        let px = CHUNK_WIDTH * self.tile_size;
        &&& s.0 + px > 0 && s.0 < self.dims.0
        &&& s.1 + px > 0 && s.1 < self.dims.1
    }

    /// True when the chunk at `chunk_pos` overlaps the window.
    pub fn is_chunk_on_screen(&self, chunk_pos: (i32, i32)) -> (r: bool)
        requires
            i32::MIN <= chunk_pos.0 * CHUNK_WIDTH <= i32::MAX,
            i32::MIN <= chunk_pos.1 * CHUNK_WIDTH <= i32::MAX,
            self.point_fits(chunk_pos.0 * CHUNK_WIDTH, chunk_pos.1 * CHUNK_WIDTH),
            self.screen_of((chunk_pos.0 * CHUNK_WIDTH, chunk_pos.1 * CHUNK_WIDTH)).0 + CHUNK_WIDTH * self.tile_size <= i32::MAX,
            self.screen_of((chunk_pos.0 * CHUNK_WIDTH, chunk_pos.1 * CHUNK_WIDTH)).1 + CHUNK_WIDTH * self.tile_size <= i32::MAX,
        ensures
            r == self.chunk_on_screen(chunk_pos),
    {
        let world_x = chunk_pos.0 * (CHUNK_WIDTH as i32);
        let world_y = chunk_pos.1 * (CHUNK_WIDTH as i32);
        let (screen_x, screen_y) = self.tile_to_screen_coords((world_x, world_y));
        let chunk_px = (CHUNK_WIDTH as i32) * (self.tile_size as i32);
        let left = screen_x;
        let right = screen_x + chunk_px;
        let top = screen_y;
        let bottom = screen_y + chunk_px;
        let win_w = self.dims.0 as i32;
        let win_h = self.dims.1 as i32;
        let x_overlap = right > 0 && left < win_w;
        let y_overlap = bottom > 0 && top < win_h;
        x_overlap && y_overlap
    }

    /// The chunk at `chunk_pos` can be tested for being on screen without overflow.
    pub open spec fn chunk_fits(self, chunk_pos: (i32, i32)) -> bool {
        &&& i32::MIN <= chunk_pos.0 * CHUNK_WIDTH <= i32::MAX
        &&& i32::MIN <= chunk_pos.1 * CHUNK_WIDTH <= i32::MAX
        &&& self.point_fits(chunk_pos.0 * CHUNK_WIDTH, chunk_pos.1 * CHUNK_WIDTH)
        &&& self.screen_of((chunk_pos.0 * CHUNK_WIDTH, chunk_pos.1 * CHUNK_WIDTH)).0 + CHUNK_WIDTH * self.tile_size <= i32::MAX
        &&& self.screen_of((chunk_pos.0 * CHUNK_WIDTH, chunk_pos.1 * CHUNK_WIDTH)).1 + CHUNK_WIDTH * self.tile_size <= i32::MAX
    }

    /// Positions of the chunks of `chunks` that overlap the window, in order.
    pub fn visible_chunks(&self, chunks: &Vec<LoadedChunk>) -> (r: Vec<(i32, i32)>)
        requires
            forall|i: int| 0 <= i < chunks@.len() ==> self.chunk_fits(#[trigger] chunks@[i].pos),
        ensures
            r@ == chunks@.filter(|c: LoadedChunk| self.chunk_on_screen(c.pos)).map_values(|c: LoadedChunk| c.pos),
    {
        let ghost keep = |c: LoadedChunk| self.chunk_on_screen(c.pos);
        let ghost pos = |c: LoadedChunk| c.pos;
        let mut v: Vec<(i32, i32)> = Vec::new();
        let n = chunks.len();
        let mut i: usize = 0;
        while i < n
            invariant
                n == chunks@.len(),
                i <= n,
                forall|k: int| 0 <= k < chunks@.len() ==> self.chunk_fits(#[trigger] chunks@[k].pos),
                keep == (|c: LoadedChunk| self.chunk_on_screen(c.pos)),
                pos == (|c: LoadedChunk| c.pos),
                v@ == chunks@.take(i as int).filter(keep).map_values(pos),
            decreases n - i,
        {
            proof {
                reveal_with_fuel(Seq::<_>::filter, 1);
                assert(chunks@.take(i + 1).drop_last() =~= chunks@.take(i as int));
            }
            let ghost before = chunks@.take(i as int).filter(keep);
            let p = chunks[i].pos;
            if self.is_chunk_on_screen(p) {
                v.push(p);
                assert(before.push(chunks@[i as int]).map_values(pos) =~= before.map_values(pos).push(p));
            }
            i = i + 1;
        }
        assert(chunks@.take(n as int) =~= chunks@);
        v
    }
}

/// Light goes through the tile.
pub open spec fn see_through(t: Tile) -> bool {
    t.properties.bits & TRANSPARENT == TRANSPARENT
}

/// `v` is what is seen looking down column `(x, y)` of chunk `c` from height
/// `z`: the tiles from `z` downward, stopping at the first that is not
/// transparent, at the bottom, or after `MAX_RENDERING_DEPTH` tiles.
pub open spec fn column_view(c: &Chunk, x: i32, y: i32, z: i32, v: Seq<Tile>) -> bool {
    &&& 1 <= v.len() <= z + 1
    &&& forall|k: int| 0 <= k < v.len() ==> #[trigger] v[k] == c.content.0@[flat_of_i32((x, y, (z - k) as i32))]
    &&& forall|k: int| 0 <= k < v.len() - 1 ==> see_through(#[trigger] v[k]) && k + 1 < MAX_RENDERING_DEPTH
    &&& !see_through(v.last()) || v.len() == z + 1 || v.len() >= MAX_RENDERING_DEPTH
}

impl Chunk {
    /// The tiles to draw for column `(x, y)` seen from height `z`, top first
    /// (see `column_view`).
    pub fn tiles_to_draw(&self, x: i32, y: i32, z: i32) -> (r: Vec<Tile>)
        requires
            self.wf(),
            in_chunk(x as int, y as int, z as int),
        ensures
            column_view(self, x, y, z, r@),
    {
        let mut v: Vec<Tile> = Vec::new();
        let mut depth: u8 = 1;
        let mut current_z = z;
        loop
            invariant_except_break
                self.wf(),
                in_chunk(x as int, y as int, z as int),
                0 <= current_z <= z,
                depth == z - current_z + 1,
                depth <= MAX_RENDERING_DEPTH,
                v@.len() == z - current_z,
                forall|k: int| 0 <= k < v@.len() ==> #[trigger] v@[k] == self.content.0@[flat_of_i32((x, y, (z - k) as i32))],
                forall|k: int| 0 <= k < v@.len() ==> see_through(#[trigger] v@[k]) && k + 1 < MAX_RENDERING_DEPTH,
            ensures
                column_view(self, x, y, z, v@),
            decreases current_z,
        {
            proof {
                assert(flat_of_i32((x, y, current_z)) < 8192) by (nonlinear_arith)
                    requires
                        0 <= x < 8,
                        0 <= y < 8,
                        0 <= current_z < 128,
                        flat_of_i32((x, y, current_z)) == x + y * 8 + current_z * 8 * 8,
                ;
            }
            let t = self.get((x, y, current_z));
            v.push(t);
            if !t.properties.contains(TileFlag::from_bits_retain(TRANSPARENT)) || current_z == 0 || depth
                >= MAX_RENDERING_DEPTH {
                break;
            }
            current_z = current_z - 1;
            depth = depth + 1;
        }
        v
    }
}

impl LoadedChunk {
    /// The tiles to draw for column `(x, y)` of the chunk seen from height `z`.
    pub fn tiles_to_draw(&self, x: i32, y: i32, z: i32) -> (r: Vec<Tile>)
        requires
            self.c.wf(),
            in_chunk(x as int, y as int, z as int),
        ensures
            column_view(&self.c, x, y, z, r@),
    {
        self.c.tiles_to_draw(x, y, z)
    }
}

} // verus!
