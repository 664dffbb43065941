use vstd::prelude::*;

use super::index::{self, flat_of_i32, index_in_chunk, xyz_of, flat_index};
use super::manager::LoadedChunk;
use super::tile::Tile;
use super::{Chunk, ChunkContent, FLAT_CHUNK_SIZE, WIDTH};

verus! {

impl LoadedChunk {
    /// True when `(x, y)` lies in the chunk's square, borders included.
    pub open spec fn spec_has(&self, x: int, y: int) -> bool {
        let w = WIDTH as int;
        let (x_min, x_max) = (self.pos.0 * w, (self.pos.0 + 1) * w - 1);
        let (y_min, y_max) = (self.pos.1 * w, (self.pos.1 + 1) * w - 1);
        x_min <= x <= x_max && y_min <= y <= y_max
    }

    /// Checks whether world position `p` lies in this chunk; its height does not matter.
    pub fn has(&self, p: (i32, i32, i32)) -> (r: bool)
        requires
            i32::MIN <= self.pos.0 * 8,
            (self.pos.0 + 1) * 8 <= i32::MAX,
            i32::MIN <= self.pos.1 * 8,
            (self.pos.1 + 1) * 8 <= i32::MAX,
        ensures
            r == self.spec_has(p.0 as int, p.1 as int),
    {
        let (x, y) = (p.0, p.1);
        let w: i32 = 8;
        let (x_min, x_max) = (self.pos.0 * w, (self.pos.0 + 1) * w - 1);
        let (y_min, y_max) = (self.pos.1 * w, (self.pos.1 + 1) * w - 1);
        if x >= x_min && x <= x_max && y >= y_min && y <= y_max {
            true
        } else {
            false
        }
    }

    /// A chunk of air at chunk position `pos`.
    pub fn new(pos: (i32, i32)) -> (r: Self)
        ensures
            r.pos == pos,
            r.c.wf(),
            forall|i: int| 0 <= i < FLAT_CHUNK_SIZE ==> #[trigger] r.c.content.0@[i] == Tile::spec_air(),
    {
        LoadedChunk { pos, c: Chunk::new() }
    }

    /// A copy of the chunk's tiles.
    pub fn access_content(&self) -> (r: ChunkContent)
        ensures
            r.0@ == self.c.content.0@,
    {
        self.c.content.copy()
    }

    /// Tile at local position `pos`.
    pub fn access_tile(&self, pos: (i32, i32, i32)) -> (r: Tile)
        requires
            self.c.wf(),
            index_in_chunk(pos),
        ensures
            r == self.c.content.0@[flat_of_i32(pos)],
    {
        self.c.content.at(pos)
    }

    /// Tile stored at the position of flat `index` (the index wraps onto the chunk).
    pub fn access_tile_from_index(&self, index: &usize) -> (r: Tile)
        requires
            self.c.wf(),
        ensures
            r == self.c.content.0@[flat_index(xyz_of(*index as int).0, xyz_of(*index as int).1, xyz_of(*index as int).2)],
    {
        let pos = index::to_xyz(*index);
        proof {
            index::lemma_xyz_of_flat_index(pos.0 as int, pos.1 as int, pos.2 as int);
        }
        self.c.content.at(pos)
    }
}

} // verus!
