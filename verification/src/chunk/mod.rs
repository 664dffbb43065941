use vstd::prelude::*;

pub mod index;
pub mod generation;
pub mod manager;
pub mod thread;
pub mod tile;

use index::{flat_of_i32, index_in_chunk, in_chunk, lemma_xyz_of_flat_index, xyz_of, flat_index};
use tile::Tile;

verus! {

/// Width and depth of a chunk, in tiles.
pub const CHUNK_WIDTH: usize = 8;
/// Height of a chunk, in tiles.
pub const CHUNK_HEIGHT: usize = 128;
/// Width of a chunk, in tiles.
pub const WIDTH: usize = CHUNK_WIDTH;
/// Height of a chunk, in tiles.
pub const HEIGHT: usize = CHUNK_HEIGHT;
/// Number of tiles of one chunk.
pub const FLAT_CHUNK_SIZE: usize = 8192;
/// Height of the water surface.
pub const SEA_LEVEL: usize = 64;

/// Tiles of one chunk, stored flat (see `index::flat_index`).
pub struct ChunkContent(pub Vec<Tile>);

impl ChunkContent {
    /// Holds exactly one tile per position of a chunk.
    pub open spec fn wf(&self) -> bool {
        self.0.len() == FLAT_CHUNK_SIZE
    }

    /// An identical copy of the tiles.
    pub fn copy(&self) -> (r: Self)
        ensures
            r.0@ == self.0@,
    {
        let mut v: Vec<Tile> = Vec::new();
        let n = self.0.len();
        let mut i: usize = 0;
        while i < n
            invariant
                n == self.0@.len(),
                i <= n,
                v@ == self.0@.subrange(0, i as int),
            decreases n - i,
        {
            v.push(self.0[i]);
            i = i + 1;
        }
        assert(self.0@.subrange(0, n as int) =~= self.0@);
        ChunkContent(v)
    }

    /// A chunk full of air.
    pub fn new() -> (r: Self)
        ensures
            r.wf(),
            forall|i: int| 0 <= i < FLAT_CHUNK_SIZE ==> #[trigger] r.0@[i] == Tile::spec_air(),
    {
        let mut v: Vec<Tile> = Vec::new();
        let mut i: usize = 0;
        while i < FLAT_CHUNK_SIZE
            invariant
                i <= FLAT_CHUNK_SIZE,
                v.len() == i,
                forall|j: int| 0 <= j < i ==> #[trigger] v@[j] == Tile::spec_air(),
            decreases FLAT_CHUNK_SIZE - i,
        {
            v.push(Tile::air());
            i = i + 1;
        }
        ChunkContent(v)
    }

    /// Number of tiles of a chunk.
    pub fn len() -> (r: usize)
        ensures
            r == FLAT_CHUNK_SIZE,
    {
        FLAT_CHUNK_SIZE
    }

    /// All the positions of the vertical column holding the flat `index`, bottom first.
    pub fn column(index: i32) -> (r: Vec<(i32, i32, i32)>)
        requires
            0 <= index < FLAT_CHUNK_SIZE,
        ensures
            r@.len() == CHUNK_HEIGHT,
            forall|z: int|
                0 <= z < CHUNK_HEIGHT ==> #[trigger] r@[z] == (
                    xyz_of(index as int).0 as i32,
                    xyz_of(index as int).1 as i32,
                    z as i32,
                ),
    {
        let (x, y, _) = index::to_xyz(index as usize);
        let mut v: Vec<(i32, i32, i32)> = Vec::new();
        let mut z: i32 = 0;
        while z < CHUNK_HEIGHT as i32
            invariant
                0 <= z <= CHUNK_HEIGHT,
                v@.len() == z,
                x == xyz_of(index as int).0,
                y == xyz_of(index as int).1,
                forall|k: int| 0 <= k < z ==> #[trigger] v@[k] == (x, y, k as i32),
            decreases CHUNK_HEIGHT - z,
        {
            v.push((x, y, z));
            z = z + 1;
        }
        v
    }

    /// Tile at local position `p`.
    pub fn at(&self, p: (i32, i32, i32)) -> (r: Tile)
        requires
            self.wf(),
            index_in_chunk(p),
        ensures
            r == self.0@[flat_of_i32(p)],
    {
        self.0[index::flatten_index_i32(p)]
    }

    /// Tile at flat index `i`.
    pub fn at_index(&self, i: usize) -> (r: Tile)
        requires
            self.wf(),
            i < FLAT_CHUNK_SIZE,
        ensures
            r == self.0@[i as int],
    {
        self.0[i]
    }
}

/// Writing a tile at an in-chunk position changes that tile and no other:
/// reading the position back gives what was written.
pub proof fn law_set_then_get(before: Chunk, after: Chunk, p: (i32, i32, i32), t: Tile, q: (i32, i32, i32))
    requires
        before.wf(),
        in_chunk(p.0 as int, p.1 as int, p.2 as int),
        in_chunk(q.0 as int, q.1 as int, q.2 as int),
        after.content.0@ == before.content.0@.update(flat_of_i32(p), t),
    ensures
        after.content.0@[flat_of_i32(q)] == if p == q {
            t
        } else {
            before.content.0@[flat_of_i32(q)]
        },
{
    lemma_xyz_of_flat_index(p.0 as int, p.1 as int, p.2 as int);
    lemma_xyz_of_flat_index(q.0 as int, q.1 as int, q.2 as int);
}

/// A column-major block of `CHUNK_WIDTH x CHUNK_WIDTH x CHUNK_HEIGHT` tiles.
pub struct Chunk {
    pub content: ChunkContent,
}

impl Chunk {
    /// The chunk holds exactly `FLAT_CHUNK_SIZE` tiles.
    pub open spec fn wf(&self) -> bool {
        self.content.wf()
    }

    /// A chunk full of air.
    pub fn new() -> (r: Self)
        ensures
            r.wf(),
            forall|i: int| 0 <= i < FLAT_CHUNK_SIZE ==> #[trigger] r.content.0@[i] == Tile::spec_air(),
    {
        Self { content: ChunkContent::new() }
    }

    /// The tile at position `p` of the chunk.
    pub fn get(&self, p: (i32, i32, i32)) -> (r: Tile)
        requires
            self.wf(),
            index_in_chunk(p),
        ensures
            r == self.content.0@[flat_of_i32(p)],
    {
        self.content.at(p)
    }

    /// Replaces the tile at position `p` of the chunk.
    pub fn set(&mut self, p: (i32, i32, i32), tile: Tile)
        requires
            old(self).wf(),
            index_in_chunk(p),
        ensures
            final(self).wf(),
            final(self).content.0@ == old(self).content.0@.update(flat_of_i32(p), tile),
    {
        let i = index::flatten_index_i32(p);
        self.content.0.set(i, tile);
    }

    /// ASCII rendering: one character per tile, in flat-index order.
    pub fn ascii(&self) -> (r: Vec<char>)
        requires
            self.wf(),
        ensures
            r@.len() == FLAT_CHUNK_SIZE,
            forall|i: int| 0 <= i < FLAT_CHUNK_SIZE ==> #[trigger] r@[i] == self.content.0@[i].tile_type.spec_ascii(),
    {
        let mut v: Vec<char> = Vec::new();
        let mut i: usize = 0;
        while i < FLAT_CHUNK_SIZE
            invariant
                self.wf(),
                i <= FLAT_CHUNK_SIZE,
                v@.len() == i,
                forall|j: int| 0 <= j < i ==> #[trigger] v@[j] == self.content.0@[j].tile_type.spec_ascii(),
            decreases FLAT_CHUNK_SIZE - i,
        {
            let t = self.content.at_index(i);
            v.push(t.tile_type.ascii());
            i = i + 1;
        }
        v
    }
}

} // verus!
