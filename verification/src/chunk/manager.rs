use vstd::prelude::*;

use super::index::{fits_in_chunk, flat_of_i32, index_in_chunk};
use super::tile::Tile;
use super::{Chunk, WIDTH};

verus! {

/// Rust's integer division, rounding toward zero.
pub open spec fn trunc_div(a: int, b: int) -> int {
    if a >= 0 {
        a / b
    } else {
        -((-a) / b)
    }
}

/// Position of the chunk that world position `p` falls in.
pub open spec fn chunk_pos_of(p: (i32, i32, i32)) -> (int, int) {
    (trunc_div(p.0 as int, WIDTH as int), trunc_div(p.1 as int, WIDTH as int))
}

/// A generated chunk and its position in the world (in chunks).
pub struct LoadedChunk {
    pub pos: (i32, i32),
    pub c: Chunk,
}

/// The chunks currently loaded; at most one per position.
pub struct Manager {
    pub loaded_chunks: Vec<LoadedChunk>,
}

impl Manager {
    /// Every loaded chunk is well formed and no two share a position.
    pub open spec fn wf(&self) -> bool {
        &&& forall|i: int| 0 <= i < self.loaded_chunks@.len() ==> #[trigger] self.loaded_chunks@[i].c.wf()
        &&& forall|i: int, j: int|
            0 <= i < self.loaded_chunks@.len() && 0 <= j < self.loaded_chunks@.len()
                && #[trigger] self.loaded_chunks@[i].pos == #[trigger] self.loaded_chunks@[j].pos ==> i == j
    }

    /// A chunk is loaded at position `cp`.
    pub open spec fn has_chunk(&self, cp: (int, int)) -> bool {
        exists|i: int|
            0 <= i < self.loaded_chunks@.len() && (#[trigger] self.loaded_chunks@[i]).pos.0 == cp.0
                && self.loaded_chunks@[i].pos.1 == cp.1
    }

    /// Index of the chunk loaded at `cp` (meaningful when `has_chunk(cp)`).
    pub open spec fn chunk_index(&self, cp: (int, int)) -> int {
        choose|i: int|
            0 <= i < self.loaded_chunks@.len() && (#[trigger] self.loaded_chunks@[i]).pos.0 == cp.0
                && self.loaded_chunks@[i].pos.1 == cp.1
    }

    /// Where reading `p` does not fail: a chunk holding `p` reads its content at
    /// the flat index of `p` itself, which must lie inside the chunk.
    pub open spec fn readable(&self, p: (i32, i32, i32)) -> bool {
        self.has_chunk(chunk_pos_of(p)) ==> index_in_chunk(p)
    }

    /// The tile read at world position `p`: `None` when no chunk is loaded there.
    pub open spec fn spec_tile_at(&self, p: (i32, i32, i32)) -> Option<Tile> {
        if self.has_chunk(chunk_pos_of(p)) {
            Some(self.loaded_chunks@[self.chunk_index(chunk_pos_of(p))].c.content.0@[flat_of_i32(p)])
        } else {
            None
        }
    }

    /// A manager with no chunk loaded.
    pub fn empty() -> (r: Self)
        ensures
            r.wf(),
            r.loaded_chunks@.len() == 0,
    {
        Manager { loaded_chunks: Vec::new() }
    }

    /// Tile at world position `p`, if a chunk is loaded there.
    pub fn tile_at(&self, p: (i32, i32, i32)) -> (r: Option<Tile>)
        requires
            self.wf(),
            self.readable(p),
        ensures
            r == self.spec_tile_at(p),
    {
        let chunk_pos = (p.0 / (WIDTH as i32), p.1 / (WIDTH as i32));
        assert(chunk_pos.0 == chunk_pos_of(p).0 && chunk_pos.1 == chunk_pos_of(p).1);
        let n = self.loaded_chunks.len();
        let mut i: usize = 0;
        while i < n
            invariant
                self.wf(),
                self.readable(p),
                n == self.loaded_chunks@.len(),
                i <= n,
                chunk_pos.0 == chunk_pos_of(p).0,
                chunk_pos.1 == chunk_pos_of(p).1,
                forall|j: int| 0 <= j < i ==> (#[trigger] self.loaded_chunks@[j]).pos != chunk_pos,
            decreases n - i,
        {
            let loaded_chunk = &self.loaded_chunks[i];
            if loaded_chunk.pos.0 == chunk_pos.0 && loaded_chunk.pos.1 == chunk_pos.1 {
                proof {
                    assert(self.has_chunk(chunk_pos_of(p)));
                    let k = self.chunk_index(chunk_pos_of(p));
                    assert(self.loaded_chunks@[k].pos == self.loaded_chunks@[i as int].pos);
                }
                return Some(loaded_chunk.c.get(p));
            }
            i = i + 1;
        }
        proof {
            if self.has_chunk(chunk_pos_of(p)) {
                let k = self.chunk_index(chunk_pos_of(p));
                assert(self.loaded_chunks@[k].pos == chunk_pos);
            }
        }
        None
    }

    /// `after` is `before` with `chunk` loaded at its position, in place of the
    /// chunk loaded there if any; the chunks at other positions stay.
    pub open spec fn inserted(before: Manager, after: Manager, chunk: LoadedChunk) -> bool {
        &&& after.has_chunk((chunk.pos.0 as int, chunk.pos.1 as int))
        &&& after.loaded_chunks@[after.chunk_index((chunk.pos.0 as int, chunk.pos.1 as int))] == chunk
        &&& forall|cp: (int, int)|
            cp != (chunk.pos.0 as int, chunk.pos.1 as int) ==> (#[trigger] after.has_chunk(cp) == before.has_chunk(cp)
                && (before.has_chunk(cp) ==> after.loaded_chunks@[after.chunk_index(cp)]
                == before.loaded_chunks@[before.chunk_index(cp)]))
    }

    /// Once a chunk is loaded, reading a position that falls in it gives the
    /// chunk's tile there; reading anywhere else gives what it gave before.
    pub proof fn law_insert_then_read(before: Manager, after: Manager, chunk: LoadedChunk, w: (i32, i32, i32))
        requires
            Manager::inserted(before, after, chunk),
        ensures
            chunk_pos_of(w) == (chunk.pos.0 as int, chunk.pos.1 as int) ==> after.spec_tile_at(w) == Some(
                chunk.c.content.0@[flat_of_i32(w)],
            ),
            chunk_pos_of(w) != (chunk.pos.0 as int, chunk.pos.1 as int) ==> after.spec_tile_at(w)
                == before.spec_tile_at(w),
    {
        if chunk_pos_of(w) != (chunk.pos.0 as int, chunk.pos.1 as int) {
            assert(after.has_chunk(chunk_pos_of(w)) == before.has_chunk(chunk_pos_of(w)));
        }
    }

    /// Loads `chunk`, replacing the chunk previously loaded at its position.
    pub fn insert(&mut self, chunk: LoadedChunk)
        requires
            old(self).wf(),
            chunk.c.wf(),
        ensures
            final(self).wf(),
            Manager::inserted(*old(self), *final(self), chunk),
    {
        let n = self.loaded_chunks.len();
        let mut i: usize = 0;
        while i < n
            invariant
                n == self.loaded_chunks@.len(),
                i <= n,
                *self == *old(self),
                old(self).wf(),
                chunk.c.wf(),
                forall|j: int| 0 <= j < i ==> (#[trigger] self.loaded_chunks@[j]).pos != chunk.pos,
            decreases n - i,
        {
            if self.loaded_chunks[i].pos.0 == chunk.pos.0 && self.loaded_chunks[i].pos.1 == chunk.pos.1 {
                let ghost before = self.loaded_chunks@;
                let pos = chunk.pos;
                self.loaded_chunks.set(i, chunk);
                proof {
                    let after = self.loaded_chunks@;
                    assert(after =~= before.update(i as int, chunk));
                    assert forall|a: int| 0 <= a < after.len() implies #[trigger] after[a].c.wf() by {
                        if a != i {
                            assert(before[a] == after[a]);
                        }
                    }
                    assert forall|a: int, b: int|
                        0 <= a < after.len() && 0 <= b < after.len() && #[trigger] after[a].pos
                            == #[trigger] after[b].pos implies a == b by {
                        if a != i && b != i {
                            assert(before[a].pos == before[b].pos);
                        } else if a == i && b != i {
                            assert(before[b].pos == before[i as int].pos);
                        } else if b == i && a != i {
                            assert(before[a].pos == before[i as int].pos);
                        }
                    }
                    assert forall|cp: (int, int)| cp != (pos.0 as int, pos.1 as int) implies (
                    #[trigger] self.has_chunk(cp) == old(self).has_chunk(cp) && (old(self).has_chunk(cp)
                        ==> self.loaded_chunks@[self.chunk_index(cp)] == old(self).loaded_chunks@[old(
                    self).chunk_index(cp)])) by {
                        if old(self).has_chunk(cp) {
                            let k = old(self).chunk_index(cp);
                            assert(after[k] == before[k]);
                            assert(self.has_chunk(cp));
                            let k2 = self.chunk_index(cp);
                            assert(after[k2].pos == after[k].pos);
                        }
                        if self.has_chunk(cp) {
                            let k2 = self.chunk_index(cp);
                            assert(before[k2] == after[k2]);
                        }
                    }
                    assert(self.loaded_chunks@[i as int].pos == pos);
                    assert(self.has_chunk((pos.0 as int, pos.1 as int)));
                    let k3 = self.chunk_index((pos.0 as int, pos.1 as int));
                    assert(self.loaded_chunks@[k3].pos == self.loaded_chunks@[i as int].pos);
                }
                return;
            }
            i = i + 1;
        }
        let ghost before = self.loaded_chunks@;
        let pos = chunk.pos;
        self.loaded_chunks.push(chunk);
        proof {
            let after = self.loaded_chunks@;
            assert(after =~= before.push(chunk));
            assert forall|a: int| 0 <= a < after.len() implies #[trigger] after[a].c.wf() by {
                if a != n {
                    assert(before[a] == after[a]);
                }
            }
            assert forall|a: int, b: int|
                0 <= a < after.len() && 0 <= b < after.len() && #[trigger] after[a].pos
                    == #[trigger] after[b].pos implies a == b by {
                if a != n && b != n {
                    assert(before[a].pos == before[b].pos);
                } else if a == n && b != n {
                    assert(before[b].pos == pos);
                } else if b == n && a != n {
                    assert(before[a].pos == pos);
                }
            }
            assert forall|cp: (int, int)| cp != (pos.0 as int, pos.1 as int) implies (
            #[trigger] self.has_chunk(cp) == old(self).has_chunk(cp) && (old(self).has_chunk(cp)
                ==> self.loaded_chunks@[self.chunk_index(cp)] == old(self).loaded_chunks@[old(
            self).chunk_index(cp)])) by {
                if old(self).has_chunk(cp) {
                    let k = old(self).chunk_index(cp);
                    assert(after[k] == before[k]);
                    assert(self.has_chunk(cp));
                    let k2 = self.chunk_index(cp);
                    assert(after[k2].pos == after[k].pos);
                }
                if self.has_chunk(cp) {
                    let k2 = self.chunk_index(cp);
                    if k2 == n {
                        assert(after[k2].pos == pos);
                    } else {
                        assert(before[k2] == after[k2]);
                    }
                }
            }
            assert(self.loaded_chunks@[n as int].pos == pos);
            assert(self.has_chunk((pos.0 as int, pos.1 as int)));
            let k3 = self.chunk_index((pos.0 as int, pos.1 as int));
            assert(self.loaded_chunks@[k3].pos == self.loaded_chunks@[n as int].pos);
        }
    }

    /// True when reading the tile at world position `p` stays inside its chunk's content.
    pub fn readable_at(&self, p: (i32, i32, i32)) -> (r: bool)
        ensures
            r == self.readable(p),
    {
        let chunk_pos = (p.0 / (WIDTH as i32), p.1 / (WIDTH as i32));
        assert(chunk_pos.0 == chunk_pos_of(p).0 && chunk_pos.1 == chunk_pos_of(p).1);
        !self.contains(chunk_pos) || fits_in_chunk(p)
    }

    /// True when a chunk is loaded at `pos`.
    pub fn contains(&self, pos: (i32, i32)) -> (r: bool)
        ensures
            r == self.has_chunk((pos.0 as int, pos.1 as int)),
    {
        let n = self.loaded_chunks.len();
        let mut i: usize = 0;
        while i < n
            invariant
                n == self.loaded_chunks@.len(),
                i <= n,
                forall|j: int| 0 <= j < i ==> (#[trigger] self.loaded_chunks@[j]).pos != pos,
            decreases n - i,
        {
            if self.loaded_chunks[i].pos.0 == pos.0 && self.loaded_chunks[i].pos.1 == pos.1 {
                return true;
            }
            i = i + 1;
        }
        proof {
            if self.has_chunk((pos.0 as int, pos.1 as int)) {
                let k = self.chunk_index((pos.0 as int, pos.1 as int));
                assert(self.loaded_chunks@[k].pos == pos);
            }
        }
        false
    }

    /// The positions `(x, y)` with `y` in `y0..y1`, in order, where no chunk is loaded.
    pub open spec fn missing_in_column(&self, x: int, y0: int, y1: int) -> Seq<(i32, i32)>
        decreases y1 - y0,
    {
        if y1 <= y0 {
            Seq::empty()
        } else {
            self.missing_in_column(x, y0, y1 - 1) + if self.has_chunk((x, y1 - 1)) {
                Seq::empty()
            } else {
                seq![(x as i32, (y1 - 1) as i32)]
            }
        }
    }

    /// The positions with `x` in `x0..x1` and `y` in `y0..y1`, column by column,
    /// where no chunk is loaded.
    pub open spec fn missing_in_range(&self, x0: int, x1: int, y0: int, y1: int) -> Seq<(i32, i32)>
        decreases x1 - x0,
    {
        if x1 <= x0 {
            Seq::empty()
        } else {
            self.missing_in_range(x0, x1 - 1, y0, y1) + self.missing_in_column(x1 - 1, y0, y1)
        }
    }

    /// The positions, within the camera's range `(x min, x max, y min, y max)`
    /// (maxima excluded), of the chunks still to be generated, column by column.
    pub fn look_for_new_chunks(&self, range: (i32, i32, i32, i32)) -> (r: Vec<(i32, i32)>)
        ensures
            r@ == self.missing_in_range(range.0 as int, range.1 as int, range.2 as int, range.3 as int),
    {
        let (x_min, x_max, y_min, y_max) = range;
        let mut new_chunks: Vec<(i32, i32)> = Vec::new();
        let mut x = x_min;
        while x < x_max
            invariant
                x_min <= x,
                x_min < x_max ==> x <= x_max,
                x_min >= x_max ==> x == x_min,
                new_chunks@ == self.missing_in_range(x_min as int, x as int, y_min as int, y_max as int),
            decreases x_max - x,
        {
            let ghost done = new_chunks@;
            let mut y = y_min;
            while y < y_max
                invariant
                    x_min <= x < x_max,
                    y_min <= y,
                    y_min < y_max ==> y <= y_max,
                    y_min >= y_max ==> y == y_min,
                    done == self.missing_in_range(x_min as int, x as int, y_min as int, y_max as int),
                    new_chunks@ == done + self.missing_in_column(x as int, y_min as int, y as int),
                decreases y_max - y,
            {
                if !self.contains((x, y)) {
                    new_chunks.push((x, y));
                }
                proof {
                    assert(new_chunks@ =~= done + self.missing_in_column(x as int, y_min as int, y + 1));
                }
                y = y + 1;
            }
            proof {
                if y_min >= y_max {
                    assert(self.missing_in_column(x as int, y_min as int, y as int) =~= Seq::empty());
                    assert(self.missing_in_column(x as int, y_min as int, y_max as int) =~= Seq::empty());
                    assert(new_chunks@ =~= done + self.missing_in_column(x as int, y_min as int, y_max as int));
                }
            }
            x = x + 1;
        }
        proof {
            if x_min >= x_max {
                assert(self.missing_in_range(x_min as int, x_max as int, y_min as int, y_max as int) =~= Seq::empty());
            }
        }
        new_chunks
    }

    /// The positions with `x` in `x_range` and `y` in `y_range`, row by row.
    pub open spec fn range_positions(x0: int, x1: int, y0: int, y1: int) -> Seq<(i32, i32)>
        decreases y1 - y0,
    {
        if y1 <= y0 {
            Seq::empty()
        } else {
            Manager::range_positions(x0, x1, y0, y1 - 1) + Seq::new(
                if x1 > x0 {
                    (x1 - x0) as nat
                } else {
                    0nat
                },
                |i: int| ((x0 + i) as i32, (y1 - 1) as i32),
            )
        }
    }

    /// The positions of the chunks to generate over `x_range` by `y_range`, row
    /// by row (each is generated by a thread of its own).
    pub fn generate_range(&self, x_range: core::ops::Range<i32>, y_range: core::ops::Range<i32>) -> (r: Vec<(i32, i32)>)
        ensures
            r@ == Manager::range_positions(
                x_range.start as int,
                x_range.end as int,
                y_range.start as int,
                y_range.end as int,
            ),
    {
        let mut m: Vec<(i32, i32)> = Vec::new();
        let mut j = y_range.start;
        while j < y_range.end
            invariant
                y_range.start <= j,
                y_range.start < y_range.end ==> j <= y_range.end,
                y_range.start >= y_range.end ==> j == y_range.start,
                m@ == Manager::range_positions(x_range.start as int, x_range.end as int, y_range.start as int, j as int),
            decreases y_range.end - j,
        {
            let ghost done = m@;
            let mut i = x_range.start;
            while i < x_range.end
                invariant
                    y_range.start <= j < y_range.end,
                    x_range.start <= i,
                    x_range.start < x_range.end ==> i <= x_range.end,
                    x_range.start >= x_range.end ==> i == x_range.start,
                    done == Manager::range_positions(x_range.start as int, x_range.end as int, y_range.start as int, j as int),
                    m@ == done + Seq::new((i - x_range.start) as nat, |k: int| ((x_range.start + k) as i32, j)),
                decreases x_range.end - i,
            {
                m.push((i, j));
                assert(m@ =~= done + Seq::new((i + 1 - x_range.start) as nat, |k: int| ((x_range.start + k) as i32, j)));
                i = i + 1;
            }
            let ghost row = Seq::new((i - x_range.start) as nat, |k: int| ((x_range.start + k) as i32, j));
            assert(row =~= Seq::new(
                if x_range.end > x_range.start {
                    (x_range.end - x_range.start) as nat
                } else {
                    0nat
                },
                |k: int| ((x_range.start + k) as i32, ((j + 1) - 1) as i32),
            ));
            assert(m@ =~= Manager::range_positions(x_range.start as int, x_range.end as int, y_range.start as int, j + 1));
            j = j + 1;
        }
        proof {
            if y_range.start >= y_range.end {
                assert(Manager::range_positions(x_range.start as int, x_range.end as int, y_range.start as int, y_range.end as int) =~= Seq::empty());
            }
        }
        m
    }
}

} // verus!
