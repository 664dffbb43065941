use vstd::prelude::*;

use super::{CHUNK_HEIGHT, CHUNK_WIDTH, FLAT_CHUNK_SIZE};

verus! {

/// Flat index of `(x, y, z)` inside a chunk: x varies fastest, then y, then z.
pub open spec fn flat_index(x: int, y: int, z: int) -> int {
    x + y * (CHUNK_WIDTH as int) + z * (CHUNK_WIDTH as int) * (CHUNK_WIDTH as int)
}

/// Local coordinates of a flat index (x, y and z wrap at the chunk's size).
pub open spec fn xyz_of(index: int) -> (int, int, int) {
    let w = CHUNK_WIDTH as int;
    (index % w, (index / w) % w, (index / (w * w)) % (CHUNK_HEIGHT as int))
}

/// The coordinates lie inside one chunk.
pub open spec fn in_chunk(x: int, y: int, z: int) -> bool {
    0 <= x < CHUNK_WIDTH && 0 <= y < CHUNK_WIDTH && 0 <= z < CHUNK_HEIGHT
}

/// The `usize` flattening of `p`, each coordinate reinterpreted as a `usize`.
pub open spec fn flat_of_i32(p: (i32, i32, i32)) -> int {
    flat_index(p.0 as usize as int, p.1 as usize as int, p.2 as usize as int)
}

/// The flat index of `p` is a valid position of a chunk's content.
pub open spec fn index_in_chunk(p: (i32, i32, i32)) -> bool {
    flat_of_i32(p) < FLAT_CHUNK_SIZE
}

/// True when the flat index of `p` is a valid position of a chunk's content.
pub fn fits_in_chunk(p: (i32, i32, i32)) -> (r: bool)
    ensures
        r == index_in_chunk(p),
{
    let (x, y, z) = (p.0 as usize, p.1 as usize, p.2 as usize);
    if x < FLAT_CHUNK_SIZE && y < FLAT_CHUNK_SIZE && z < FLAT_CHUNK_SIZE {
        x + y * CHUNK_WIDTH + z * CHUNK_WIDTH * CHUNK_WIDTH < FLAT_CHUNK_SIZE
    } else {
        false
    }
}

/// Flat index, in a chunk's content, of a position given as `i32` components.
pub fn flatten_index_i32(p: (i32, i32, i32)) -> (r: usize)
    requires
        flat_of_i32(p) <= usize::MAX,
    ensures
        r == flat_of_i32(p),
{
    let (x, y, z) = (p.0 as usize, p.1 as usize, p.2 as usize);
    x + y * CHUNK_WIDTH + z * CHUNK_WIDTH * CHUNK_WIDTH
}

/// Flat index, in a chunk's content, of a position given as `usize` components.
pub fn flatten_index_usize(p: (usize, usize, usize)) -> (r: usize)
    requires
        flat_index(p.0 as int, p.1 as int, p.2 as int) <= usize::MAX,
    ensures
        r == flat_index(p.0 as int, p.1 as int, p.2 as int),
{
    p.0 + p.1 * CHUNK_WIDTH + p.2 * CHUNK_WIDTH * CHUNK_WIDTH
}

/// The position whose flat index in a chunk's content is `index`.
pub fn to_xyz(index: usize) -> (r: (i32, i32, i32))
    ensures
        r.0 == xyz_of(index as int).0,
        r.1 == xyz_of(index as int).1,
        r.2 == xyz_of(index as int).2,
        in_chunk(r.0 as int, r.1 as int, r.2 as int),
{
    (
        (index % CHUNK_WIDTH) as i32,
        ((index / CHUNK_WIDTH) % CHUNK_WIDTH) as i32,
        ((index / (CHUNK_WIDTH * CHUNK_WIDTH)) % CHUNK_HEIGHT) as i32,
    )
}

/// Flattening then unflattening gives back any in-chunk position.
pub proof fn lemma_xyz_of_flat_index(x: int, y: int, z: int)
    requires
        in_chunk(x, y, z),
    ensures
        xyz_of(flat_index(x, y, z)) == (x, y, z),
        0 <= flat_index(x, y, z) < FLAT_CHUNK_SIZE,
{
    let i = flat_index(x, y, z);
    assert(i == x + 8 * (y + 8 * z));
    assert((x + 8 * (y + 8 * z)) % 8 == x && (x + 8 * (y + 8 * z)) / 8 == y + 8 * z) by (nonlinear_arith)
        requires
            0 <= x < 8,
            0 <= y < 8,
            0 <= z < 128,
    ;
    assert((y + 8 * z) % 8 == y && (y + 8 * z) / 8 == z) by (nonlinear_arith)
        requires
            0 <= y < 8,
            0 <= z < 128,
    ;
    assert(i / 64 == z) by (nonlinear_arith)
        requires
            i == x + 8 * y + 64 * z,
            0 <= x < 8,
            0 <= y < 8,
            0 <= z < 128,
    ;
}

/// Unflattening then flattening gives back any index of a chunk.
pub proof fn lemma_flat_index_of_xyz(i: int)
    requires
        0 <= i < FLAT_CHUNK_SIZE,
    ensures
        flat_index(xyz_of(i).0, xyz_of(i).1, xyz_of(i).2) == i,
        in_chunk(xyz_of(i).0, xyz_of(i).1, xyz_of(i).2),
{
    assert(i % 8 + 8 * ((i / 8) % 8) + 64 * ((i / 64) % 128) == i) by (nonlinear_arith)
        requires
            0 <= i < 8192,
    ;
    assert(0 <= i % 8 < 8 && 0 <= (i / 8) % 8 < 8 && 0 <= (i / 64) % 128 < 128) by (nonlinear_arith)
        requires
            0 <= i,
    ;
}

} // verus!
