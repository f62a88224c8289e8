//! The fixed mesh: a unit cube of side 1 centered on the origin, as
//! 8 vertices and 12 triangles (index triples).  Coordinates are 16.16
//! fixed point, so every component is plus or minus one half (32768).

use crate::fx::FP;
use vstd::prelude::*;

verus! {

/// Half the cube's side in fixed point: 0.5.
pub const HALF_SIDE: i64 = 32768;

/// How many vertices the mesh has.
pub const VERTEX_COUNT: usize = 8;

/// How many triangles the mesh has.
pub const TRI_COUNT: usize = 12;

/// Model-space position of vertex `i`, as (x, y, z).
pub open spec fn vertex_s(i: int) -> (int, int, int) {
    if i == 0 {
        (-32768, -32768, -32768)
    } else if i == 1 {
        (32768, -32768, -32768)
    } else if i == 2 {
        (32768, 32768, -32768)
    } else if i == 3 {
        (-32768, 32768, -32768)
    } else if i == 4 {
        (-32768, -32768, 32768)
    } else if i == 5 {
        (32768, -32768, 32768)
    } else if i == 6 {
        (32768, 32768, 32768)
    } else {
        (-32768, 32768, 32768)
    }
}

/// Vertex indices of triangle `t`, in winding order.
pub open spec fn tri_s(t: int) -> (int, int, int) {
    if t == 0 {
        (0, 1, 2)
    } else if t == 1 {
        (0, 2, 3)
    } else if t == 2 {
        (4, 6, 5)
    } else if t == 3 {
        (4, 7, 6)
    } else if t == 4 {
        (0, 3, 7)
    } else if t == 5 {
        (0, 7, 4)
    } else if t == 6 {
        (1, 5, 6)
    } else if t == 7 {
        (1, 6, 2)
    } else if t == 8 {
        (0, 4, 5)
    } else if t == 9 {
        (0, 5, 1)
    } else if t == 10 {
        (3, 2, 6)
    } else {
        (3, 6, 7)
    }
}

/// Model-space position of vertex `i`.  Every component lies within
/// one fixed-point unit, which the transform stage relies on.
pub fn vertex(i: usize) -> (v: (i64, i64, i64))
    requires
        i < VERTEX_COUNT,
    ensures
        v.0 as int == vertex_s(i as int).0,
        v.1 as int == vertex_s(i as int).1,
        v.2 as int == vertex_s(i as int).2,
        -FP <= v.0 <= FP,
        -FP <= v.1 <= FP,
        -FP <= v.2 <= FP,
{
    match i {
        0 => (-HALF_SIDE, -HALF_SIDE, -HALF_SIDE),
        1 => (HALF_SIDE, -HALF_SIDE, -HALF_SIDE),
        2 => (HALF_SIDE, HALF_SIDE, -HALF_SIDE),
        3 => (-HALF_SIDE, HALF_SIDE, -HALF_SIDE),
        4 => (-HALF_SIDE, -HALF_SIDE, HALF_SIDE),
        5 => (HALF_SIDE, -HALF_SIDE, HALF_SIDE),
        6 => (HALF_SIDE, HALF_SIDE, HALF_SIDE),
        _ => (-HALF_SIDE, HALF_SIDE, HALF_SIDE),
    }
}

/// Vertex indices of triangle `t`.  Every index is a valid vertex
/// index, the mesh's basic invariant.
pub fn tri(t: usize) -> (r: (usize, usize, usize))
    requires
        t < TRI_COUNT,
    ensures
        r.0 as int == tri_s(t as int).0,
        r.1 as int == tri_s(t as int).1,
        r.2 as int == tri_s(t as int).2,
        r.0 < VERTEX_COUNT,
        r.1 < VERTEX_COUNT,
        r.2 < VERTEX_COUNT,
{
    match t {
        0 => (0, 1, 2),
        1 => (0, 2, 3),
        2 => (4, 6, 5),
        3 => (4, 7, 6),
        4 => (0, 3, 7),
        5 => (0, 7, 4),
        6 => (1, 5, 6),
        7 => (1, 6, 2),
        8 => (0, 4, 5),
        9 => (0, 5, 1),
        10 => (3, 2, 6),
        _ => (3, 6, 7),
    }
}

} // verus!
