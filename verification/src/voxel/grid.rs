//! The mapping between signed grid positions and storage indices.
//!
//! A world of extent `(w, h, d)` is centred on the origin: along each axis
//! the positions run from `-(extent / 2)` upwards. The cells are stored row
//! by row, layer by layer: `x` runs fastest, then `y`, then `z`.

use crate::types::{Extent3d, Offset3d};
use crate::voxel::face::Face;
use vstd::arithmetic::div_mod::{lemma_div_denominator, lemma_fundamental_div_mod_converse};
use vstd::prelude::*;

verus! {

/// The position of the first stored cell.
pub open spec fn origin_offset(size: Extent3d<u32>) -> Offset3d<int> {
    Offset3d { x: -(size.width as int / 2), y: -(size.height as int / 2), z: -(size.depth as int / 2) }
}

/// The number of cells of a world.
pub open spec fn cell_count(size: Extent3d<u32>) -> int {
    size.width * size.height * size.depth
}

/// Whether a position lies inside the world.
pub open spec fn in_bounds(size: Extent3d<u32>, position: Offset3d<int>) -> bool {
    let origin = origin_offset(size);
    &&& 0 <= position.x - origin.x < size.width
    &&& 0 <= position.y - origin.y < size.height
    &&& 0 <= position.z - origin.z < size.depth
}

/// The storage index of a position, for the positions inside the world.
pub open spec fn position_to_index(size: Extent3d<u32>, position: Offset3d<int>) -> Option<int> {
    if in_bounds(size, position) {
        let origin = origin_offset(size);
        Some(
            (position.z - origin.z) * size.width * size.height + (position.y - origin.y)
                * size.width + (position.x - origin.x),
        )
    } else {
        None
    }
}

/// The position stored at an index, for the indices below the cell count.
pub open spec fn index_to_position(size: Extent3d<u32>, index: int) -> Option<Offset3d<int>> {
    if 0 <= index < cell_count(size) {
        let origin = origin_offset(size);
        Some(
            Offset3d {
                x: index % (size.width as int) + origin.x,
                y: (index / (size.width as int)) % (size.height as int) + origin.y,
                z: index / (size.width * size.height) + origin.z,
            },
        )
    } else {
        None
    }
}

/// The position one step away through a face.
pub open spec fn step(position: Offset3d<int>, face: Face) -> Offset3d<int> {
    Offset3d {
        x: position.x + face.normal().x,
        y: position.y + face.normal().y,
        z: position.z + face.normal().z,
    }
}

/// The face of `from` behind which `to` lies, where the two are neighbours.
pub open spec fn direction(from: Offset3d<int>, to: Offset3d<int>) -> Option<Face> {
    if to == step(from, Face::PosX) {
        Some(Face::PosX)
    } else if to == step(from, Face::NegX) {
        Some(Face::NegX)
    } else if to == step(from, Face::PosY) {
        Some(Face::PosY)
    } else if to == step(from, Face::NegY) {
        Some(Face::NegY)
    } else if to == step(from, Face::PosZ) {
        Some(Face::PosZ)
    } else if to == step(from, Face::NegZ) {
        Some(Face::NegZ)
    } else {
        None
    }
}

/// A row-major index splits back into the coordinates it was made from.
pub proof fn lemma_flat_split(w: int, h: int, x: int, y: int, z: int)
    requires
        0 <= x < w,
        0 <= y < h,
        0 <= z,
    ensures
        0 <= z * w * h + y * w + x < (z + 1) * w * h,
        (z * w * h + y * w + x) % w == x,
        ((z * w * h + y * w + x) / w) % h == y,
        (z * w * h + y * w + x) / (w * h) == z,
{
    let i = z * w * h + y * w + x;
    let row = z * h + y;
    assert(i == row * w + x) by (nonlinear_arith)
        requires
            i == z * w * h + y * w + x,
            row == z * h + y,
    ;
    assert(0 <= row) by (nonlinear_arith)
        requires
            row == z * h + y,
            0 <= z,
            0 <= y < h,
    ;
    assert(0 <= i < (z + 1) * w * h) by (nonlinear_arith)
        requires
            i == row * w + x,
            row == z * h + y,
            0 <= x < w,
            0 <= y < h,
            0 <= z,
    ;
    lemma_fundamental_div_mod_converse(i, w, row, x);
    lemma_fundamental_div_mod_converse(row, h, z, y);
    lemma_div_denominator(i, w, h);
}

/// An index below the cell count splits into coordinates inside the extent,
/// from which it is made again.
pub proof fn lemma_flat_join(w: int, h: int, d: int, i: int)
    requires
        0 <= w,
        0 <= h,
        0 <= d,
        0 <= i < w * h * d,
    ensures
        0 <= i % w < w,
        0 <= (i / w) % h < h,
        0 <= i / (w * h) < d,
        (i / (w * h)) * w * h + ((i / w) % h) * w + i % w == i,
{
    assert(0 < w && 0 < h && 0 < d) by (nonlinear_arith)
        requires
            0 <= w,
            0 <= h,
            0 <= d,
            0 < w * h * d,
    ;
    let x = i % w;
    let row = i / w;
    let y = row % h;
    let z = row / h;
    lemma_div_denominator(i, w, h);
    assert(i == w * row + x && 0 <= x < w && 0 <= row) by (nonlinear_arith)
        requires
            0 < w,
            0 <= i,
            x == i % w,
            row == i / w,
    ;
    assert(row == h * z + y && 0 <= y < h && 0 <= z) by (nonlinear_arith)
        requires
            0 < h,
            0 <= row,
            y == row % h,
            z == row / h,
    ;
    assert(z * w * h + y * w + x == i) by (nonlinear_arith)
        requires
            i == w * row + x,
            row == h * z + y,
    ;
    assert(z < d) by (nonlinear_arith)
        requires
            z * w * h + y * w + x == i,
            i < w * h * d,
            0 <= x,
            0 <= y,
            0 < w,
            0 < h,
            0 <= z,
            0 <= d,
    ;
}

/// The index of a position inside the world is below the cell count.
pub proof fn lemma_index_in_range(size: Extent3d<u32>, position: Offset3d<int>)
    requires
        in_bounds(size, position),
    ensures
        0 <= position_to_index(size, position).unwrap() < cell_count(size),
{
    let origin = origin_offset(size);
    let (w, h, d) = (size.width as int, size.height as int, size.depth as int);
    let z = position.z - origin.z;
    lemma_flat_split(w, h, position.x - origin.x, position.y - origin.y, z);
    assert((z + 1) * w * h <= w * h * d) by (nonlinear_arith)
        requires
            z + 1 <= d,
            0 <= w,
            0 <= h,
    ;
}

/// The position of an index below the cell count lies inside the world.
pub proof fn lemma_position_in_bounds(size: Extent3d<u32>, index: int)
    requires
        0 <= index < cell_count(size),
    ensures
        in_bounds(size, index_to_position(size, index).unwrap()),
{
    lemma_flat_join(size.width as int, size.height as int, size.depth as int, index);
}

/// A position inside the world has coordinates that fit in 32 bits.
pub proof fn lemma_in_bounds_fits(size: Extent3d<u32>, position: Offset3d<int>)
    requires
        in_bounds(size, position),
    ensures
        i32::MIN < position.x <= i32::MAX,
        i32::MIN < position.y <= i32::MAX,
        i32::MIN < position.z <= i32::MAX,
{
}

/// Going from an index to its position and back gives the index again.
pub proof fn lemma_index_round_trip(size: Extent3d<u32>, index: int)
    requires
        0 <= index < cell_count(size),
    ensures
        position_to_index(size, index_to_position(size, index).unwrap()) == Some(index),
{
    lemma_flat_join(size.width as int, size.height as int, size.depth as int, index);
}

/// Going from a position inside the world to its index and back gives the
/// position again.
pub proof fn lemma_position_round_trip(size: Extent3d<u32>, position: Offset3d<int>)
    requires
        in_bounds(size, position),
    ensures
        index_to_position(size, position_to_index(size, position).unwrap()) == Some(position),
{
    let origin = origin_offset(size);
    lemma_index_in_range(size, position);
    lemma_flat_split(
        size.width as int,
        size.height as int,
        position.x - origin.x,
        position.y - origin.y,
        position.z - origin.z,
    );
}

/// A step through a face is undone by a step through the opposite face, and
/// `direction` finds the face of a step again.
pub proof fn lemma_step(position: Offset3d<int>, face: Face)
    ensures
        step(step(position, face), face.spec_opposite()) == position,
        step(position, face) != position,
        direction(position, step(position, face)) == Some(face),
        direction(step(position, face), position) == Some(face.spec_opposite()),
{
}

/// Where `direction` finds a face, the second position is the step through it.
pub proof fn lemma_direction(from: Offset3d<int>, to: Offset3d<int>)
    ensures
        match direction(from, to) {
            Some(face) => to == step(from, face),
            None => forall|face: Face| to != #[trigger] step(from, face),
        },
{
    assert forall|face: Face| direction(from, to) is None implies to != #[trigger] step(
        from,
        face,
    ) by {
        match face {
            Face::PosX => {},
            Face::NegX => {},
            Face::PosY => {},
            Face::NegY => {},
            Face::PosZ => {},
            Face::NegZ => {},
        }
    }
}

} // verus!
