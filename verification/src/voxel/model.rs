//! The world as the specifications see it, and what an edit does to it.

use crate::graphics::mesh::Vertex;
use crate::graphics::texture::written;
use crate::types::{Extent3d, Offset3d};
use crate::voxel::cell::{CellView, Voxel};
use crate::voxel::face::Face;
use crate::voxel::grid::{
    cell_count, direction, in_bounds, index_to_position, position_to_index, step,
};
use vstd::prelude::*;

verus! {

/// The width of one tile image of the atlas, in texels.
pub const TILE_WIDTH: u32 = 8;

/// The height of one tile image of the atlas, in texels: the pictures of
/// the top face, the sides and the bottom face stand one above the other.
pub const TILE_HEIGHT: u32 = 24;

/// The number of bytes of one tile image.
pub const TILE_BYTES: usize = 768;

/// A world as the specifications see it.
pub struct WorldView {
    /// The extent of the grid.
    pub size: Extent3d<u32>,
    /// The number of tiles of the atlas: a block shows a tile below it.
    pub max_tiles: u32,
    /// The cells in storage order.
    pub cells: Seq<CellView>,
    /// The vertices of the mesh as it was generated last.
    pub mesh: Seq<Vertex>,
    /// The bytes of the atlas, row by row.
    pub atlas: Seq<u8>,
}

impl WorldView {
    /// A world of empty cells with no mesh and a blank atlas.
    pub open spec fn blank(size: Extent3d<u32>, max_tiles: u32) -> WorldView {
        WorldView {
            size,
            max_tiles,
            cells: Seq::new(cell_count(size) as nat, |index: int| CellView::empty()),
            mesh: Seq::empty(),
            atlas: Seq::new((TILE_BYTES * max_tiles) as nat, |index: int| 0u8),
        }
    }

    /// The atlas once the image of a tile was written from `pixels`: the
    /// tiles stand side by side, so tile `t` starts `t` tile widths from the
    /// left edge and fills the whole height.
    pub open spec fn atlas_with_tile(self, tile: u32, pixels: Seq<u8>) -> Seq<u8> {
        written(
            self.atlas,
            TILE_WIDTH * self.max_tiles,
            4,
            Offset3d { x: (TILE_WIDTH * tile) as u32, y: 0, z: 0 },
            Extent3d { width: TILE_WIDTH, height: TILE_HEIGHT, depth: 1 },
            pixels,
        )
    }

    /// Whether a position lies inside the world.
    pub open spec fn contains(self, position: Offset3d<int>) -> bool {
        in_bounds(self.size, position)
    }

    /// The storage index of a position inside the world.
    pub open spec fn index_of(self, position: Offset3d<int>) -> int {
        position_to_index(self.size, position).unwrap()
    }

    /// The position of a storage index.
    pub open spec fn position_of(self, index: int) -> Offset3d<int> {
        index_to_position(self.size, index).unwrap()
    }

    /// The cell at a position inside the world.
    pub open spec fn cell(self, position: Offset3d<int>) -> CellView {
        self.cells[self.index_of(position)]
    }

    /// The content of the cell at a position, for the positions inside the world.
    pub open spec fn voxel_at(self, position: Offset3d<int>) -> Option<Voxel> {
        if self.contains(position) {
            Some(self.cell(position).voxel)
        } else {
            None
        }
    }

    /// Whether a cell may hold this content: every tile lies in the atlas.
    pub open spec fn accepts(self, voxel: Voxel) -> bool {
        match voxel {
            Voxel::Void => true,
            Voxel::Tile(tile) => tile < self.max_tiles,
        }
    }

    /// Whether there is nothing behind a face of a cell: the neighbour there
    /// is empty, or the world ends.
    pub open spec fn open_towards(self, position: Offset3d<int>, face: Face) -> bool {
        let neighbour = step(position, face);
        !self.contains(neighbour) || !self.cell(neighbour).occupied()
    }

    /// Whether a face of the cell at a position is drawn.
    pub open spec fn exposed(self, position: Offset3d<int>, face: Face) -> bool {
        self.contains(position) && self.cell(position).shows(face)
    }

    /// There is one cell for every position, and the atlas has room for
    /// every tile.
    pub open spec fn shaped(self) -> bool {
        &&& self.cells.len() == cell_count(self.size)
        &&& self.max_tiles > 0
        &&& self.atlas.len() == TILE_BYTES * self.max_tiles
    }

    /// Every block shows a tile of the atlas.
    pub open spec fn tiles_in_atlas(self) -> bool {
        forall|index: int|
            0 <= index < self.cells.len() ==> self.accepts(#[trigger] self.cells[index].voxel)
    }

    /// A face of a block is marked exactly where there is nothing behind it.
    pub open spec fn faces_consistent(self) -> bool {
        forall|index: int, face: Face|
            0 <= index < self.cells.len() && self.cells[index].occupied() ==> (
            #[trigger] self.cells[index].faces.contains(face) <==> self.open_towards(
                self.position_of(index),
                face,
            ))
    }

    /// What holds of every world between two operations.
    pub open spec fn valid(self) -> bool {
        &&& self.shaped()
        &&& self.tiles_in_atlas()
        &&& self.faces_consistent()
    }

    /// The marks of the edited cell once the first `k` faces were handled.
    ///
    /// Where the world ends behind a face, the face is marked. Where a block
    /// was written, a face is marked before an empty neighbour and cleared
    /// before a block. Where the cell was emptied, the marks towards its
    /// neighbours stay as they were.
    pub open spec fn target_faces(self, position: Offset3d<int>, voxel: Voxel, k: int) -> Set<
        Face,
    > {
        Set::new(
            |face: Face|
                if face.index() < k && !self.contains(step(position, face)) {
                    true
                } else if face.index() < k && voxel is Tile {
                    !self.cell(step(position, face)).occupied()
                } else {
                    self.cell(position).faces.contains(face)
                },
        )
    }

    /// The marks of a block behind `face` of the edited cell: the face that
    /// looks back at the edited cell is marked if that cell was emptied and
    /// cleared if a block was written; the others stay.
    pub open spec fn neighbour_faces(old: Set<Face>, face: Face, voxel: Voxel) -> Set<Face> {
        if voxel is Tile {
            old.remove(face.spec_opposite())
        } else {
            old.insert(face.spec_opposite())
        }
    }

    /// The cell at `index` once `voxel` was written at `position` and the
    /// first `k` faces of that cell were handled.
    pub open spec fn cell_after(
        self,
        position: Offset3d<int>,
        voxel: Voxel,
        k: int,
        index: int,
    ) -> CellView {
        let here = self.position_of(index);
        let old = self.cells[index];
        if here == position {
            CellView { voxel, faces: self.target_faces(position, voxel, k) }
        } else {
            match direction(position, here) {
                Some(face) => if face.index() < k && old.occupied() {
                    CellView { voxel: old.voxel, faces: Self::neighbour_faces(old.faces, face, voxel) }
                } else {
                    old
                },
                None => old,
            }
        }
    }

    /// The world once `voxel` was written at `position` and the first `k`
    /// faces of that cell were handled.
    pub open spec fn set_upto(self, position: Offset3d<int>, voxel: Voxel, k: int) -> WorldView {
        WorldView {
            cells: Seq::new(self.cells.len(), |index: int| self.cell_after(position, voxel, k, index)),
            ..self
        }
    }

    /// The world after `voxel` was written at `position`: the cell holds
    /// it, and the marks of the cell and of its six neighbours follow.
    pub open spec fn set(self, position: Offset3d<int>, voxel: Voxel) -> WorldView {
        self.set_upto(position, voxel, 6)
    }
}

} // verus!
