//! What one cell of the world holds.

use crate::voxel::face::Face;
use crate::voxel::faces::Faces;
use vstd::prelude::*;

verus! {

/// The content of a cell: nothing, or a block that shows a tile of the atlas.
#[derive(Clone, Copy, Debug, Default, PartialEq, Eq, Structural)]
pub enum Voxel {
    #[default]
    Void,
    Tile(u32),
}

/// A cell as it is stored: its content and the faces marked as exposed.
#[derive(Clone, Copy, Debug)]
pub struct VoxelData {
    pub voxel: Voxel,
    pub faces: Faces,
}

/// A cell as the specifications see it.
#[verifier::ext_equal]
pub struct CellView {
    pub voxel: Voxel,
    pub faces: Set<Face>,
}

impl View for VoxelData {
    type V = CellView;

    open spec fn view(&self) -> CellView {
        CellView { voxel: self.voxel, faces: self.faces@ }
    }
}

impl Default for VoxelData {
    /// An empty cell with no face marked.
    fn default() -> (data: Self)
        ensures
            data@ == CellView::empty(),
    {
        Self { voxel: Voxel::Void, faces: Faces::empty() }
    }
}

impl CellView {
    /// An empty cell with no face marked.
    pub open spec fn empty() -> CellView {
        CellView { voxel: Voxel::Void, faces: Set::empty() }
    }

    /// Whether the cell holds a block.
    pub open spec fn occupied(self) -> bool {
        self.voxel is Tile
    }

    /// Whether a face of the cell is drawn: the cell holds a block and the
    /// face is marked.
    pub open spec fn shows(self, face: Face) -> bool {
        self.occupied() && self.faces.contains(face)
    }

    /// The number of faces of the cell that are drawn.
    pub open spec fn exposed_faces(self) -> nat {
        self.exposed_upto(6)
    }

    /// The number of drawn faces among the first `k` of the fixed order.
    pub open spec fn exposed_upto(self, k: nat) -> nat
        decreases k,
    {
        if k == 0 {
            0
        } else {
            let rest = self.exposed_upto((k - 1) as nat);
            if self.shows(Face::spec_from_index(k - 1)) {
                rest + 1
            } else {
                rest
            }
        }
    }
}

} // verus!
