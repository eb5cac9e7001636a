//! The mesh of a world: two triangles for every drawn face.

use crate::graphics::mesh::Vertex;
use crate::types::{Color, Offset2d, Offset3d};
use crate::voxel::cell::{CellView, Voxel};
use crate::voxel::face::Face;
use crate::voxel::model::WorldView;
use vstd::prelude::*;

verus! {

/// Vertex `k` of a face of the block at `position` that shows `tile`.
///
/// The cell is a cube of side 1 around its position, so in half cell sides
/// the vertex lies at twice the position plus the corner of the face. Every
/// vertex is white. Tile `t` fills the atlas between `t` and `t + 1` tile
/// widths from the left.
pub open spec fn vertex(position: Offset3d<int>, tile: u32, face: Face, k: int) -> Vertex {
    Vertex {
        position: Offset3d {
            x: (2 * position.x + face.corner(k).x) as i64,
            y: (2 * position.y + face.corner(k).y) as i64,
            z: (2 * position.z + face.corner(k).z) as i64,
        },
        color: Color::<u32>::spec_unit(true, true, true, true),
        uv: Offset2d { x: (tile + face.uv(k).x) as u32, y: face.uv(k).y as u32 },
    }
}

/// The first `k` of the six vertices of a face.
pub open spec fn face_vertices(position: Offset3d<int>, tile: u32, face: Face, k: int) -> Seq<
    Vertex,
> {
    Seq::new(k as nat, |i: int| vertex(position, tile, face, i))
}

/// The vertices of the drawn faces of a cell among the first `k` faces of
/// the fixed order: none for an empty cell, six for each marked face of a
/// block.
pub open spec fn cell_vertices(position: Offset3d<int>, cell: CellView, k: nat) -> Seq<Vertex>
    decreases k,
{
    if k == 0 {
        Seq::empty()
    } else {
        let rest = cell_vertices(position, cell, (k - 1) as nat);
        let face = Face::spec_from_index(k - 1);
        match cell.voxel {
            Voxel::Tile(tile) => if cell.faces.contains(face) {
                rest + face_vertices(position, tile, face, 6)
            } else {
                rest
            },
            Voxel::Void => rest,
        }
    }
}

impl WorldView {
    /// The vertices of the first `n` cells in storage order.
    pub open spec fn mesh_upto(self, n: nat) -> Seq<Vertex>
        decreases n,
    {
        if n == 0 {
            Seq::empty()
        } else {
            self.mesh_upto((n - 1) as nat) + cell_vertices(
                self.position_of(n - 1),
                self.cells[n - 1],
                6,
            )
        }
    }

    /// The mesh of the world: for every cell in storage order, for every
    /// face in the fixed order that is drawn, its six vertices.
    pub open spec fn generated_mesh(self) -> Seq<Vertex> {
        self.mesh_upto(self.cells.len())
    }

    /// The number of drawn faces of the first `n` cells.
    pub open spec fn exposed_upto(self, n: nat) -> nat
        decreases n,
    {
        if n == 0 {
            0
        } else {
            self.exposed_upto((n - 1) as nat) + self.cells[n - 1].exposed_faces()
        }
    }

    /// The number of drawn faces of the world.
    pub open spec fn exposed_faces(self) -> nat {
        self.exposed_upto(self.cells.len())
    }

    /// A cell has six vertices for each of its drawn faces.
    pub proof fn lemma_cell_vertices_len(position: Offset3d<int>, cell: CellView, k: nat)
        ensures
            cell_vertices(position, cell, k).len() == 6 * cell.exposed_upto(k),
        decreases k,
    {
        if k > 0 {
            Self::lemma_cell_vertices_len(position, cell, (k - 1) as nat);
        }
    }

    /// The first `n` cells have six vertices for each of their drawn faces.
    pub proof fn lemma_mesh_upto_len(self, n: nat)
        ensures
            self.mesh_upto(n).len() == 6 * self.exposed_upto(n),
        decreases n,
    {
        if n > 0 {
            self.lemma_mesh_upto_len((n - 1) as nat);
            Self::lemma_cell_vertices_len(self.position_of(n - 1), self.cells[n - 1], 6);
        }
    }

    /// The mesh has six vertices for each drawn face of the world.
    pub proof fn law_mesh_vertex_count(self)
        ensures
            self.generated_mesh().len() == 6 * self.exposed_faces(),
    {
        self.lemma_mesh_upto_len(self.cells.len());
    }
}

} // verus!
