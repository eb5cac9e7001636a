//! Triangle meshes in exact integer form.

use crate::types::{Color, Offset2d, Offset3d};
use vstd::prelude::*;

verus! {

/// One vertex of a mesh.
///
/// All three attributes are whole numbers, to be scaled by the renderer:
/// `position` counts half cell sides, `color` counts full channel
/// intensities, `uv.x` counts tile widths from the left edge of the atlas
/// and `uv.y` counts thirds of the tile height from its top.
#[derive(Clone, Copy, Debug, PartialEq, Eq)]
pub struct Vertex {
    pub position: Offset3d<i64>,
    pub color: Color<u32>,
    pub uv: Offset2d<u32>,
}

impl Vertex {
    pub fn new(position: Offset3d<i64>, color: Color<u32>, uv: Offset2d<u32>) -> (vertex: Self)
        ensures
            vertex == (Vertex { position, color, uv }),
    {
        Self { position, color, uv }
    }
}

impl Default for Vertex {
    /// A white vertex at the origin.
    fn default() -> (vertex: Self)
        ensures
            vertex == (Vertex {
                position: Offset3d { x: 0, y: 0, z: 0 },
                color: Color::<u32>::spec_unit(true, true, true, true),
                uv: Offset2d { x: 0, y: 0 },
            }),
    {
        Self { position: Offset3d::new(0, 0, 0), color: Color::white(), uv: Offset2d::new(0, 0) }
    }
}

/// A list of indices into the vertices of a mesh, three for each triangle.
#[derive(Debug)]
pub struct Submesh {
    pub indices: Vec<u32>,
}

impl Submesh {
    pub fn new(indices: &[u32]) -> (submesh: Self)
        ensures
            submesh.indices@ == indices@,
    {
        let indices = vstd::slice::slice_to_vec(indices);
        Self { indices }
    }
}

/// Where the vertices and the indices of a mesh lie in one buffer: the
/// vertices first, then the indices of each submesh, each part padded to the
/// alignment.
#[derive(Debug)]
pub struct BufferInfo {
    /// The offset and the size in bytes of the vertices.
    pub vertices_offset_size: (u64, u64),
    /// The offset and the size in bytes of the indices of each submesh.
    pub indices_offset_sizes: Vec<(u64, u64)>,
    /// The size in bytes of a buffer for all parts.
    pub aligned_size: u64,
}

impl BufferInfo {
    /// The offset of every part is a multiple of this.
    pub const ALIGNMENT: u64 = 256;

    /// The bytes of a vertex in the buffer: three numbers for the position,
    /// four for the colour and two for the texture coordinate, of four
    /// bytes each.
    pub const VERTEX_BYTES: u64 = 36;

    /// The bytes of an index in the buffer.
    pub const INDEX_BYTES: u64 = 4;

    /// The size of a part with its padding: the next multiple of the
    /// alignment above the size.
    pub open spec fn spec_aligned_size(value: int) -> int {
        value + (256 - value % 256)
    }

    /// The offset of the indices of submesh `i`; for `i` the number of
    /// submeshes, the offset at which the buffer ends.
    pub open spec fn spec_offset(vertices: int, submeshes: Seq<Submesh>, i: nat) -> int
        decreases i,
    {
        if i == 0 {
            Self::spec_aligned_size(36 * vertices)
        } else {
            Self::spec_offset(vertices, submeshes, (i - 1) as nat) + Self::spec_aligned_size(
                4 * submeshes[i - 1].indices@.len() as int,
            )
        }
    }

    /// The offsets grow from part to part by more than the size of the part.
    pub proof fn lemma_offset_grows(vertices: int, submeshes: Seq<Submesh>, i: nat, j: nat)
        requires
            0 <= vertices,
            i <= j,
        ensures
            36 * vertices < Self::spec_offset(vertices, submeshes, i) <= Self::spec_offset(
                vertices,
                submeshes,
                j,
            ),
            i < j ==> Self::spec_offset(vertices, submeshes, i) + 4 * submeshes[i as int].indices@.len()
                < Self::spec_offset(vertices, submeshes, j),
        decreases j,
    {
        if i < j {
            Self::lemma_offset_grows(vertices, submeshes, i, (j - 1) as nat);
        } else if i > 0 {
            Self::lemma_offset_grows(vertices, submeshes, (i - 1) as nat, (i - 1) as nat);
        }
    }

    /// Lays out the vertices and the indices of each submesh.
    pub fn new(vertices: &[Vertex], submeshes: &[Submesh]) -> (info: Self)
        requires
            Self::spec_offset(vertices@.len() as int, submeshes@, submeshes@.len()) <= u64::MAX,
        ensures
            info.vertices_offset_size == (0u64, (36 * vertices@.len()) as u64),
            info.indices_offset_sizes@.len() == submeshes@.len(),
            forall|i: int|
                0 <= i < submeshes@.len() ==> #[trigger] info.indices_offset_sizes@[i] == (
                    Self::spec_offset(vertices@.len() as int, submeshes@, i as nat) as u64,
                    (4 * submeshes@[i].indices@.len()) as u64,
                ),
            info.aligned_size == Self::spec_offset(
                vertices@.len() as int,
                submeshes@,
                submeshes@.len(),
            ),
    {
        let ghost count = vertices@.len() as int;
        proof {
            Self::lemma_offset_grows(count, submeshes@, 0, submeshes@.len());
        }
        let vertices_offset: u64 = 0;
        let vertices_size: u64 = vertices.len() as u64 * Self::VERTEX_BYTES;
        let mut aligned_size = Self::get_aligned_size(vertices_size);
        let mut indices_offset_sizes: Vec<(u64, u64)> = Vec::with_capacity(submeshes.len());
        let mut i: usize = 0;
        while i < submeshes.len()
            invariant
                i <= submeshes@.len(),
                count == vertices@.len(),
                Self::spec_offset(count, submeshes@, submeshes@.len()) <= u64::MAX,
                aligned_size == Self::spec_offset(count, submeshes@, i as nat),
                indices_offset_sizes@.len() == i,
                forall|j: int|
                    0 <= j < i ==> #[trigger] indices_offset_sizes@[j] == (
                        Self::spec_offset(count, submeshes@, j as nat) as u64,
                        (4 * submeshes@[j].indices@.len()) as u64,
                    ),
            decreases submeshes@.len() - i,
        {
            proof {
                Self::lemma_offset_grows(count, submeshes@, i as nat, (i + 1) as nat);
                Self::lemma_offset_grows(count, submeshes@, (i + 1) as nat, submeshes@.len());
            }
            let indices_offset: u64 = aligned_size;
            let indices_size: u64 = submeshes[i].indices.len() as u64 * Self::INDEX_BYTES;
            indices_offset_sizes.push((indices_offset, indices_size));
            aligned_size += Self::get_aligned_size(indices_size);
            i += 1;
        }
        let vertices_offset_size = (vertices_offset, vertices_size);
        Self { vertices_offset_size, indices_offset_sizes, aligned_size }
    }

    pub fn get_aligned_size(value: u64) -> (aligned: u64)
        requires
            Self::spec_aligned_size(value as int) <= u64::MAX,
        ensures
            aligned == Self::spec_aligned_size(value as int),
    {
        let remainder: u64 = value % Self::ALIGNMENT;
        value + (Self::ALIGNMENT - remainder)
    }
}

/// Why a mesh could not be drawn.
#[derive(Debug, PartialEq, Eq)]
pub enum RendererError {
    /// There is no material, or not one for every submesh.
    MaterialTexturesInvalid,
}

/// A triangle mesh: its vertices, three for each triangle where it has no
/// submeshes, and its submeshes.
#[derive(Debug)]
pub struct Mesh {
    pub vertices: Vec<Vertex>,
    pub submeshes: Vec<Submesh>,
}

impl Mesh {
    /// Makes a mesh of these vertices with a submesh for each list of indices.
    pub fn new(vertices: &[Vertex], indices: &[&[u32]]) -> (mesh: Self)
        ensures
            mesh.vertices@ == vertices@,
            mesh.submeshes@.len() == indices@.len(),
            forall|i: int|
                0 <= i < indices@.len() ==> (#[trigger] mesh.submeshes@[i]).indices@ == indices@[i]@,
    {
        let vertices = vstd::slice::slice_to_vec(vertices);
        let mut submeshes: Vec<Submesh> = Vec::with_capacity(indices.len());
        let mut i: usize = 0;
        while i < indices.len()
            invariant
                i <= indices@.len(),
                submeshes@.len() == i,
                forall|j: int| 0 <= j < i ==> (#[trigger] submeshes@[j]).indices@ == indices@[j]@,
            decreases indices@.len() - i,
        {
            submeshes.push(Submesh::new(indices[i]));
            i += 1;
        }
        Self { vertices, submeshes }
    }

    /// Checks the number of materials that a mesh is drawn with: there is
    /// at least one, and one for every submesh.
    pub fn check_materials(&self, materials: usize) -> (result: Result<(), RendererError>)
        ensures
            result is Ok <==> materials > 0 && materials >= self.submeshes@.len(),
            result is Err ==> result == Err::<(), RendererError>(
                RendererError::MaterialTexturesInvalid,
            ),
    {
        if materials == 0 || materials < self.submeshes.len() {
            return Err(RendererError::MaterialTexturesInvalid);
        }
        Ok(())
    }
}

} // verus!
