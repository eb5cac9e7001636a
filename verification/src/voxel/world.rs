//! The world: a dense grid of cells with its mesh and its tile atlas.

use crate::graphics;
use crate::graphics::mesh::{Mesh, Vertex};
use crate::graphics::texture::{AddressMode, FilterMode, Format, Sampler, Size, Texture};
use crate::types::{Color, Extent2d, Extent3d, Offset2d, Offset3d};
use crate::voxel::cell::{CellView, Voxel, VoxelData};
use crate::voxel::face::Face;
use crate::voxel::faces::Faces;
use crate::voxel::grid::{
    cell_count, in_bounds, index_to_position, lemma_flat_join, lemma_in_bounds_fits,
    lemma_index_in_range, lemma_index_round_trip, lemma_position_in_bounds,
    lemma_position_round_trip, lemma_step, origin_offset, position_to_index, step,
};
use crate::voxel::mesher::{cell_vertices, face_vertices};
use crate::voxel::model::{WorldView, TILE_BYTES, TILE_HEIGHT, TILE_WIDTH};
use vstd::prelude::*;
use vstd::std_specs::convert::FromSpecImpl;

verus! {

/// How the bytes of a tile image are laid out.
#[derive(Clone, Copy, Debug, Default, PartialEq, Eq, Hash)]
pub enum TextureLayout {
    /// One image of `TILE_WIDTH` by `TILE_HEIGHT` texels of four bytes,
    /// row by row.
    #[default]
    Single,
}

/// Why an operation on the world was refused.
#[derive(Debug, PartialEq)]
pub enum WorldError {
    /// The position lies outside the world.
    PositionInvalid(Offset3d<i32>),
    /// The tile does not lie in the atlas.
    TileIndexInvalid(u32),
    /// There are fewer bytes than the layout asks for.
    DataInvalid,
    Graphics(graphics::Error),
    Texture(graphics::texture::Error),
}

impl From<graphics::Error> for WorldError {
    fn from(value: graphics::Error) -> (error: Self) {
        WorldError::Graphics(value)
    }
}

impl FromSpecImpl<graphics::Error> for WorldError {
    open spec fn obeys_from_spec() -> bool {
        true
    }

    open spec fn from_spec(value: graphics::Error) -> Self {
        WorldError::Graphics(value)
    }
}

impl From<graphics::texture::Error> for WorldError {
    fn from(value: graphics::texture::Error) -> (error: Self) {
        WorldError::Texture(value)
    }
}

impl FromSpecImpl<graphics::texture::Error> for WorldError {
    open spec fn obeys_from_spec() -> bool {
        true
    }

    open spec fn from_spec(value: graphics::texture::Error) -> Self {
        WorldError::Texture(value)
    }
}

/// A world of fixed extent around the origin.
pub struct World {
    size: Extent3d<u32>,
    origin_offset: Offset3d<i32>,
    voxel_data: Vec<VoxelData>,
    max_tiles: u32,
    mesh: Mesh,
    texture: Texture,
}

impl View for World {
    type V = WorldView;

    closed spec fn view(&self) -> WorldView {
        WorldView {
            size: self.size,
            max_tiles: self.max_tiles,
            cells: Seq::new(self.voxel_data@.len(), |index: int| self.voxel_data@[index]@),
            mesh: self.mesh.vertices@,
            atlas: self.texture@,
        }
    }
}

/// The storage index of a position, where it lies inside a world of this
/// size and origin.
fn index_at(size: Extent3d<u32>, origin: Offset3d<i32>, position: Offset3d<i64>) -> (index: Option<
    usize,
>)
    requires
        origin@ == origin_offset(size),
        cell_count(size) <= usize::MAX,
        i32::MIN - 1 <= position.x <= i32::MAX + 1,
        i32::MIN - 1 <= position.y <= i32::MAX + 1,
        i32::MIN - 1 <= position.z <= i32::MAX + 1,
    ensures
        match index {
            Some(index) => position_to_index(size, position@) == Some(index as int),
            None => !in_bounds(size, position@),
        },
{
    let x = position.x - origin.x as i64;
    let y = position.y - origin.y as i64;
    let z = position.z - origin.z as i64;
    if x < 0 || x >= size.width as i64 || y < 0 || y >= size.height as i64 || z < 0 || z
        >= size.depth as i64 {
        return None;
    }
    let (width, height) = (size.width as usize, size.height as usize);
    let (x, y, z) = (x as usize, y as usize, z as usize);
    proof {
        lemma_index_in_range(size, position@);
        assert(0 <= z * width <= z * width * height && 0 <= y * width) by (nonlinear_arith)
            requires
                0 <= z,
                0 <= y,
                0 <= width,
                1 <= height,
        ;
    }
    Some(z * width * height + y * width + x)
}

/// The position of a storage index, where it is below the cell count of a
/// world of this size and origin.
fn position_at(size: Extent3d<u32>, origin: Offset3d<i32>, count: usize, index: usize) -> (position:
    Option<Offset3d<i32>>)
    requires
        origin@ == origin_offset(size),
        count == cell_count(size),
    ensures
        match position {
            Some(position) => index_to_position(size, index as int) == Some(position@),
            None => index_to_position(size, index as int) is None,
        },
{
    if index >= count {
        return None;
    }
    let (width, height) = (size.width as u64, size.height as u64);
    let index = index as u64;
    proof {
        lemma_flat_join(size.width as int, size.height as int, size.depth as int, index as int);
        lemma_position_in_bounds(size, index as int);
        lemma_in_bounds_fits(size, index_to_position(size, index as int).unwrap());
        assert(0 < width * height <= 0xffff_ffff * 0xffff_ffff) by (nonlinear_arith)
            requires
                0 < width <= 0xffff_ffff,
                0 < height <= 0xffff_ffff,
        ;
    }
    let x = index % width;
    let y = (index / width) % height;
    let z = index / (width * height);
    Some(
        Offset3d::new(
            (x as i64 + origin.x as i64) as i32,
            (y as i64 + origin.y as i64) as i32,
            (z as i64 + origin.z as i64) as i32,
        ),
    )
}

impl World {
    /// What holds of the parts of a world that its view does not show.
    pub closed spec fn inv(&self) -> bool {
        &&& self.origin_offset@ == origin_offset(self.size)
        &&& TILE_WIDTH * self.max_tiles <= u32::MAX
        &&& self.texture.wf()
        &&& self.texture.spec_size() == (Extent3d {
            width: (TILE_WIDTH * self.max_tiles) as u32,
            height: TILE_HEIGHT,
            depth: 1,
        })
        &&& self.texture.spec_format() == Format::Rgba8Unorm
        &&& self.texture.spec_sampler() == Some(
            Sampler { filter: FilterMode::Nearest, address: AddressMode::ClampToEdge },
        )
        &&& self.mesh.submeshes@.len() == 0
    }

    /// A world is well formed when it is valid: there is a cell for every
    /// position, every block shows a tile of the atlas, and a face of a
    /// block is marked exactly where there is nothing behind it.
    pub open spec fn wf(&self) -> bool {
        self.inv() && self@.valid()
    }

    /// Makes a world of empty cells with an atlas of `max_tiles` blank tiles.
    pub fn new(size: Extent3d<u32>, max_tiles: u32) -> (result: Result<Self, WorldError>)
        requires
            cell_count(size) <= usize::MAX,
            TILE_WIDTH * max_tiles <= u32::MAX,
            TILE_BYTES * max_tiles <= usize::MAX,
        ensures
            match result {
                Ok(world) => max_tiles > 0 && world.wf() && world@ == WorldView::blank(size, max_tiles),
                Err(error) => max_tiles == 0 && error == WorldError::Graphics(
                    graphics::Error::Texture(graphics::texture::Error::SizeInvalid),
                ),
            },
    {
        let origin_offset = Offset3d::new(
            -((size.width / 2) as i32),
            -((size.height / 2) as i32),
            -((size.depth / 2) as i32),
        );
        assert(size.width * size.height <= 0xffff_ffff * 0xffff_ffff) by (nonlinear_arith)
            requires
                size.width <= 0xffff_ffff,
                size.height <= 0xffff_ffff,
        ;
        let layer = size.width as u128 * size.height as u128;
        assert(layer * size.depth <= 0xffff_ffff * 0xffff_ffff * 0xffff_ffff) by (nonlinear_arith)
            requires
                0 <= layer <= 0xffff_ffff * 0xffff_ffff,
                size.depth <= 0xffff_ffff,
        ;
        let count = (layer * size.depth as u128) as usize;
        let voxel_data = vec![VoxelData::default(); count];
        let mesh = Mesh { vertices: Vec::new(), submeshes: Vec::new() };
        let texture_size = Size::D2(Extent2d::new(TILE_WIDTH * max_tiles, TILE_HEIGHT));
        let sampler = Sampler::new(FilterMode::Nearest, AddressMode::ClampToEdge);
        let texture = match Texture::new(texture_size, Format::Rgba8Unorm, Some(sampler), None) {
            Ok(texture) => texture,
            Err(error) => {
                return Err(WorldError::from(graphics::Error::from(error)));
            },
        };
        let world = Self { size, origin_offset, max_tiles, voxel_data, mesh, texture };
        proof {
            assert(world@.cells =~= WorldView::blank(size, max_tiles).cells);
            assert(world@.atlas =~= WorldView::blank(size, max_tiles).atlas);
            WorldView::lemma_blank_valid(size, max_tiles);
        }
        Ok(world)
    }

    pub fn size(&self) -> (size: Extent3d<u32>)
        ensures
            size == self@.size,
    {
        self.size
    }

    /// The number of tiles of the atlas.
    pub fn max_tiles(&self) -> (max_tiles: u32)
        ensures
            max_tiles == self@.max_tiles,
    {
        self.max_tiles
    }

    /// The mesh as it was generated last: three vertices for each
    /// triangle, and no submesh.
    pub fn mesh(&self) -> (mesh: &Mesh)
        ensures
            mesh.vertices@ == self@.mesh,
            self.wf() ==> mesh.submeshes@.len() == 0,
    {
        &self.mesh
    }

    /// The tile atlas: the images of the tiles side by side, four bytes to
    /// a texel, sampled to the nearest texel.
    pub fn texture(&self) -> (texture: &Texture)
        ensures
            texture@ == self@.atlas,
            self.wf() ==> {
                &&& texture.wf()
                &&& texture.spec_size() == (Extent3d {
                    width: (TILE_WIDTH * self@.max_tiles) as u32,
                    height: TILE_HEIGHT,
                    depth: 1,
                })
                &&& texture.spec_format() == Format::Rgba8Unorm
                &&& texture.spec_sampler() == Some(
                    Sampler { filter: FilterMode::Nearest, address: AddressMode::ClampToEdge },
                )
            },
    {
        &self.texture
    }

    /// The cell at a position, for the positions inside the world.
    pub fn get_voxel_data(&self, position: Offset3d<i32>) -> (data: Option<&VoxelData>)
        requires
            self.wf(),
        ensures
            match data {
                Some(data) => self@.contains(position@) && data@ == self@.cell(position@),
                None => !self@.contains(position@),
            },
    {
        match self.get_voxel_index(position) {
            Some(index) => {
                proof {
                    self.lemma_count();
                    lemma_index_in_range(self.size, position@);
                }
                Some(&self.voxel_data[index])
            },
            None => None,
        }
    }

    /// The content of the cell at a position, for the positions inside the world.
    pub fn get_voxel(&self, position: Offset3d<i32>) -> (voxel: Option<&Voxel>)
        requires
            self.wf(),
        ensures
            match voxel {
                Some(voxel) => self@.voxel_at(position@) == Some(*voxel),
                None => self@.voxel_at(position@) is None,
            },
    {
        match self.get_voxel_data(position) {
            Some(voxel_data) => Some(&voxel_data.voxel),
            None => None,
        }
    }

    /// Writes `voxel` to the cell at `position` and brings the marks of
    /// the cell and of its six neighbours up to date. Returns what the cell
    /// held before. A position outside the world and a tile outside the
    /// atlas are refused, and the world stays as it was.
    pub fn set_voxel(&mut self, position: Offset3d<i32>, voxel: Voxel) -> (result: Result<
        Voxel,
        WorldError,
    >)
        requires
            old(self).wf(),
        ensures
            final(self).wf(),
            match result {
                Ok(previous) => {
                    &&& old(self)@.contains(position@)
                    &&& old(self)@.accepts(voxel)
                    &&& old(self)@.voxel_at(position@) == Some(previous)
                    &&& final(self)@ == old(self)@.set(position@, voxel)
                },
                Err(error) => {
                    &&& final(self)@ == old(self)@
                    &&& error == (if !old(self)@.contains(position@) {
                        WorldError::PositionInvalid(position)
                    } else {
                        WorldError::TileIndexInvalid(voxel->0)
                    })
                    &&& !old(self)@.contains(position@) || !old(self)@.accepts(voxel)
                },
            },
    {
        let target_index = match self.get_voxel_index(position) {
            Some(index) => index,
            None => {
                return Err(WorldError::PositionInvalid(position));
            },
        };
        if let Voxel::Tile(tile_index) = voxel {
            if tile_index >= self.max_tiles {
                return Err(WorldError::TileIndexInvalid(tile_index));
            }
        }
        proof {
            self.lemma_count();
            lemma_index_in_range(self.size, position@);
            lemma_position_round_trip(self.size, position@);
            lemma_in_bounds_fits(self.size, position@);
        }
        let ghost before = self@;

        // set voxel
        let old_voxel = self.voxel_data[target_index].voxel;
        self.voxel_data[target_index].voxel = voxel;
        proof {
            assert forall|index: int| 0 <= index < before.cells.len() implies self@.cells[index]
                == before.cell_after(position@, voxel, 0, index) by {
                lemma_position_in_bounds(self.size, index);
                lemma_index_round_trip(self.size, index);
                if index == target_index {
                    assert(self@.cells[index].faces =~= before.target_faces(position@, voxel, 0));
                }
            }
            assert(self@.cells =~= before.set_upto(position@, voxel, 0).cells);
        }

        // set faces
        let mut face_index: u8 = 0;
        while face_index < Face::MAX_COUNT
            invariant
                face_index <= Face::MAX_COUNT,
                self.inv(),
                before.shaped(),
                before.contains(position@),
                before.index_of(position@) == target_index,
                cell_count(before.size) <= usize::MAX,
                self.size == before.size,
                self@ == before.set_upto(position@, voxel, face_index as int),
            decreases Face::MAX_COUNT - face_index,
        {
            let face = Face::from_index(face_index);
            proof {
                before.lemma_set_next(position@, voxel, face_index as int);
                Faces::lemma_single(face);
                Faces::lemma_single(face.spec_opposite());
                lemma_in_bounds_fits(self.size, position@);
            }

            // get voxel adjacent to face
            let adjacent = face.get_adjacent_voxel_position();
            let other_position = Offset3d::new(
                position.x as i64 + adjacent.x as i64,
                position.y as i64 + adjacent.y as i64,
                position.z as i64 + adjacent.z as i64,
            );
            assert(other_position@ == step(position@, face));
            match index_at(self.size, self.origin_offset, other_position) {
                None => {
                    self.voxel_data[target_index].faces.insert(Faces::from(face));
                },
                Some(other_index) => {
                    proof {
                        lemma_index_in_range(self.size, other_position@);
                        lemma_step(position@, face);
                        before.lemma_set_voxels(position@, voxel, face_index as int);
                        assert(self@.voxel_at(other_position@) == before.voxel_at(other_position@));
                    }
                    let other_voxel = self.voxel_data[other_index].voxel;
                    match (voxel, other_voxel) {
                        (Voxel::Void, Voxel::Void) => {},
                        (Voxel::Void, Voxel::Tile(_)) => {
                            self.voxel_data[other_index].faces.insert(Faces::from(face.opposite()));
                        },
                        (Voxel::Tile(_), Voxel::Void) => {
                            self.voxel_data[target_index].faces.insert(Faces::from(face));
                        },
                        (Voxel::Tile(_), Voxel::Tile(_)) => {
                            self.voxel_data[target_index].faces.remove(Faces::from(face));
                            self.voxel_data[other_index].faces.remove(Faces::from(face.opposite()));
                        },
                    }
                },
            }
            proof {
                assert(self@.cells =~~= before.set_upto(position@, voxel, face_index + 1).cells);
            }
            face_index += 1;
        }
        proof {
            before.lemma_set_keeps_valid(position@, voxel);
        }
        Ok(old_voxel)
    }

    /// Writes the image of a tile to the atlas. A tile outside the atlas
    /// and an image with too few bytes are refused, and the atlas stays as
    /// it was.
    pub fn set_voxel_texture(&mut self, tile_index: u32, layout: TextureLayout, pixels: &[u8]) -> (result:
        Result<(), WorldError>)
        requires
            old(self).wf(),
        ensures
            final(self).wf(),
            match result {
                Ok(()) => {
                    &&& tile_index < old(self)@.max_tiles
                    &&& pixels@.len() >= TILE_BYTES
                    &&& final(self)@ == (WorldView {
                        atlas: old(self)@.atlas_with_tile(tile_index, pixels@),
                        ..old(self)@
                    })
                },
                Err(error) => {
                    &&& final(self)@ == old(self)@
                    &&& error == (if tile_index >= old(self)@.max_tiles {
                        WorldError::TileIndexInvalid(tile_index)
                    } else {
                        WorldError::DataInvalid
                    })
                    &&& tile_index >= old(self)@.max_tiles || pixels@.len() < TILE_BYTES
                },
            },
    {
        if tile_index >= self.max_tiles {
            return Err(WorldError::TileIndexInvalid(tile_index));
        }
        let required_size = match layout {
            TextureLayout::Single => (4 * TILE_WIDTH * TILE_HEIGHT) as usize,
        };
        if pixels.len() < required_size {
            return Err(WorldError::DataInvalid);
        }
        let origin = Offset3d::new(TILE_WIDTH * tile_index, 0, 0);
        let size = Extent3d::new(TILE_WIDTH, TILE_HEIGHT, 1);
        match self.texture.write(origin, size, pixels) {
            Ok(()) => Ok(()),
            Err(error) => Err(WorldError::from(error)),
        }
    }

    /// Makes the mesh anew from the cells: for every cell in storage order,
    /// for every drawn face in the fixed order, two triangles.
    #[verifier::loop_isolation(false)]
    pub fn generate_mesh(&mut self)
        requires
            old(self).wf(),
        ensures
            final(self).wf(),
            final(self)@ == (WorldView { mesh: old(self)@.generated_mesh(), ..old(self)@ }),
            final(self)@.mesh.len() == 6 * final(self)@.exposed_faces(),
    {
        let ghost before = self@;
        self.mesh.vertices.clear();
        let mut staging: Vec<Vertex> = Vec::new();
        let mut cells = self.iter();
        loop
            invariant
                *cells.world == *self,
                cells.index <= before.cells.len(),
                staging@ == before.mesh_upto(cells.index as nat),
            decreases before.cells.len() - cells.index,
        {
            let ghost index = cells.index as int;
            let (voxel_position, voxel_data) = match cells.next() {
                Some(item) => item,
                None => {
                    break ;
                },
            };
            let ghost cell = before.cells[index];
            let ghost position = before.position_of(index);
            proof {
                lemma_position_in_bounds(before.size, index);
                lemma_in_bounds_fits(before.size, position);
            }
            match voxel_data.voxel {
                Voxel::Void => {
                    proof {
                        Self::lemma_void_has_no_vertices(position, cell, 6);
                    }
                },
                Voxel::Tile(tile_index) => {
                    assert(before.accepts(before.cells[index].voxel));
                    let mut face_index: u8 = 0;
                    while face_index < Face::MAX_COUNT
                        invariant
                            face_index <= Face::MAX_COUNT,
                            staging@ =~= before.mesh_upto(index as nat) + cell_vertices(
                                position,
                                cell,
                                face_index as nat,
                            ),
                        decreases Face::MAX_COUNT - face_index,
                    {
                        let face = Face::from_index(face_index);
                        proof {
                            Faces::lemma_single(face);
                        }
                        if voxel_data.faces.contains(Faces::from(face)) {
                            let vertex_positions = face.get_vertex_positions();
                            let vertex_uvs = face.get_vertex_uvs();
                            let ghost done = staging@;
                            let mut k: usize = 0;
                            while k < 6
                                invariant
                                    k <= 6,
                                    staging@ =~= done + face_vertices(position, tile_index, face, k as int),
                                decreases 6 - k,
                            {
                                proof {
                                    face.lemma_corner_on_face(k as int);
                                }
                                let corner = vertex_positions[k];
                                let uv = vertex_uvs[k];
                                let position = Offset3d::new(
                                    2 * (voxel_position.x as i64) + corner.x,
                                    2 * (voxel_position.y as i64) + corner.y,
                                    2 * (voxel_position.z as i64) + corner.z,
                                );
                                let color = Color::white();
                                let uv = Offset2d::new(tile_index + uv.x, uv.y);
                                staging.push(Vertex::new(position, color, uv));
                                k += 1;
                            }
                        }
                        face_index += 1;
                    }
                },
            }
        }
        self.mesh.vertices = staging;
        proof {
            Self::lemma_same_mesh(self@, before, before.cells.len());
            Self::lemma_same_exposed(self@, before, before.cells.len());
            before.law_mesh_vertex_count();
        }
    }

    /// An empty cell has no vertices.
    proof fn lemma_void_has_no_vertices(position: Offset3d<int>, cell: CellView, k: nat)
        requires
            cell.voxel is Void,
        ensures
            cell_vertices(position, cell, k) == Seq::<Vertex>::empty(),
        decreases k,
    {
        if k > 0 {
            Self::lemma_void_has_no_vertices(position, cell, (k - 1) as nat);
        }
    }

    /// Worlds of the same extent and cells have the same mesh.
    proof fn lemma_same_mesh(a: WorldView, b: WorldView, n: nat)
        requires
            a.size == b.size,
            a.cells == b.cells,
        ensures
            a.mesh_upto(n) == b.mesh_upto(n),
        decreases n,
    {
        if n > 0 {
            Self::lemma_same_mesh(a, b, (n - 1) as nat);
        }
    }

    /// Worlds of the same cells have the same number of drawn faces.
    proof fn lemma_same_exposed(a: WorldView, b: WorldView, n: nat)
        requires
            a.cells == b.cells,
        ensures
            a.exposed_upto(n) == b.exposed_upto(n),
        decreases n,
    {
        if n > 0 {
            Self::lemma_same_exposed(a, b, (n - 1) as nat);
        }
    }

    /// Walks the cells in storage order.
    pub fn iter(&self) -> (cells: WorldIterator<'_>)
        ensures
            cells.spec_world() == self,
            cells.spec_index() == 0,
    {
        WorldIterator::new(self)
    }

    /// There are as many cells as the view has, and they can be counted.
    proof fn lemma_count(&self)
        requires
            self@.shaped(),
        ensures
            self.voxel_data@.len() == cell_count(self.size) <= usize::MAX,
    {
        assert(self.voxel_data.len() <= usize::MAX);
    }

    /// The storage index of a position, for the positions inside the world.
    pub fn get_voxel_index(&self, position: Offset3d<i32>) -> (index: Option<usize>)
        requires
            self.wf(),
        ensures
            match index {
                Some(index) => position_to_index(self@.size, position@) == Some(index as int),
                None => !self@.contains(position@),
            },
    {
        proof {
            self.lemma_count();
        }
        index_at(
            self.size,
            self.origin_offset,
            Offset3d::new(position.x as i64, position.y as i64, position.z as i64),
        )
    }

    /// The position of a storage index, for the indices below the cell count.
    pub fn get_voxel_position(&self, index: usize) -> (position: Option<Offset3d<i32>>)
        requires
            self.wf(),
        ensures
            match position {
                Some(position) => index_to_position(self@.size, index as int) == Some(position@),
                None => index_to_position(self@.size, index as int) is None,
            },
    {
        proof {
            self.lemma_count();
        }
        position_at(self.size, self.origin_offset, self.voxel_data.len(), index)
    }
}

/// A walk over the cells of a world in storage order.
pub struct WorldIterator<'a> {
    index: usize,
    world: &'a World,
}

impl<'a> WorldIterator<'a> {
    /// The storage index of the cell that comes next.
    pub closed spec fn spec_index(&self) -> int {
        self.index as int
    }

    /// The world that is walked.
    pub closed spec fn spec_world(&self) -> &'a World {
        self.world
    }

    pub fn new(world: &'a World) -> (cells: Self)
        ensures
            cells.spec_world() == world,
            cells.spec_index() == 0,
    {
        Self { index: 0, world }
    }

    /// The next cell with its position, until every cell was handed out.
    pub fn next(&mut self) -> (item: Option<(Offset3d<i32>, &'a VoxelData)>)
        requires
            old(self).spec_world().wf(),
        ensures
            final(self).spec_world() == old(self).spec_world(),
            match item {
                Some((position, data)) => {
                    &&& old(self).spec_index() < old(self).spec_world()@.cells.len()
                    &&& final(self).spec_index() == old(self).spec_index() + 1
                    &&& position@ == old(self).spec_world()@.position_of(old(self).spec_index())
                    &&& data@ == old(self).spec_world()@.cells[old(self).spec_index()]
                },
                None => {
                    &&& old(self).spec_index() >= old(self).spec_world()@.cells.len()
                    &&& final(self).spec_index() == old(self).spec_index()
                },
            },
    {
        let world = self.world;
        proof {
            world.lemma_count();
        }
        let position = match world.get_voxel_position(self.index) {
            Some(position) => position,
            None => {
                return None;
            },
        };
        proof {
            lemma_position_in_bounds(world.size, self.index as int);
            lemma_index_round_trip(world.size, self.index as int);
        }
        self.index += 1;
        match world.get_voxel_data(position) {
            Some(voxel_data) => Some((position, voxel_data)),
            None => None,
        }
    }
}

} // verus!
