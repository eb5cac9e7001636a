//! The voxel world: cells, their faces, and the operations on them.

pub mod cell;
pub mod face;
pub mod faces;
pub mod grid;
pub mod laws;
pub mod mesher;
pub mod model;
pub mod world;

pub use cell::{CellView, Voxel, VoxelData};
pub use face::Face;
pub use faces::Faces;
pub use model::{WorldView, TILE_BYTES, TILE_HEIGHT, TILE_WIDTH};
pub use world::{TextureLayout, World, WorldError, WorldIterator};
