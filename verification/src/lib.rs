//! A dense voxel world: coordinate mapping, per-cell face visibility,
//! mesh generation and the tile atlas, with every operation specified
//! and verified.

pub mod graphics;
pub mod input;
pub mod types;
pub mod voxel;

pub use types::{Color, Extent2d, Extent3d, Offset2d, Offset3d, Unit};
pub use voxel::Voxel;
