//! The errors of drawing to a window.

use vstd::prelude::*;

verus! {

/// What `wgpu::Instance::create_surface` fails with. Nothing is read from it.
#[verifier::external_type_specification]
#[verifier::external_body]
pub struct ExCreateSurfaceError(wgpu::CreateSurfaceError);

/// What `wgpu::Surface::get_current_texture` fails with. Nothing is read
/// from it.
#[verifier::external_type_specification]
#[verifier::external_body]
pub struct ExSurfaceError(wgpu::SurfaceError);

/// Why a render target could not be made or drawn to.
#[derive(Debug, PartialEq, Eq)]
pub enum Error {
    CreateSurfaceFailed(wgpu::CreateSurfaceError),
    AdapterInvalid,
    AcquireTextureFailed(wgpu::SurfaceError),
    SizeInvalid,
    CommandsInvalid,
}

} // verus!
