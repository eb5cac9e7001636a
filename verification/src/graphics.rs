//! The data that is handed to the renderer, and the errors of rendering.

pub mod mesh;
pub mod render_target;
pub mod texture;

use vstd::prelude::*;
use vstd::std_specs::convert::FromSpecImpl;

verus! {

/// What `wgpu::Adapter::request_device` fails with. Nothing is read from it.
#[verifier::external_type_specification]
#[verifier::external_body]
pub struct ExRequestDeviceError(wgpu::RequestDeviceError);

/// Why the graphics could not be set up or used.
#[derive(Debug, PartialEq, Eq)]
pub enum Error {
    RequestAdapterFailed,
    RequestDeviceFailed(wgpu::RequestDeviceError),
    Texture(texture::Error),
    RenderTarget(render_target::Error),
}

impl From<texture::Error> for Error {
    fn from(value: texture::Error) -> (error: Self) {
        Error::Texture(value)
    }
}

impl FromSpecImpl<texture::Error> for Error {
    open spec fn obeys_from_spec() -> bool {
        true
    }

    open spec fn from_spec(value: texture::Error) -> Self {
        Error::Texture(value)
    }
}

impl From<render_target::Error> for Error {
    fn from(value: render_target::Error) -> (error: Self) {
        Error::RenderTarget(value)
    }
}

impl FromSpecImpl<render_target::Error> for Error {
    open spec fn obeys_from_spec() -> bool {
        true
    }

    open spec fn from_spec(value: render_target::Error) -> Self {
        Error::RenderTarget(value)
    }
}

} // verus!
