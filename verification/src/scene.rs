//! The entity components that the passes read.
//!
//! Single-precision numbers are held as their words, as in
//! [`crate::uniforms`].

use vstd::prelude::*;
use crate::handle::BindGroupId;
use crate::uniforms::Matrix4;

verus! {

/// A camera. Only active cameras contribute to a frame.
#[derive(Clone, Copy, Debug, PartialEq, Eq)]
pub struct CameraData {
    pub view: Matrix4,
    pub projection: Matrix4,
    pub active: bool,
}

/// A camera together with the id of the entity that carries it.
#[derive(Clone, Copy, Debug, PartialEq, Eq)]
pub struct CameraEntity {
    pub entity: u64,
    pub camera: CameraData,
}

/// How a skybox fills the background.
#[derive(Clone, Copy, Debug, PartialEq, Eq, Structural)]
pub enum SkyboxType {
    /// Only the clear colour.
    ClearColor,
    /// A cubemap drawn over the cleared target.
    HdrCubemap,
}

/// A skybox. `clear_color` holds the red, green and blue channels.
#[derive(Clone, Copy, Debug, PartialEq, Eq)]
pub struct Skybox {
    pub skybox_type: SkyboxType,
    pub clear_color: [u32; 3],
    pub cubemap_bind_group: Option<BindGroupId>,
}

} // verus!
