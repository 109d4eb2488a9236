//! Typed handles for GPU objects owned by the registries.
//!
//! A handle is an integer that the owner of the object can find it again by.
//! Passes never hold the objects themselves, only these handles.

use vstd::prelude::*;

verus! {

/// A compiled render pipeline in the pipeline registry.
#[derive(Clone, Copy, Debug, PartialEq, Eq, Structural)]
pub struct PipelineId(pub u64);

/// A bind group in the resource registry, or one carried by an entity.
#[derive(Clone, Copy, Debug, PartialEq, Eq, Structural)]
pub struct BindGroupId(pub u64);

/// A GPU-resident buffer in the resource registry.
#[derive(Clone, Copy, Debug, PartialEq, Eq, Structural)]
pub struct BufferId(pub u64);

/// A texture view that a render pass can attach.
#[derive(Clone, Copy, Debug, PartialEq, Eq, Structural)]
pub struct TextureViewId(pub u64);

} // verus!
