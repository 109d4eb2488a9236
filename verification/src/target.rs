//! The render target selector: which colour and depth views the passes of a
//! frame draw into.

use vstd::prelude::*;
use crate::error::ConfigurationError;
use crate::handle::TextureViewId;

verus! {

/// An offscreen target: its colour view, and its depth view if it was set
/// up with one.
#[derive(Clone, Copy, Debug, PartialEq, Eq, Structural)]
pub struct RenderTarget {
    pub color_view: TextureViewId,
    pub depth_view: Option<TextureViewId>,
}

/// The views that a frame's passes attach.
#[derive(Clone, Copy, Debug, PartialEq, Eq, Structural)]
pub struct Attachments {
    pub color_view: TextureViewId,
    pub depth_view: TextureViewId,
}

/// What a frame offers to draw into: the offscreen target that is current,
/// if one is, the swap chain's current image and the default depth buffer.
#[derive(Clone, Copy, Debug, PartialEq, Eq, Structural)]
pub struct FrameTargets {
    pub current: Option<RenderTarget>,
    pub swapchain_image: TextureViewId,
    pub default_depth: TextureViewId,
}

/// The attachments of a frame. With an offscreen target set they are its
/// own views, and a target without a depth view is a configuration error.
/// With none set they are the swap chain's current image and the default
/// depth buffer.
pub open spec fn resolved(
    current: Option<RenderTarget>,
    swapchain_image: TextureViewId,
    default_depth: TextureViewId,
) -> Result<Attachments, ConfigurationError> {
    match current {
        Some(target) => match target.depth_view {
            Some(depth_view) => Ok(Attachments { color_view: target.color_view, depth_view }),
            None => Err(ConfigurationError::DepthViewMissing),
        },
        None => Ok(Attachments { color_view: swapchain_image, depth_view: default_depth }),
    }
}

/// Selects the attachments of a frame. To be called once per frame, so that
/// every pass draws into the same surface.
pub fn resolve(
    current: Option<RenderTarget>,
    swapchain_image: TextureViewId,
    default_depth: TextureViewId,
) -> (attachments: Result<Attachments, ConfigurationError>)
    ensures
        attachments == resolved(current, swapchain_image, default_depth),
{
    match current {
        Some(target) => match target.depth_view {
            Some(depth_view) => Ok(Attachments { color_view: target.color_view, depth_view }),
            None => Err(ConfigurationError::DepthViewMissing),
        },
        None => Ok(Attachments { color_view: swapchain_image, depth_view: default_depth }),
    }
}

} // verus!
