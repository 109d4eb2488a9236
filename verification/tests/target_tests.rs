use render_core::error::ConfigurationError;
use render_core::handle::TextureViewId;
use render_core::target::{resolve, Attachments, RenderTarget};

#[test]
fn without_target_the_swap_chain_and_default_depth_are_used() {
    let attachments = resolve(None, TextureViewId(1), TextureViewId(2));
    assert_eq!(
        attachments,
        Ok(Attachments { color_view: TextureViewId(1), depth_view: TextureViewId(2) })
    );
}

#[test]
fn offscreen_target_gives_its_own_views() {
    let target =
        RenderTarget { color_view: TextureViewId(7), depth_view: Some(TextureViewId(8)) };
    let attachments = resolve(Some(target), TextureViewId(1), TextureViewId(2));
    assert_eq!(
        attachments,
        Ok(Attachments { color_view: TextureViewId(7), depth_view: TextureViewId(8) })
    );
}

#[test]
fn offscreen_target_without_depth_view_is_a_configuration_error() {
    let target = RenderTarget { color_view: TextureViewId(7), depth_view: None };
    assert_eq!(
        resolve(Some(target), TextureViewId(1), TextureViewId(2)),
        Err(ConfigurationError::DepthViewMissing)
    );
}
