//! What holds of every frame that the skybox pass records: which camera
//! reaches the uniform buffer, what each skybox clears and draws, and which
//! views are drawn into.

use vstd::prelude::*;
use crate::command::{buffer_after, copies, render_passes, Color, CommandView, Draw, LoadOp, RenderPass};
use crate::error::ConfigurationError;
use crate::handle::{BindGroupId, BufferId};
use crate::scene::{CameraEntity, Skybox, SkyboxType};
use crate::systems::skybox::{
    assembled, camera_uniforms, effective_camera, is_effective, is_recording,
    lemma_effective_camera, skybox_pass, skybox_passes, upload, validated, SkyboxBindings,
    SkyboxResources,
};
use crate::target::FrameTargets;
use crate::uniforms::{big_endian, little_endian, ONE, UNIFORM_SIZE};

verus! {

/// Render passes behind `prefix` change no buffer and add no copy, and
/// they are the passes of the skyboxes in order.
proof fn lemma_passes_behind(
    prefix: Seq<CommandView>,
    bindings: SkyboxBindings,
    skyboxes: Seq<Skybox>,
    buffer: BufferId,
    contents: Seq<u8>,
)
    ensures
        buffer_after(prefix + skybox_passes(bindings, skyboxes), buffer, contents) == buffer_after(
            prefix,
            buffer,
            contents,
        ),
        copies(prefix + skybox_passes(bindings, skyboxes)) == copies(prefix),
        render_passes(prefix + skybox_passes(bindings, skyboxes)) == render_passes(prefix)
            + Seq::new(skyboxes.len(), |i: int| skybox_pass(bindings, skyboxes[i])),
    decreases skyboxes.len(),
{
    let all = prefix + skybox_passes(bindings, skyboxes);
    let passes = Seq::new(skyboxes.len(), |i: int| skybox_pass(bindings, skyboxes[i]));
    if skyboxes.len() == 0 {
        assert(all =~= prefix);
        assert(render_passes(prefix) + passes =~= render_passes(prefix));
    } else {
        let front = skyboxes.drop_last();
        lemma_passes_behind(prefix, bindings, front, buffer, contents);
        assert(all.drop_last() =~= prefix + skybox_passes(bindings, front));
        assert(all.last() == CommandView::RenderPass(skybox_pass(bindings, skyboxes.last())));
        assert(render_passes(prefix) + passes =~= (render_passes(prefix) + Seq::new(
            front.len(),
            |i: int| skybox_pass(bindings, front[i]),
        )).push(skybox_pass(bindings, skyboxes.last())));
    }
}

/// What the upload of a full payload does: one copy, which replaces the
/// first bytes of the uniform buffer and no others.
proof fn lemma_upload(bindings: SkyboxBindings, payload: Seq<u8>, contents: Seq<u8>)
    requires
        payload.len() == UNIFORM_SIZE,
        contents.len() >= UNIFORM_SIZE,
    ensures
        buffer_after(upload(bindings, Some(payload)), bindings.uniform_buffer, contents)
            == payload + contents.skip(UNIFORM_SIZE as int),
        copies(upload(bindings, Some(payload))).len() == 1,
        render_passes(upload(bindings, Some(payload))).len() == 0,
{
    let commands = upload(bindings, Some(payload));
    assert(commands.drop_last() =~= Seq::<CommandView>::empty());
    assert(buffer_after(commands.drop_last(), bindings.uniform_buffer, contents) == contents);
    assert(copies(commands.drop_last()).len() == 0);
    assert(render_passes(commands.drop_last()).len() == 0);
    assert(buffer_after(commands, bindings.uniform_buffer, contents) =~= payload + contents.skip(
        UNIFORM_SIZE as int,
    ));
}

/// With no camera active the pass uploads nothing: it records no copy, and
/// every buffer holds after the pass what it held before.
pub proof fn lemma_no_active_camera_leaves_buffers(
    bindings: SkyboxBindings,
    cameras: Seq<CameraEntity>,
    skyboxes: Seq<Skybox>,
    commands: Seq<CommandView>,
    buffer: BufferId,
    contents: Seq<u8>,
)
    requires
        is_recording(bindings, cameras, skyboxes, commands),
        forall|j: int| 0 <= j < cameras.len() ==> !(#[trigger] cameras[j]).camera.active,
    ensures
        copies(commands).len() == 0,
        buffer_after(commands, buffer, contents) == contents,
{
    lemma_effective_camera(cameras);
    lemma_passes_behind(Seq::empty(), bindings, skyboxes, buffer, contents);
}

/// With a camera in effect the pass records exactly one copy, and after the
/// pass the uniform buffer starts with the projection and the view of that
/// camera, in this order and in one byte order throughout. The bytes behind
/// them are as they were.
pub proof fn lemma_effective_camera_fills_uniform_buffer(
    bindings: SkyboxBindings,
    cameras: Seq<CameraEntity>,
    skyboxes: Seq<Skybox>,
    commands: Seq<CommandView>,
    contents: Seq<u8>,
    i: int,
)
    requires
        is_recording(bindings, cameras, skyboxes, commands),
        is_effective(cameras, i),
        contents.len() >= UNIFORM_SIZE,
    ensures
        copies(commands).len() == 1,
        ({
            let after = buffer_after(commands, bindings.uniform_buffer, contents);
            let words = cameras[i].camera.projection.words@ + cameras[i].camera.view.words@;
            let rest = contents.skip(UNIFORM_SIZE as int);
            after == little_endian(words) + rest || after == big_endian(words) + rest
        }),
{
    lemma_effective_camera(cameras);
    let words = camera_uniforms(cameras[i].camera).words();
    assert(words.len() == 32);
    let payload = if commands == assembled(bindings, Some(little_endian(words)), skyboxes) {
        little_endian(words)
    } else {
        big_endian(words)
    };
    lemma_upload(bindings, payload, contents);
    lemma_passes_behind(
        upload(bindings, Some(payload)),
        bindings,
        skyboxes,
        bindings.uniform_buffer,
        contents,
    );
}

/// A single active camera is the camera in effect: after the pass the
/// uniform buffer holds its projection and its view.
pub proof fn lemma_single_camera_fills_uniform_buffer(
    bindings: SkyboxBindings,
    cameras: Seq<CameraEntity>,
    skyboxes: Seq<Skybox>,
    commands: Seq<CommandView>,
    contents: Seq<u8>,
    i: int,
)
    requires
        is_recording(bindings, cameras, skyboxes, commands),
        0 <= i < cameras.len(),
        cameras[i].camera.active,
        forall|j: int| 0 <= j < cameras.len() && j != i ==> !(#[trigger] cameras[j]).camera.active,
        contents.len() >= UNIFORM_SIZE,
    ensures
        ({
            let after = buffer_after(commands, bindings.uniform_buffer, contents);
            let words = cameras[i].camera.projection.words@ + cameras[i].camera.view.words@;
            let rest = contents.skip(UNIFORM_SIZE as int);
            after == little_endian(words) + rest || after == big_endian(words) + rest
        }),
{
    assert(is_effective(cameras, i));
    lemma_effective_camera_fills_uniform_buffer(bindings, cameras, skyboxes, commands, contents, i);
}

/// Of two active cameras one is in effect, whatever the order in which
/// they are given: the one with the lower entity id, and with equal ids the
/// one given first. After the pass the uniform buffer holds the projection
/// and the view of that camera, and nothing of the other.
pub proof fn lemma_two_cameras_one_in_effect(
    bindings: SkyboxBindings,
    cameras: Seq<CameraEntity>,
    skyboxes: Seq<Skybox>,
    commands: Seq<CommandView>,
    contents: Seq<u8>,
    i: int,
    j: int,
)
    requires
        is_recording(bindings, cameras, skyboxes, commands),
        0 <= i < j < cameras.len(),
        cameras[i].camera.active,
        cameras[j].camera.active,
        forall|k: int|
            0 <= k < cameras.len() && k != i && k != j ==> !(#[trigger] cameras[k]).camera.active,
        contents.len() >= UNIFORM_SIZE,
    ensures
        ({
            let winner = if cameras[j].entity < cameras[i].entity {
                j
            } else {
                i
            };
            let after = buffer_after(commands, bindings.uniform_buffer, contents);
            let words = cameras[winner].camera.projection.words@
                + cameras[winner].camera.view.words@;
            let rest = contents.skip(UNIFORM_SIZE as int);
            &&& effective_camera(cameras) == Some(winner)
            &&& after == little_endian(words) + rest || after == big_endian(words) + rest
        }),
{
    let winner = if cameras[j].entity < cameras[i].entity {
        j
    } else {
        i
    };
    assert(is_effective(cameras, winner));
    lemma_effective_camera(cameras);
    lemma_effective_camera_fills_uniform_buffer(
        bindings,
        cameras,
        skyboxes,
        commands,
        contents,
        winner,
    );
}

/// The pass records one render pass for each skybox, in the order of the
/// skyboxes, and no other.
pub proof fn lemma_one_render_pass_for_each_skybox(
    bindings: SkyboxBindings,
    cameras: Seq<CameraEntity>,
    skyboxes: Seq<Skybox>,
    commands: Seq<CommandView>,
)
    requires
        is_recording(bindings, cameras, skyboxes, commands),
    ensures
        render_passes(commands) == Seq::new(
            skyboxes.len(),
            |k: int| skybox_pass(bindings, skyboxes[k]),
        ),
{
    let passes = Seq::new(skyboxes.len(), |k: int| skybox_pass(bindings, skyboxes[k]));
    let contents = Seq::<u8>::empty();
    lemma_effective_camera(cameras);
    match effective_camera(cameras) {
        None => {
            lemma_passes_behind(
                Seq::empty(),
                bindings,
                skyboxes,
                bindings.uniform_buffer,
                contents,
            );
            assert(Seq::<RenderPass>::empty() + passes =~= passes);
        },
        Some(i) => {
            let words = camera_uniforms(cameras[i].camera).words();
            let payload = if commands == assembled(
                bindings,
                Some(little_endian(words)),
                skyboxes,
            ) {
                little_endian(words)
            } else {
                big_endian(words)
            };
            let first = upload(bindings, Some(payload));
            assert(first.drop_last() =~= Seq::<CommandView>::empty());
            assert(render_passes(first.drop_last()) =~= Seq::<RenderPass>::empty());
            assert(render_passes(first) =~= Seq::<RenderPass>::empty());
            lemma_passes_behind(first, bindings, skyboxes, bindings.uniform_buffer, contents);
            assert(Seq::<RenderPass>::empty() + passes =~= passes);
        },
    }
}

/// A skybox that is no cubemap skybox only clears: its render pass clears
/// the colour attachment to the skybox's colour, with alpha one, and makes
/// no draw.
pub proof fn lemma_other_skybox_only_clears(
    bindings: SkyboxBindings,
    cameras: Seq<CameraEntity>,
    skyboxes: Seq<Skybox>,
    commands: Seq<CommandView>,
    k: int,
)
    requires
        is_recording(bindings, cameras, skyboxes, commands),
        0 <= k < skyboxes.len(),
        skyboxes[k].skybox_type != SkyboxType::HdrCubemap,
    ensures
        render_passes(commands).len() == skyboxes.len(),
        render_passes(commands)[k].draw is None,
        render_passes(commands)[k].color.load_op == LoadOp::Clear,
        render_passes(commands)[k].color.clear_color == (Color {
            r: skyboxes[k].clear_color@[0],
            g: skyboxes[k].clear_color@[1],
            b: skyboxes[k].clear_color@[2],
            a: ONE,
        }),
{
    lemma_one_render_pass_for_each_skybox(bindings, cameras, skyboxes, commands);
}

/// A cubemap skybox with its bind group is drawn once: its render pass
/// holds the draw of three vertices and one instance with the pass's
/// pipeline, the global bind group at set 0 and the skybox's own at set 1.
pub proof fn lemma_cubemap_skybox_draws_once(
    bindings: SkyboxBindings,
    cameras: Seq<CameraEntity>,
    skyboxes: Seq<Skybox>,
    commands: Seq<CommandView>,
    k: int,
    cubemap: BindGroupId,
)
    requires
        is_recording(bindings, cameras, skyboxes, commands),
        0 <= k < skyboxes.len(),
        skyboxes[k].skybox_type == SkyboxType::HdrCubemap,
        skyboxes[k].cubemap_bind_group == Some(cubemap),
    ensures
        render_passes(commands).len() == skyboxes.len(),
        render_passes(commands)[k].draw == Some(
            Draw {
                pipeline: bindings.pipeline,
                bind_group_0: bindings.global_bind_group,
                bind_group_1: cubemap,
                first_vertex: 0,
                vertex_count: 3,
                first_instance: 0,
                instance_count: 1,
            },
        ),
{
    lemma_one_render_pass_for_each_skybox(bindings, cameras, skyboxes, commands);
}

/// Every render pass of the pass attaches the views of the current
/// offscreen target where one is set, and the swap chain's image with the
/// default depth buffer where none is.
pub proof fn lemma_passes_attach_selected_target(
    resources: SkyboxResources,
    targets: FrameTargets,
    cameras: Seq<CameraEntity>,
    skyboxes: Seq<Skybox>,
    commands: Seq<CommandView>,
    k: int,
)
    requires
        validated(resources, targets) is Ok,
        is_recording(validated(resources, targets).unwrap(), cameras, skyboxes, commands),
        0 <= k < skyboxes.len(),
    ensures
        render_passes(commands).len() == skyboxes.len(),
        match targets.current {
            Some(target) => {
                &&& render_passes(commands)[k].color.attachment == target.color_view
                &&& Some(render_passes(commands)[k].depth_stencil.attachment) == target.depth_view
            },
            None => {
                &&& render_passes(commands)[k].color.attachment == targets.swapchain_image
                &&& render_passes(commands)[k].depth_stencil.attachment == targets.default_depth
            },
        },
{
    lemma_one_render_pass_for_each_skybox(
        validated(resources, targets).unwrap(),
        cameras,
        skyboxes,
        commands,
    );
}

/// Without the pipeline or without the global bind group a frame is not
/// valid, whatever else it holds: the pass then records and queues nothing.
pub proof fn lemma_missing_setup_is_rejected(resources: SkyboxResources, targets: FrameTargets)
    requires
        resources.pipeline is None || resources.global_bind_group is None,
    ensures
        validated(resources, targets) is Err,
        resources.pipeline is None ==> validated(resources, targets) == Err::<
            SkyboxBindings,
            ConfigurationError,
        >(ConfigurationError::PipelineNotFound),
        resources.pipeline is Some ==> validated(resources, targets) == Err::<
            SkyboxBindings,
            ConfigurationError,
        >(ConfigurationError::BindGroupNotFound),
{
}

} // verus!
