//! The skybox pass: it uploads the camera in effect, clears the frame's
//! attachments once for each skybox, and draws each cubemap skybox.

use vstd::prelude::*;
use crate::command::{
    BufferCopyView, Color, ColorAttachment, CommandBuffer, CommandEncoder, CommandView,
    DepthStencilAttachment, Draw, LoadOp, RenderPass, StoreOp,
};
use crate::error::{ConfigurationError, PassError, ResourceUnavailableError};
use crate::handle::{BindGroupId, BufferId, PipelineId};
use crate::queue::{CommandBufferQueue, CommandQueueItem, ItemView};
use crate::scene::{CameraData, CameraEntity, Skybox, SkyboxType};
use crate::systems::PassId;
use crate::target::{resolve, resolved, Attachments, FrameTargets};
use crate::uniforms::{big_endian, little_endian, SkyboxUniforms, ONE, UNIFORM_SIZE};

verus! {

/// The skybox pass: the names under which it is known and under which it
/// finds its resources in the registries.
#[derive(Clone, Copy, Debug, PartialEq, Eq)]
pub struct SkyboxPass {
    /// The name of the pass in the schedule.
    pub name: &'static str,
    /// The name of its pipeline, which has no variant.
    pub pipeline: &'static str,
    /// The name of the bind group that it binds at set 0.
    pub global_bind_group: &'static str,
    /// The set index under which that bind group is registered.
    pub global_bind_group_set: u32,
    /// The name of the uniform buffer that it writes.
    pub uniform_buffer: &'static str,
    /// The label of its command encoder.
    pub encoder_label: &'static str,
    /// The name under which it queues its buffer.
    pub queue_name: &'static str,
}

/// The skybox pass.
pub fn create() -> (pass: SkyboxPass)
    ensures
        pass == the_pass(),
{
    SkyboxPass {
        name: "render_skybox",
        pipeline: "skybox",
        global_bind_group: "skybox_globals",
        global_bind_group_set: 0,
        uniform_buffer: "skybox_buffer",
        encoder_label: "skybox_clear_pass",
        queue_name: "skybox",
    }
}

/// The value of [`create`].
pub open spec fn the_pass() -> SkyboxPass {
    SkyboxPass {
        name: "render_skybox",
        pipeline: "skybox",
        global_bind_group: "skybox_globals",
        global_bind_group_set: 0,
        uniform_buffer: "skybox_buffer",
        encoder_label: "skybox_clear_pass",
        queue_name: "skybox",
    }
}

impl SkyboxPass {
    /// The pass as the schedule names it.
    pub fn id(&self) -> (id: PassId)
        ensures
            id == PassId::Skybox,
    {
        PassId::Skybox
    }

    /// The name that a registry did not know, for an error that comes from
    /// a lookup, so that the error can be logged with it.
    pub fn missing_name(&self, error: ConfigurationError) -> (name: Option<&'static str>)
        ensures
            name == match error {
                ConfigurationError::PipelineNotFound => Some(self.pipeline),
                ConfigurationError::BindGroupNotFound => Some(self.global_bind_group),
                ConfigurationError::BufferNotFound => Some(self.uniform_buffer),
                ConfigurationError::DepthViewMissing => None,
            },
    {
        match error {
            ConfigurationError::PipelineNotFound => Some(self.pipeline),
            ConfigurationError::BindGroupNotFound => Some(self.global_bind_group),
            ConfigurationError::BufferNotFound => Some(self.uniform_buffer),
            ConfigurationError::DepthViewMissing => None,
        }
    }
}

/// What the registries returned for the three names that the pass looks
/// up: `None` where a name is not registered.
#[derive(Clone, Copy, Debug, PartialEq, Eq, Structural)]
pub struct SkyboxResources {
    pub pipeline: Option<PipelineId>,
    pub global_bind_group: Option<BindGroupId>,
    pub uniform_buffer: Option<BufferId>,
}

/// Everything the pass records against, found and checked.
#[derive(Clone, Copy, Debug, PartialEq, Eq, Structural)]
pub struct SkyboxBindings {
    pub pipeline: PipelineId,
    pub global_bind_group: BindGroupId,
    pub uniform_buffer: BufferId,
    pub attachments: Attachments,
}

/// What the pass recorded: the finished buffer, and for each draw that it
/// gave up the reason, in the order of the skyboxes.
#[derive(Clone, Debug, PartialEq, Eq)]
pub struct Recording {
    pub buffer: CommandBuffer,
    pub unavailable: Vec<ResourceUnavailableError>,
}

/// The bindings of a frame, or the first thing that is missing: the
/// pipeline, the global bind group, the uniform buffer, the depth view of
/// the current target, in this order.
pub open spec fn validated(resources: SkyboxResources, targets: FrameTargets) -> Result<
    SkyboxBindings,
    ConfigurationError,
> {
    match (resources.pipeline, resources.global_bind_group, resources.uniform_buffer) {
        (None, _, _) => Err(ConfigurationError::PipelineNotFound),
        (Some(_), None, _) => Err(ConfigurationError::BindGroupNotFound),
        (Some(_), Some(_), None) => Err(ConfigurationError::BufferNotFound),
        (Some(pipeline), Some(global_bind_group), Some(uniform_buffer)) => match resolved(
            targets.current,
            targets.swapchain_image,
            targets.default_depth,
        ) {
            Err(error) => Err(error),
            Ok(attachments) => Ok(
                SkyboxBindings { pipeline, global_bind_group, uniform_buffer, attachments },
            ),
        },
    }
}

/// Whether the camera at `i` is the one in effect: it is active, no active
/// camera has a lower entity id, and none before it has the same.
pub open spec fn is_effective(cameras: Seq<CameraEntity>, i: int) -> bool {
    &&& 0 <= i < cameras.len()
    &&& cameras[i].camera.active
    &&& forall|j: int|
        0 <= j < cameras.len() && (#[trigger] cameras[j]).camera.active ==> cameras[i].entity
            <= cameras[j].entity
    &&& forall|j: int|
        0 <= j < i && (#[trigger] cameras[j]).camera.active ==> cameras[i].entity
            < cameras[j].entity
}

/// The place of the camera in effect, if any camera is active.
pub open spec fn effective_camera(cameras: Seq<CameraEntity>) -> Option<int>
    decreases cameras.len(),
{
    if cameras.len() == 0 {
        None
    } else {
        let last = cameras.len() - 1;
        match effective_camera(cameras.drop_last()) {
            Some(i) => if cameras[last].camera.active && cameras[last].entity
                < cameras[i].entity {
                Some(last)
            } else {
                Some(i)
            },
            None => if cameras[last].camera.active {
                Some(last)
            } else {
                None
            },
        }
    }
}

/// What the shader is to read for `camera`.
pub open spec fn camera_uniforms(camera: CameraData) -> SkyboxUniforms {
    SkyboxUniforms { proj: camera.projection, view: camera.view }
}

/// The draw of a skybox: a full-screen triangle for a cubemap skybox that
/// has its bind group, and none for any other.
pub open spec fn skybox_draw(bindings: SkyboxBindings, skybox: Skybox) -> Option<Draw> {
    match (skybox.skybox_type, skybox.cubemap_bind_group) {
        (SkyboxType::HdrCubemap, Some(cubemap)) => Some(
            Draw {
                pipeline: bindings.pipeline,
                bind_group_0: bindings.global_bind_group,
                bind_group_1: cubemap,
                first_vertex: 0,
                vertex_count: 3,
                first_instance: 0,
                instance_count: 1,
            },
        ),
        _ => None,
    }
}

/// The render pass of a skybox. It clears the colour attachment to the
/// skybox's colour with alpha one, the depth to one and the stencil to
/// zero, and stores all three.
pub open spec fn skybox_pass(bindings: SkyboxBindings, skybox: Skybox) -> RenderPass {
    RenderPass {
        color: ColorAttachment {
            attachment: bindings.attachments.color_view,
            resolve_target: None,
            load_op: LoadOp::Clear,
            store_op: StoreOp::Store,
            clear_color: Color {
                r: skybox.clear_color@[0],
                g: skybox.clear_color@[1],
                b: skybox.clear_color@[2],
                a: ONE,
            },
        },
        depth_stencil: DepthStencilAttachment {
            attachment: bindings.attachments.depth_view,
            depth_load_op: LoadOp::Clear,
            depth_store_op: StoreOp::Store,
            stencil_load_op: LoadOp::Clear,
            stencil_store_op: StoreOp::Store,
            clear_depth: ONE,
            clear_stencil: 0,
        },
        draw: skybox_draw(bindings, skybox),
    }
}

/// The copy that brings `payload` to the start of the uniform buffer, or
/// nothing where there is no payload.
pub open spec fn upload(bindings: SkyboxBindings, payload: Option<Seq<u8>>) -> Seq<CommandView> {
    match payload {
        Some(data) => seq![
            CommandView::CopyBuffer(
                BufferCopyView {
                    data,
                    source_offset: 0,
                    destination: bindings.uniform_buffer,
                    destination_offset: 0,
                    size: UNIFORM_SIZE as u64,
                },
            ),
        ],
        None => Seq::empty(),
    }
}

/// One render pass for each skybox, in the order of the skyboxes.
pub open spec fn skybox_passes(bindings: SkyboxBindings, skyboxes: Seq<Skybox>) -> Seq<
    CommandView,
> {
    Seq::new(
        skyboxes.len(),
        |i: int| CommandView::RenderPass(skybox_pass(bindings, skyboxes[i])),
    )
}

/// The commands of the pass for a given payload: the upload first, then
/// the render passes.
pub open spec fn assembled(
    bindings: SkyboxBindings,
    payload: Option<Seq<u8>>,
    skyboxes: Seq<Skybox>,
) -> Seq<CommandView> {
    upload(bindings, payload) + skybox_passes(bindings, skyboxes)
}

/// Whether the draw of `skybox` has to be given up.
pub open spec fn lacks_cubemap(skybox: Skybox) -> bool {
    skybox.skybox_type == SkyboxType::HdrCubemap && skybox.cubemap_bind_group is None
}

/// The draws given up, in the order of the skyboxes.
pub open spec fn unavailable(skyboxes: Seq<Skybox>) -> Seq<ResourceUnavailableError>
    decreases skyboxes.len(),
{
    if skyboxes.len() == 0 {
        Seq::empty()
    } else if lacks_cubemap(skyboxes.last()) {
        unavailable(skyboxes.drop_last()).push(
            ResourceUnavailableError::CubemapBindGroup { skybox: (skyboxes.len() - 1) as usize },
        )
    } else {
        unavailable(skyboxes.drop_last())
    }
}

/// Whether `commands` is what the pass records for these cameras and
/// skyboxes. With no camera active nothing is uploaded. Otherwise the
/// payload of the camera in effect is uploaded, in the byte order of the
/// machine that records.
pub open spec fn is_recording(
    bindings: SkyboxBindings,
    cameras: Seq<CameraEntity>,
    skyboxes: Seq<Skybox>,
    commands: Seq<CommandView>,
) -> bool {
    match effective_camera(cameras) {
        None => commands == assembled(bindings, None, skyboxes),
        Some(i) => {
            let words = camera_uniforms(cameras[i].camera).words();
            ||| commands == assembled(bindings, Some(little_endian(words)), skyboxes)
            ||| commands == assembled(bindings, Some(big_endian(words)), skyboxes)
        },
    }
}

/// The bytes of a payload, if there is one.
pub open spec fn payload_view(payload: Option<Vec<u8>>) -> Option<Seq<u8>> {
    match payload {
        Some(data) => Some(data@),
        None => None,
    }
}

/// The recursive and the direct account of the camera in effect agree.
pub proof fn lemma_effective_camera(cameras: Seq<CameraEntity>)
    ensures
        match effective_camera(cameras) {
            Some(i) => is_effective(cameras, i),
            None => forall|j: int| 0 <= j < cameras.len() ==> !(#[trigger] cameras[j]).camera.active,
        },
        forall|i: int| is_effective(cameras, i) ==> effective_camera(cameras) == Some(i),
    decreases cameras.len(),
{
    if cameras.len() > 0 {
        let front = cameras.drop_last();
        lemma_effective_camera(front);
        assert forall|j: int| 0 <= j < front.len() implies #[trigger] front[j] == cameras[j] by {}
        match effective_camera(cameras) {
            Some(i) => {
                assert forall|j: int|
                    0 <= j < cameras.len() && (#[trigger] cameras[j]).camera.active implies cameras[i].entity
                    <= cameras[j].entity by {
                    if j < front.len() {
                        assert(front[j].camera.active);
                    }
                }
                assert forall|j: int|
                    0 <= j < i && (#[trigger] cameras[j]).camera.active implies cameras[i].entity
                    < cameras[j].entity by {
                    assert(front[j].camera.active);
                }
            },
            None => {
                assert forall|j: int| 0 <= j < cameras.len() implies !(
                #[trigger] cameras[j]).camera.active by {
                    if j < front.len() {
                        assert(!front[j].camera.active);
                    }
                }
            },
        }
    }
    assert forall|i: int| is_effective(cameras, i) implies effective_camera(cameras) == Some(
        i,
    ) by {
        match effective_camera(cameras) {
            Some(k) => {
                assert(cameras[k].camera.active);
                assert(cameras[i].camera.active);
                if k < i {
                } else if i < k {
                }
            },
            None => {
                assert(!cameras[i].camera.active);
            },
        }
    }
}

impl SkyboxPass {
    /// Checks what the registries returned and selects the attachments.
    pub fn validate(&self, resources: &SkyboxResources, targets: &FrameTargets) -> (result: Result<
        SkyboxBindings,
        ConfigurationError,
    >)
        ensures
            result == validated(*resources, *targets),
    {
        let pipeline = match resources.pipeline {
            Some(pipeline) => pipeline,
            None => {
                return Err(ConfigurationError::PipelineNotFound);
            },
        };
        let global_bind_group = match resources.global_bind_group {
            Some(group) => group,
            None => {
                return Err(ConfigurationError::BindGroupNotFound);
            },
        };
        let uniform_buffer = match resources.uniform_buffer {
            Some(buffer) => buffer,
            None => {
                return Err(ConfigurationError::BufferNotFound);
            },
        };
        match resolve(targets.current, targets.swapchain_image, targets.default_depth) {
            Ok(attachments) => Ok(
                SkyboxBindings { pipeline, global_bind_group, uniform_buffer, attachments },
            ),
            Err(error) => Err(error),
        }
    }

    /// The place of the camera in effect: among the active cameras the one
    /// with the lowest entity id, and of several with that id the first.
    /// `None` where no camera is active.
    pub fn select_camera(&self, cameras: &Vec<CameraEntity>) -> (place: Option<usize>)
        ensures
            match place {
                Some(i) => effective_camera(cameras@) == Some(i as int) && is_effective(
                    cameras@,
                    i as int,
                ),
                None => effective_camera(cameras@) is None && forall|j: int|
                    0 <= j < cameras@.len() ==> !(#[trigger] cameras@[j]).camera.active,
            },
    {
        let mut place: Option<usize> = None;
        let mut i: usize = 0;
        while i < cameras.len()
            invariant
                i <= cameras@.len(),
                match place {
                    Some(k) => effective_camera(cameras@.take(i as int)) == Some(k as int) && k
                        < i,
                    None => effective_camera(cameras@.take(i as int)) is None,
                },
            decreases cameras@.len() - i,
        {
            assert(cameras@.take(i + 1).drop_last() =~= cameras@.take(i as int));
            let candidate = &cameras[i];
            if candidate.camera.active {
                match place {
                    Some(k) => {
                        if candidate.entity < cameras[k].entity {
                            place = Some(i);
                        }
                    },
                    None => {
                        place = Some(i);
                    },
                }
            }
            i += 1;
        }
        proof {
            assert(cameras@.take(i as int) =~= cameras@);
            lemma_effective_camera(cameras@);
        }
        place
    }

    /// Records the pass for a given payload: the upload of the payload, if
    /// there is one, then one render pass for each skybox.
    pub fn assemble(
        &self,
        bindings: &SkyboxBindings,
        payload: Option<Vec<u8>>,
        skyboxes: &Vec<Skybox>,
    ) -> (recording: Recording)
        ensures
            recording.buffer@ == assembled(*bindings, payload_view(payload), skyboxes@),
            recording.buffer.label_view() == self.encoder_label@,
            recording.unavailable@ == unavailable(skyboxes@),
    {
        let mut encoder = CommandEncoder::new(self.encoder_label);
        match payload {
            Some(data) => {
                encoder.copy_buffer_to_buffer(
                    data,
                    0,
                    bindings.uniform_buffer,
                    0,
                    UNIFORM_SIZE as u64,
                );
            },
            None => {},
        }
        assert(encoder@ =~= upload(*bindings, payload_view(payload)));
        let mut unavailable: Vec<ResourceUnavailableError> = Vec::new();
        let mut i: usize = 0;
        while i < skyboxes.len()
            invariant
                i <= skyboxes@.len(),
                encoder@ == assembled(*bindings, payload_view(payload), skyboxes@.take(i as int)),
                encoder.label_view() == self.encoder_label@,
                unavailable@ == self::unavailable(skyboxes@.take(i as int)),
            decreases skyboxes@.len() - i,
        {
            let skybox = &skyboxes[i];
            let draw = match skybox.skybox_type {
                SkyboxType::HdrCubemap => match skybox.cubemap_bind_group {
                    Some(cubemap) => Some(
                        Draw {
                            pipeline: bindings.pipeline,
                            bind_group_0: bindings.global_bind_group,
                            bind_group_1: cubemap,
                            first_vertex: 0,
                            vertex_count: 3,
                            first_instance: 0,
                            instance_count: 1,
                        },
                    ),
                    None => {
                        unavailable.push(ResourceUnavailableError::CubemapBindGroup { skybox: i });
                        None
                    },
                },
                SkyboxType::ClearColor => None,
            };
            let pass = RenderPass {
                color: ColorAttachment {
                    attachment: bindings.attachments.color_view,
                    resolve_target: None,
                    load_op: LoadOp::Clear,
                    store_op: StoreOp::Store,
                    clear_color: Color {
                        r: skybox.clear_color[0],
                        g: skybox.clear_color[1],
                        b: skybox.clear_color[2],
                        a: ONE,
                    },
                },
                depth_stencil: DepthStencilAttachment {
                    attachment: bindings.attachments.depth_view,
                    depth_load_op: LoadOp::Clear,
                    depth_store_op: StoreOp::Store,
                    stencil_load_op: LoadOp::Clear,
                    stencil_store_op: StoreOp::Store,
                    clear_depth: ONE,
                    clear_stencil: 0,
                },
                draw,
            };
            encoder.render_pass(pass);
            proof {
                let before = skyboxes@.take(i as int);
                let after = skyboxes@.take(i + 1);
                assert(after.drop_last() =~= before);
                assert(after.last() == skyboxes@[i as int]);
                assert(pass == skybox_pass(*bindings, skyboxes@[i as int]));
                assert(assembled(*bindings, payload_view(payload), after) =~= assembled(
                    *bindings,
                    payload_view(payload),
                    before,
                ).push(CommandView::RenderPass(pass)));
            }
            i += 1;
        }
        assert(skyboxes@.take(i as int) =~= skyboxes@);
        Recording { buffer: encoder.finish(), unavailable }
    }

    /// Records the pass for a frame. Where the frame's setup is incomplete
    /// nothing is recorded, and the first thing that is missing is
    /// reported.
    pub fn record(
        &self,
        resources: &SkyboxResources,
        targets: &FrameTargets,
        cameras: &Vec<CameraEntity>,
        skyboxes: &Vec<Skybox>,
    ) -> (result: Result<Recording, ConfigurationError>)
        ensures
            match validated(*resources, *targets) {
                Err(error) => result == Err::<Recording, ConfigurationError>(error),
                Ok(bindings) => {
                    &&& result is Ok
                    &&& is_recording(bindings, cameras@, skyboxes@, result.unwrap().buffer@)
                    &&& result.unwrap().buffer.label_view() == self.encoder_label@
                    &&& result.unwrap().unavailable@ == unavailable(skyboxes@)
                },
            },
    {
        let bindings = match self.validate(resources, targets) {
            Ok(bindings) => bindings,
            Err(error) => {
                return Err(error);
            },
        };
        let payload = match self.select_camera(cameras) {
            Some(i) => {
                let camera = &cameras[i].camera;
                let uniforms = SkyboxUniforms { proj: camera.projection, view: camera.view };
                Some(uniforms.to_bytes())
            },
            None => None,
        };
        Ok(self.assemble(&bindings, payload, skyboxes))
    }

    /// Runs the pass for a frame: records it and pushes the one buffer,
    /// under the pass's queue name, however many skyboxes there are. Where the
    /// frame's setup is incomplete, or the queue turns the buffer down, the
    /// queue is left as it was.
    pub fn run(
        &self,
        resources: &SkyboxResources,
        targets: &FrameTargets,
        cameras: &Vec<CameraEntity>,
        skyboxes: &Vec<Skybox>,
        queue: &mut CommandBufferQueue,
    ) -> (result: Result<Vec<ResourceUnavailableError>, PassError>)
        ensures
            match validated(*resources, *targets) {
                Err(error) => {
                    &&& result == Err::<Vec<ResourceUnavailableError>, PassError>(
                        PassError::Configuration(error),
                    )
                    &&& final(queue)@ == old(queue)@
                },
                Ok(bindings) => match old(queue)@.push_result() {
                    Err(error) => {
                        &&& result == Err::<Vec<ResourceUnavailableError>, PassError>(
                            PassError::Queue(error),
                        )
                        &&& final(queue)@ == old(queue)@
                    },
                    Ok(_) => {
                        &&& result is Ok
                        &&& result.unwrap()@ == unavailable(skyboxes@)
                        &&& final(queue)@.items.len() == old(queue)@.items.len() + 1
                        &&& final(queue)@ == old(queue)@.push(
                            ItemView {
                                buffer: final(queue)@.items.last().buffer,
                                name: self.queue_name@,
                            },
                        )
                        &&& is_recording(
                            bindings,
                            cameras@,
                            skyboxes@,
                            final(queue)@.items.last().buffer,
                        )
                    },
                },
            },
    {
        let recording = match self.record(resources, targets, cameras, skyboxes) {
            Ok(recording) => recording,
            Err(error) => {
                return Err(PassError::Configuration(error));
            },
        };
        let item = CommandQueueItem { buffer: recording.buffer, name: self.queue_name.to_owned() };
        match queue.push(item) {
            Ok(_) => Ok(recording.unavailable),
            Err(error) => Err(PassError::Queue(error)),
        }
    }
}

} // verus!
