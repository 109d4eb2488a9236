//! Recorded GPU commands.
//!
//! A pass records its work as a list of plain values. The list says what the
//! device is to do and in which order; whoever owns the device replays it.
//! The spec functions at the end say what a replay does to a buffer and
//! which copies and render passes it makes.

use vstd::prelude::*;
use crate::handle::{BindGroupId, BufferId, PipelineId, TextureViewId};

verus! {

/// What happens to an attachment when a render pass begins.
#[derive(Clone, Copy, Debug, PartialEq, Eq, Structural)]
pub enum LoadOp {
    Clear,
    Load,
}

/// What happens to an attachment when a render pass ends.
#[derive(Clone, Copy, Debug, PartialEq, Eq, Structural)]
pub enum StoreOp {
    Clear,
    Store,
}

/// A colour of four single-precision channels, each held as its word.
#[derive(Clone, Copy, Debug, PartialEq, Eq, Structural)]
pub struct Color {
    pub r: u32,
    pub g: u32,
    pub b: u32,
    pub a: u32,
}

/// The colour attachment of a render pass.
#[derive(Clone, Copy, Debug, PartialEq, Eq, Structural)]
pub struct ColorAttachment {
    pub attachment: TextureViewId,
    pub resolve_target: Option<TextureViewId>,
    pub load_op: LoadOp,
    pub store_op: StoreOp,
    pub clear_color: Color,
}

/// The depth and stencil attachment of a render pass. `clear_depth` is the
/// word of a single-precision value.
#[derive(Clone, Copy, Debug, PartialEq, Eq, Structural)]
pub struct DepthStencilAttachment {
    pub attachment: TextureViewId,
    pub depth_load_op: LoadOp,
    pub depth_store_op: StoreOp,
    pub stencil_load_op: LoadOp,
    pub stencil_store_op: StoreOp,
    pub clear_depth: u32,
    pub clear_stencil: u32,
}

/// One draw without an index buffer, with everything bound that it needs:
/// the pipeline, the bind group at set 0 and the bind group at set 1.
#[derive(Clone, Copy, Debug, PartialEq, Eq, Structural)]
pub struct Draw {
    pub pipeline: PipelineId,
    pub bind_group_0: BindGroupId,
    pub bind_group_1: BindGroupId,
    pub first_vertex: u32,
    pub vertex_count: u32,
    pub first_instance: u32,
    pub instance_count: u32,
}

/// One render pass: its attachments with how they are loaded and stored,
/// and the draw made inside it, if any.
#[derive(Clone, Copy, Debug, PartialEq, Eq, Structural)]
pub struct RenderPass {
    pub color: ColorAttachment,
    pub depth_stencil: DepthStencilAttachment,
    pub draw: Option<Draw>,
}

/// A copy of `size` bytes from a transient staging buffer, created with
/// `data` as its contents, into a persistent buffer.
#[derive(Clone, Debug, PartialEq, Eq)]
pub struct BufferCopy {
    pub data: Vec<u8>,
    pub source_offset: u64,
    pub destination: BufferId,
    pub destination_offset: u64,
    pub size: u64,
}

/// The mathematical value of a [`BufferCopy`].
pub ghost struct BufferCopyView {
    pub data: Seq<u8>,
    pub source_offset: u64,
    pub destination: BufferId,
    pub destination_offset: u64,
    pub size: u64,
}

impl View for BufferCopy {
    type V = BufferCopyView;

    open spec fn view(&self) -> BufferCopyView {
        BufferCopyView {
            data: self.data@,
            source_offset: self.source_offset,
            destination: self.destination,
            destination_offset: self.destination_offset,
            size: self.size,
        }
    }
}

/// One recorded command.
#[derive(Clone, Debug, PartialEq, Eq)]
pub enum Command {
    CopyBuffer(BufferCopy),
    RenderPass(RenderPass),
}

/// The mathematical value of a [`Command`].
pub ghost enum CommandView {
    CopyBuffer(BufferCopyView),
    RenderPass(RenderPass),
}

impl View for Command {
    type V = CommandView;

    open spec fn view(&self) -> CommandView {
        match *self {
            Command::CopyBuffer(copy) => CommandView::CopyBuffer(copy@),
            Command::RenderPass(pass) => CommandView::RenderPass(pass),
        }
    }
}

/// The values of a list of commands, in order.
pub open spec fn views_of(commands: Seq<Command>) -> Seq<CommandView> {
    commands.map_values(|c: Command| c@)
}

/// A builder that records commands in the order of the calls.
pub struct CommandEncoder {
    label: String,
    commands: Vec<Command>,
}

/// A finished list of commands, ready for submission. Nothing can be added
/// to it or taken from it.
#[derive(Clone, Debug, PartialEq, Eq)]
pub struct CommandBuffer {
    label: String,
    commands: Vec<Command>,
}

impl View for CommandEncoder {
    type V = Seq<CommandView>;

    closed spec fn view(&self) -> Seq<CommandView> {
        views_of(self.commands@)
    }
}

impl View for CommandBuffer {
    type V = Seq<CommandView>;

    closed spec fn view(&self) -> Seq<CommandView> {
        views_of(self.commands@)
    }
}

impl CommandEncoder {
    /// The label that the encoder was opened with.
    pub closed spec fn label_view(&self) -> Seq<char> {
        self.label@
    }

    /// Opens an encoder with nothing recorded.
    pub fn new(label: &str) -> (encoder: CommandEncoder)
        ensures
            encoder@ == Seq::<CommandView>::empty(),
            encoder.label_view() == label@,
    {
        let encoder = CommandEncoder { label: label.to_owned(), commands: Vec::new() };
        assert(encoder@ =~= Seq::<CommandView>::empty());
        encoder
    }

    /// Records a copy from a staging buffer holding `data` into `destination`.
    pub fn copy_buffer_to_buffer(
        &mut self,
        data: Vec<u8>,
        source_offset: u64,
        destination: BufferId,
        destination_offset: u64,
        size: u64,
    )
        ensures
            final(self)@ == old(self)@.push(
                CommandView::CopyBuffer(
                    BufferCopyView {
                        data: data@,
                        source_offset,
                        destination,
                        destination_offset,
                        size,
                    },
                ),
            ),
            final(self).label_view() == old(self).label_view(),
    {
        let copy = BufferCopy { data, source_offset, destination, destination_offset, size };
        self.commands.push(Command::CopyBuffer(copy));
        assert(final(self)@ =~= old(self)@.push(Command::CopyBuffer(copy)@));
    }

    /// Records one render pass.
    pub fn render_pass(&mut self, pass: RenderPass)
        ensures
            final(self)@ == old(self)@.push(CommandView::RenderPass(pass)),
            final(self).label_view() == old(self).label_view(),
    {
        self.commands.push(Command::RenderPass(pass));
        assert(final(self)@ =~= old(self)@.push(CommandView::RenderPass(pass)));
    }

    /// Closes the encoder. The buffer holds what was recorded, in order.
    pub fn finish(self) -> (buffer: CommandBuffer)
        ensures
            buffer@ == self@,
            buffer.label_view() == self.label_view(),
    {
        CommandBuffer { label: self.label, commands: self.commands }
    }
}

impl CommandBuffer {
    /// The label of the encoder that the buffer was finished from.
    pub closed spec fn label_view(&self) -> Seq<char> {
        self.label@
    }

    /// The label of the encoder that the buffer was finished from.
    pub fn label(&self) -> (label: &str)
        ensures
            label@ == self.label_view(),
    {
        self.label.as_str()
    }

    /// The recorded commands, in the order to replay them.
    pub fn commands(&self) -> (commands: &Vec<Command>)
        ensures
            views_of(commands@) == self@,
    {
        &self.commands
    }
}

/// The contents of `buffer` after `copy`, where they were `contents` before.
/// A copy into another buffer, or one that reaches past either buffer's
/// end, changes nothing.
pub open spec fn copy_applied(copy: BufferCopyView, buffer: BufferId, contents: Seq<u8>) -> Seq<u8> {
    if copy.destination == buffer && copy.source_offset + copy.size <= copy.data.len()
        && copy.destination_offset + copy.size <= contents.len() {
        Seq::new(
            contents.len(),
            |i: int|
                if copy.destination_offset <= i < copy.destination_offset + copy.size {
                    copy.data[copy.source_offset + (i - copy.destination_offset)]
                } else {
                    contents[i]
                },
        )
    } else {
        contents
    }
}

/// The contents of `buffer` after the commands ran in order.
pub open spec fn buffer_after(commands: Seq<CommandView>, buffer: BufferId, contents: Seq<u8>) -> Seq<
    u8,
>
    decreases commands.len(),
{
    if commands.len() == 0 {
        contents
    } else {
        let before = buffer_after(commands.drop_last(), buffer, contents);
        match commands.last() {
            CommandView::CopyBuffer(copy) => copy_applied(copy, buffer, before),
            CommandView::RenderPass(_) => before,
        }
    }
}

/// The buffer copies among the commands, in order.
pub open spec fn copies(commands: Seq<CommandView>) -> Seq<BufferCopyView>
    decreases commands.len(),
{
    if commands.len() == 0 {
        Seq::empty()
    } else {
        let before = copies(commands.drop_last());
        match commands.last() {
            CommandView::CopyBuffer(copy) => before.push(copy),
            CommandView::RenderPass(_) => before,
        }
    }
}

/// The render passes among the commands, in order.
pub open spec fn render_passes(commands: Seq<CommandView>) -> Seq<RenderPass>
    decreases commands.len(),
{
    if commands.len() == 0 {
        Seq::empty()
    } else {
        let before = render_passes(commands.drop_last());
        match commands.last() {
            CommandView::CopyBuffer(_) => before,
            CommandView::RenderPass(pass) => before.push(pass),
        }
    }
}

} // verus!
