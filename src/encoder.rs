use crate::descriptor::CpuDescriptorHandle;
use crate::id::{BufferId, ImageId};
use vstd::prelude::*;

verus! {

/// Access mode of a GPU resource, between which barriers move it.
#[derive(Clone, Copy, Debug, PartialEq, Eq, Structural)]
pub enum ResourceState {
    Common,
    Present,
    RenderTarget,
    DepthWrite,
    CopyDest,
    PixelShaderResource,
    IndexBuffer,
}

/// How the input assembler groups indices into primitives.
#[derive(Clone, Copy, Debug, PartialEq, Eq, Structural)]
pub enum PrimitiveTopology {
    TriangleList,
}

/// A resource that a barrier applies to.
#[derive(Clone, Copy, Debug, PartialEq, Eq, Structural)]
pub enum ResourceRef {
    /// The swapchain image with this index.
    BackBuffer(usize),
    Image(ImageId),
    Buffer(BufferId),
}

/// A colour as the IEEE-754 bit patterns of its four `f32` channels.
#[derive(Clone, Copy, Debug, PartialEq, Eq, Structural)]
pub struct ClearColor {
    pub r: u32,
    pub g: u32,
    pub b: u32,
    pub a: u32,
}

/// The per-draw root-constant block: indices into the shader-visible heap
/// and element offsets into the shared arrays.
#[derive(Clone, Copy, Debug, PartialEq, Eq, Structural)]
pub struct RenderResources {
    pub vertex_buffer_id: u32,
    pub transform_buffer_id: u32,
    pub transform_offset: u32,
    pub view_buffer_index: u32,
    pub material_buffer_index: u32,
    pub material_offset: u32,
}

/// Layout of an image's texels in a buffer: RGBA8, rows `row_pitch` bytes
/// apart.
#[derive(Clone, Copy, Debug, PartialEq, Eq, Structural)]
pub struct Footprint {
    pub width: u32,
    pub height: u32,
    pub row_pitch: u32,
}

/// One recorded command.
#[derive(Clone, Copy, Debug, PartialEq, Eq)]
pub enum Command {
    /// Binds the shader-visible resource and sampler heaps.
    SetDescriptorHeaps,
    SetRootSignature,
    SetPipeline,
    SetViewport { width: u32, height: u32 },
    SetScissor { width: u32, height: u32 },
    Transition { resource: ResourceRef, before: ResourceState, after: ResourceState },
    SetRenderTarget { render_target: CpuDescriptorHandle, depth_stencil: Option<CpuDescriptorHandle> },
    ClearRenderTarget { render_target: CpuDescriptorHandle, color: ClearColor },
    /// Clears depth to the `f32` whose bit pattern is `depth_bits`.
    ClearDepthTarget { depth_target: CpuDescriptorHandle, depth_bits: u32 },
    SetPrimitiveTopology(PrimitiveTopology),
    SetRootConstants(RenderResources),
    BindIndexBuffer { buffer: BufferId, size_in_bytes: u32 },
    DrawIndexed { index_count: u32, instance_count: u32, start_index: u32, base_vertex: i32 },
    CopyBufferToImage { buffer: BufferId, image: ImageId, footprint: Footprint },
}

/// A finished, immutable list of commands, ready for submission.
pub struct CommandList {
    pub commands: Vec<Command>,
}

/// Where an encoder stands in its cycle `Reset -> Recording -> Finished`.
#[derive(Clone, Copy, Debug, PartialEq, Eq, Structural)]
pub enum EncoderState {
    /// Created; nothing may be recorded before `reset`.
    Reset,
    Recording,
    Finished,
}

/// A single-use recording context.
///
/// `reset` starts a new recording from any state; recording calls are only
/// valid while recording; `finish` ends the recording and hands the
/// commands out.
pub struct CommandEncoder {
    state: EncoderState,
    commands: Vec<Command>,
}

impl CommandEncoder {
    pub closed spec fn state(&self) -> EncoderState {
        self.state
    }

    /// Commands recorded since the last `reset`.
    pub closed spec fn recorded(&self) -> Seq<Command> {
        self.commands@
    }

    /// The encoder after recording `c`: still recording, with `c` appended.
    pub open spec fn appended(before: CommandEncoder, after: CommandEncoder, c: Command) -> bool {
        &&& after.state() == EncoderState::Recording
        &&& after.recorded() == before.recorded().push(c)
    }

    /// A fresh encoder, in the `Reset` state with nothing recorded.
    pub fn new() -> (e: Self)
        ensures
            e.state() == EncoderState::Reset,
            e.recorded() == Seq::<Command>::empty(),
    {
        CommandEncoder { state: EncoderState::Reset, commands: Vec::new() }
    }

    pub fn get_state(&self) -> (s: EncoderState)
        ensures
            s == self.state(),
    {
        self.state
    }

    /// Discards what was recorded and starts recording anew.
    pub fn reset(&mut self)
        ensures
            final(self).state() == EncoderState::Recording,
            final(self).recorded() == Seq::<Command>::empty(),
    {
        self.state = EncoderState::Recording;
        self.commands = Vec::new();
    }

    fn record(&mut self, c: Command)
        requires
            old(self).state() == EncoderState::Recording,
        ensures
            Self::appended(*old(self), *final(self), c),
    {
        self.commands.push(c);
    }

    pub fn set_descriptor_heaps(&mut self)
        requires
            old(self).state() == EncoderState::Recording,
        ensures
            Self::appended(*old(self), *final(self), Command::SetDescriptorHeaps),
    {
        self.record(Command::SetDescriptorHeaps);
    }

    pub fn set_root_signature(&mut self)
        requires
            old(self).state() == EncoderState::Recording,
        ensures
            Self::appended(*old(self), *final(self), Command::SetRootSignature),
    {
        self.record(Command::SetRootSignature);
    }

    pub fn set_pipeline(&mut self)
        requires
            old(self).state() == EncoderState::Recording,
        ensures
            Self::appended(*old(self), *final(self), Command::SetPipeline),
    {
        self.record(Command::SetPipeline);
    }

    /// A viewport covering `width` x `height` pixels from the origin, depth 0 to 1.
    pub fn set_viewport(&mut self, width: u32, height: u32)
        requires
            old(self).state() == EncoderState::Recording,
        ensures
            Self::appended(*old(self), *final(self), Command::SetViewport { width, height }),
    {
        self.record(Command::SetViewport { width, height });
    }

    /// A scissor rectangle covering `width` x `height` pixels from the origin.
    pub fn set_scissor(&mut self, width: u32, height: u32)
        requires
            old(self).state() == EncoderState::Recording,
        ensures
            Self::appended(*old(self), *final(self), Command::SetScissor { width, height }),
    {
        self.record(Command::SetScissor { width, height });
    }

    /// A barrier moving `resource` from `before` to `after`.
    pub fn transition_image(&mut self, resource: ResourceRef, before: ResourceState, after: ResourceState)
        requires
            old(self).state() == EncoderState::Recording,
        ensures
            Self::appended(*old(self), *final(self), Command::Transition { resource, before, after }),
    {
        self.record(Command::Transition { resource, before, after });
    }

    pub fn set_render_target(
        &mut self,
        render_target: CpuDescriptorHandle,
        depth_stencil: Option<CpuDescriptorHandle>,
    )
        requires
            old(self).state() == EncoderState::Recording,
        ensures
            Self::appended(
                *old(self),
                *final(self),
                Command::SetRenderTarget { render_target, depth_stencil },
            ),
    {
        self.record(Command::SetRenderTarget { render_target, depth_stencil });
    }

    pub fn clear_render_target(&mut self, render_target: CpuDescriptorHandle, color: ClearColor)
        requires
            old(self).state() == EncoderState::Recording,
        ensures
            Self::appended(*old(self), *final(self), Command::ClearRenderTarget { render_target, color }),
    {
        self.record(Command::ClearRenderTarget { render_target, color });
    }

    pub fn clear_depth_target(&mut self, depth_target: CpuDescriptorHandle, depth_bits: u32)
        requires
            old(self).state() == EncoderState::Recording,
        ensures
            Self::appended(
                *old(self),
                *final(self),
                Command::ClearDepthTarget { depth_target, depth_bits },
            ),
    {
        self.record(Command::ClearDepthTarget { depth_target, depth_bits });
    }

    pub fn set_primitive_topology(&mut self, topology: PrimitiveTopology)
        requires
            old(self).state() == EncoderState::Recording,
        ensures
            Self::appended(*old(self), *final(self), Command::SetPrimitiveTopology(topology)),
    {
        self.record(Command::SetPrimitiveTopology(topology));
    }

    /// Uploads the per-draw constant block.
    pub fn set_root_constants(&mut self, resources: RenderResources)
        requires
            old(self).state() == EncoderState::Recording,
        ensures
            Self::appended(*old(self), *final(self), Command::SetRootConstants(resources)),
    {
        self.record(Command::SetRootConstants(resources));
    }

    /// Binds `size_in_bytes` bytes of `buffer` as 32-bit indices.
    pub fn bind_index_buffer(&mut self, buffer: BufferId, size_in_bytes: u32)
        requires
            old(self).state() == EncoderState::Recording,
        ensures
            Self::appended(*old(self), *final(self), Command::BindIndexBuffer { buffer, size_in_bytes }),
    {
        self.record(Command::BindIndexBuffer { buffer, size_in_bytes });
    }

    pub fn draw_indexed_instanced(
        &mut self,
        index_count: u32,
        instance_count: u32,
        start_index: u32,
        base_vertex: i32,
    )
        requires
            old(self).state() == EncoderState::Recording,
        ensures
            Self::appended(
                *old(self),
                *final(self),
                Command::DrawIndexed { index_count, instance_count, start_index, base_vertex },
            ),
    {
        self.record(Command::DrawIndexed { index_count, instance_count, start_index, base_vertex });
    }

    /// Copies the RGBA8 texels of a `width` x `height` image, stored row after
    /// row from offset 0 of `buffer`, into `image`.
    pub fn copy_buffer_to_image(&mut self, buffer: BufferId, image: ImageId, width: u32, height: u32)
        requires
            old(self).state() == EncoderState::Recording,
            width * 4 <= u32::MAX,
        ensures
            Self::appended(
                *old(self),
                *final(self),
                Command::CopyBufferToImage {
                    buffer,
                    image,
                    footprint: Footprint { width, height, row_pitch: (width * 4) as u32 },
                },
            ),
    {
        let footprint = Footprint { width, height, row_pitch: width * 4 };
        self.record(Command::CopyBufferToImage { buffer, image, footprint });
    }

    /// Ends the recording and hands out what was recorded.
    pub fn finish(&mut self) -> (list: CommandList)
        requires
            old(self).state() == EncoderState::Recording,
        ensures
            list.commands@ == old(self).recorded(),
            final(self).state() == EncoderState::Finished,
            final(self).recorded() == Seq::<Command>::empty(),
    {
        let mut commands: Vec<Command> = Vec::new();
        std::mem::swap(&mut commands, &mut self.commands);
        self.state = EncoderState::Finished;
        CommandList { commands }
    }
}

} // verus!
