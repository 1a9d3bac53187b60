use crate::descriptor::{slot_address, CpuDescriptorHandle, DescriptorError, DescriptorHeap};
use crate::device::{AllocatedBuffer, AllocatedImage, Device, MemoryLocation};
use crate::encoder::{
    ClearColor, Command, CommandEncoder, CommandList, EncoderState, Footprint, PrimitiveTopology,
    RenderResources, ResourceRef, ResourceState,
};
use crate::frame::{FenceAction, FrameError, FrameSync};
use crate::id::{BufferId, BufferView, ImageId, SamplerId, ViewId};
use crate::asset::{Assets, Handle};
use crate::prepare::{
    assign_materials, assign_transforms, GPUMaterial, GPUMesh, GPUTransform, MaterialSlot,
    MeshUpload, PrepareError, SharedArray, MATERIAL_CAPACITY, MATERIAL_UNIFORM_SIZE,
    TRANSFORM_CAPACITY, TRANSFORM_SIZE,
};
use crate::texture::{CHECKERBOARD_SIZE, PIXEL_SIZE};
use vstd::prelude::*;

verus! {

/// Images in the swapchain.
pub const SWAPCHAIN_IMAGE_COUNT: usize = 2;

/// Slots of the render-target heap: one per swapchain image.
pub const RTV_HEAP_CAPACITY: usize = 2;

/// Slots of the depth-stencil heap.
pub const DSV_HEAP_CAPACITY: usize = 1;

/// Slots of the shader-visible resource heap.
pub const CBV_HEAP_CAPACITY: usize = 1000;

/// Slots of the shader-visible sampler heap.
pub const SAMPLER_HEAP_CAPACITY: usize = 1000;

/// Bytes of the view-uniform buffer.
pub const VIEW_BUFFER_SIZE: u64 = 256;

/// Bit pattern of the `f32` 1.0.
pub const F32_ONE_BITS: u32 = 0x3F80_0000;

/// Bit pattern of the `f32` 0.0, the far plane of the reversed depth range.
pub const CLEAR_DEPTH_BITS: u32 = 0;

/// Where a descriptor heap lies: the CPU address of its first slot and the
/// distance between slots.
#[derive(Clone, Copy, Debug, PartialEq, Eq, Structural)]
pub struct HeapLayout {
    pub base: usize,
    pub descriptor_size: u32,
}

/// A heap with this layout and capacity has every slot address in range.
pub open spec fn layout_fits(l: HeapLayout, capacity: usize) -> bool {
    slot_address(l.base, l.descriptor_size, capacity as int) <= usize::MAX
}

/// The allocations that start-up hands to the renderer.
pub struct SetupAllocations<A> {
    /// Depth image, as large as the swapchain images.
    pub depth: A,
    /// View-uniform buffer of `VIEW_BUFFER_SIZE` bytes, CPU to GPU.
    pub view: A,
    /// Transform array of `TRANSFORM_CAPACITY` entries, CPU to GPU.
    pub transforms: A,
    /// Material array of `MATERIAL_CAPACITY` entries, CPU to GPU.
    pub materials: A,
    /// The checkerboard image.
    pub checkerboard: A,
    /// Upload buffer of the checkerboard's pixels, CPU to GPU.
    pub checkerboard_upload: A,
}

/// The descriptor slots that start-up took, where the views are to be
/// written.
#[derive(Clone, Copy, Debug, PartialEq, Eq, Structural)]
pub struct SetupDescriptors {
    pub render_target_0: CpuDescriptorHandle,
    pub render_target_1: CpuDescriptorHandle,
    pub depth: CpuDescriptorHandle,
    pub view: CpuDescriptorHandle,
    pub transforms: CpuDescriptorHandle,
    pub materials: CpuDescriptorHandle,
}

/// An entity that carries all three GPU components.
#[derive(Clone, Copy, Debug, PartialEq, Eq, Structural)]
pub struct Renderable {
    pub mesh: GPUMesh,
    pub material: GPUMaterial,
    pub transform: GPUTransform,
}

/// A one-shot copy of a buffer's RGBA8 texels into an image.
#[derive(Clone, Copy, Debug, PartialEq, Eq, Structural)]
pub struct ImageUpload {
    pub buffer: BufferId,
    pub image: ImageId,
    pub width: u32,
    pub height: u32,
}

/// Why a renderer operation failed.
#[derive(Clone, Copy, Debug, PartialEq, Eq, Structural)]
pub enum RendererError {
    Descriptor(DescriptorError),
    Prepare(PrepareError),
    Frame(FrameError),
    /// The draw at this position holds an index or a size that does not fit
    /// in 32 bits.
    DrawOutOfRange { draw: usize },
    /// The upload at this position has a row pitch that does not fit in 32
    /// bits.
    UploadOutOfRange { upload: usize },
}

/// The root constants of draw `d`.
pub open spec fn root_constants_of(d: Renderable, view_index: usize) -> RenderResources {
    RenderResources {
        vertex_buffer_id: d.mesh.vertex_buffer.view.0 as u32,
        transform_buffer_id: d.transform.buffer.view.0 as u32,
        transform_offset: d.transform.offset as u32,
        view_buffer_index: view_index as u32,
        material_buffer_index: d.material.buffer.view.0 as u32,
        material_offset: d.material.offset as u32,
    }
}

/// Every index and size of draw `d` fits in 32 bits.
pub open spec fn draw_fits(d: Renderable) -> bool {
    &&& d.mesh.vertex_buffer.view.0 <= u32::MAX
    &&& d.transform.buffer.view.0 <= u32::MAX
    &&& d.transform.offset <= u32::MAX
    &&& d.material.buffer.view.0 <= u32::MAX
    &&& d.material.offset <= u32::MAX
    &&& d.mesh.index_count * 4 <= u32::MAX
}

/// The commands of one draw: its root constants, its index buffer, and an
/// indexed draw of all its indices.
pub open spec fn draw_commands(d: Renderable, view_index: usize) -> Seq<Command> {
    seq![
        Command::SetRootConstants(root_constants_of(d, view_index)),
        Command::BindIndexBuffer {
            buffer: d.mesh.index_buffer,
            size_in_bytes: (d.mesh.index_count * 4) as u32,
        },
        Command::DrawIndexed {
            index_count: d.mesh.index_count as u32,
            instance_count: 1,
            start_index: 0,
            base_vertex: 0,
        },
    ]
}

/// The commands of all draws, in order.
pub open spec fn draw_stream(ds: Seq<Renderable>, view_index: usize) -> Seq<Command>
    decreases ds.len(),
{
    if ds.len() == 0 {
        Seq::empty()
    } else {
        draw_stream(ds.drop_last(), view_index) + draw_commands(ds.last(), view_index)
    }
}

/// The commands that set up a frame: heaps, root signature, pipeline,
/// viewport and scissor, the back buffer moved to render-target state, the
/// targets bound and cleared, and the topology set.
pub open spec fn frame_prologue(
    width: u32,
    height: u32,
    frame: usize,
    rtv: CpuDescriptorHandle,
    dsv: CpuDescriptorHandle,
) -> Seq<Command> {
    seq![
        Command::SetDescriptorHeaps,
        Command::SetRootSignature,
        Command::SetPipeline,
        Command::SetViewport { width, height },
        Command::SetScissor { width, height },
        Command::Transition {
            resource: ResourceRef::BackBuffer(frame),
            before: ResourceState::Present,
            after: ResourceState::RenderTarget,
        },
        Command::SetRenderTarget { render_target: rtv, depth_stencil: Some(dsv) },
        Command::ClearRenderTarget {
            render_target: rtv,
            color: ClearColor { r: 0, g: 0, b: 0, a: F32_ONE_BITS },
        },
        Command::ClearDepthTarget { depth_target: dsv, depth_bits: CLEAR_DEPTH_BITS },
        Command::SetPrimitiveTopology(PrimitiveTopology::TriangleList),
    ]
}

/// The whole frame: prologue, the draws, and the back buffer moved back
/// to present state.
pub open spec fn frame_commands(
    width: u32,
    height: u32,
    frame: usize,
    rtv: CpuDescriptorHandle,
    dsv: CpuDescriptorHandle,
    view_index: usize,
    ds: Seq<Renderable>,
) -> Seq<Command> {
    frame_prologue(width, height, frame, rtv, dsv) + draw_stream(ds, view_index) + seq![
        Command::Transition {
            resource: ResourceRef::BackBuffer(frame),
            before: ResourceState::RenderTarget,
            after: ResourceState::Present,
        },
    ]
}

/// The commands of one upload: the copy of the buffer's texels into the
/// image, then the image moved from copy destination to shader resource.
pub open spec fn upload_commands(u: ImageUpload) -> Seq<Command> {
    seq![
        Command::CopyBufferToImage {
            buffer: u.buffer,
            image: u.image,
            footprint: Footprint { width: u.width, height: u.height, row_pitch: (u.width * 4) as u32 },
        },
        Command::Transition {
            resource: ResourceRef::Image(u.image),
            before: ResourceState::CopyDest,
            after: ResourceState::PixelShaderResource,
        },
    ]
}

/// The commands of all uploads, in order.
pub open spec fn upload_stream(us: Seq<ImageUpload>) -> Seq<Command>
    decreases us.len(),
{
    if us.len() == 0 {
        Seq::empty()
    } else {
        upload_stream(us.drop_last()) + upload_commands(us.last())
    }
}

/// The row pitch of upload `u` fits in 32 bits.
pub open spec fn upload_fits(u: ImageUpload) -> bool {
    u.width * 4 <= u32::MAX
}

/// The two allocations of one mesh upload.
pub struct MeshBuffers<A> {
    pub vertices: A,
    pub indices: A,
}

/// A component to attach to an entity once every query of a preparation
/// pass has finished.
#[derive(Clone, Copy, Debug, PartialEq, Eq, Structural)]
pub enum Attachment {
    Mesh { entity: u64, mesh: GPUMesh },
    Transform { entity: u64, transform: GPUTransform },
    Material { entity: u64, material: GPUMaterial },
}

/// What a preparation pass produces.
pub struct PreparedScene {
    /// The deferred component attachments: meshes, then transforms, then
    /// materials, each in the order given.
    pub attachments: Vec<Attachment>,
    /// Where the vertex view of each mesh upload is to be written.
    pub vertex_views: Vec<CpuDescriptorHandle>,
    /// The material blocks to copy into the shared material array.
    pub material_copies: Vec<MaterialSlot>,
}

/// The GPU mesh of upload `u` whose vertex buffer gets id `buffer`, its index
/// buffer the next id, and whose vertex view takes slot `view`.
pub open spec fn gpu_mesh_of(u: MeshUpload, buffer: int, view: int) -> GPUMesh {
    GPUMesh {
        vertex_buffer: BufferView { buffer: BufferId(buffer as usize), view: ViewId(view as usize) },
        index_buffer: BufferId((buffer + 1) as usize),
        index_count: u.index_count,
    }
}

/// Mesh attachments of uploads `us`, whose buffers are created from id
/// `buffer` on, two per upload, and whose views take slots from `view` on.
pub open spec fn mesh_attachments(us: Seq<MeshUpload>, buffer: int, view: int) -> Seq<Attachment> {
    Seq::new(
        us.len(),
        |k: int| Attachment::Mesh { entity: us[k].entity, mesh: gpu_mesh_of(us[k], buffer + 2 * k, view + k) },
    )
}

pub open spec fn transform_attachments(es: Seq<u64>, buffer: BufferView) -> Seq<Attachment> {
    Seq::new(
        es.len(),
        |i: int| Attachment::Transform { entity: es[i], transform: GPUTransform { buffer, offset: i as usize } },
    )
}

pub open spec fn material_attachments<M>(es: Seq<(u64, Handle<M>)>, buffer: BufferView) -> Seq<Attachment> {
    Seq::new(
        es.len(),
        |i: int| Attachment::Material { entity: es[i].0, material: GPUMaterial { buffer, offset: i as usize } },
    )
}

/// The buffer records of the mesh uploads `us` with allocations `bs`: for
/// each upload its vertex buffer, then its index buffer.
pub open spec fn mesh_buffer_records<A>(us: Seq<MeshUpload>, bs: Seq<MeshBuffers<A>>) -> Seq<AllocatedBuffer<A>> {
    Seq::new(
        2 * us.len(),
        |j: int|
            if j % 2 == 0 {
                AllocatedBuffer { allocation: bs[j / 2].vertices, size: us[j / 2].vertex_bytes, location: MemoryLocation::CpuToGpu }
            } else {
                AllocatedBuffer { allocation: bs[j / 2].indices, size: us[j / 2].index_bytes, location: MemoryLocation::CpuToGpu }
            },
    )
}

/// Handle of slot `idx` of a heap with layout `l`.
pub open spec fn handle_in(l: HeapLayout, idx: int) -> CpuDescriptorHandle {
    CpuDescriptorHandle { ptr: slot_address(l.base, l.descriptor_size, idx) as usize }
}

/// The buffers that start-up registers, in order: view uniforms,
/// transforms, materials, checkerboard upload.
pub open spec fn setup_buffers<A>(a: SetupAllocations<A>) -> Seq<AllocatedBuffer<A>> {
    seq![
        AllocatedBuffer { allocation: a.view, size: VIEW_BUFFER_SIZE, location: MemoryLocation::CpuToGpu },
        AllocatedBuffer {
            allocation: a.transforms,
            size: (TRANSFORM_SIZE * TRANSFORM_CAPACITY) as u64,
            location: MemoryLocation::CpuToGpu,
        },
        AllocatedBuffer {
            allocation: a.materials,
            size: (MATERIAL_UNIFORM_SIZE * MATERIAL_CAPACITY) as u64,
            location: MemoryLocation::CpuToGpu,
        },
        AllocatedBuffer {
            allocation: a.checkerboard_upload,
            size: (CHECKERBOARD_SIZE * CHECKERBOARD_SIZE * PIXEL_SIZE) as u64,
            location: MemoryLocation::CpuToGpu,
        },
    ]
}

/// The images that start-up registers, in order: depth, checkerboard.
pub open spec fn setup_images<A>(a: SetupAllocations<A>, width: u32, height: u32) -> Seq<
    AllocatedImage<A>,
> {
    seq![
        AllocatedImage { allocation: a.depth, width, height },
        AllocatedImage { allocation: a.checkerboard, width: CHECKERBOARD_SIZE, height: CHECKERBOARD_SIZE },
    ]
}

/// The CPU side of the renderer: the resources it owns, its descriptor
/// heaps, its two encoders and the frame-pacing state.
pub struct Renderer<A> {
    width: u32,
    height: u32,
    device: Device<A>,
    rtv_heap: DescriptorHeap,
    dsv_heap: DescriptorHeap,
    cbv_heap: DescriptorHeap,
    sampler_heap: DescriptorHeap,
    frame: FrameSync,
    render_command_encoder: CommandEncoder,
    immediate_command_encoder: CommandEncoder,
    checkerboard_image: ImageId,
    checkerboard_upload: BufferId,
    view_buffer: BufferView,
    transform_buffer: BufferView,
    material_buffer: BufferView,
}

impl<A> Renderer<A> {
    pub closed spec fn width(&self) -> u32 {
        self.width
    }

    pub closed spec fn height(&self) -> u32 {
        self.height
    }

    pub closed spec fn resources(&self) -> Device<A> {
        self.device
    }

    pub closed spec fn frame_state(&self) -> FrameSync {
        self.frame
    }

    pub closed spec fn rtv_layout(&self) -> HeapLayout {
        HeapLayout { base: self.rtv_heap.base(), descriptor_size: self.rtv_heap.stride() }
    }

    pub closed spec fn dsv_layout(&self) -> HeapLayout {
        HeapLayout { base: self.dsv_heap.base(), descriptor_size: self.dsv_heap.stride() }
    }

    pub closed spec fn resource_heap(&self) -> DescriptorHeap {
        self.cbv_heap
    }

    pub closed spec fn samplers(&self) -> DescriptorHeap {
        self.sampler_heap
    }

    pub closed spec fn checkerboard(&self) -> ImageId {
        self.checkerboard_image
    }

    pub closed spec fn checkerboard_buffer(&self) -> BufferId {
        self.checkerboard_upload
    }

    /// Views of the view-uniform, transform and material buffers.
    pub closed spec fn shared_views(&self) -> (BufferView, BufferView, BufferView) {
        (self.view_buffer, self.transform_buffer, self.material_buffer)
    }

    pub closed spec fn wf(&self) -> bool {
        &&& self.rtv_heap.wf()
        &&& self.rtv_heap.cap() == RTV_HEAP_CAPACITY
        &&& self.dsv_heap.wf()
        &&& self.dsv_heap.cap() == DSV_HEAP_CAPACITY
        &&& self.cbv_heap.wf()
        &&& self.sampler_heap.wf()
        &&& self.frame.wf()
        &&& self.frame.image_count() == SWAPCHAIN_IMAGE_COUNT
        &&& self.view_buffer.view.0 < CBV_HEAP_CAPACITY
    }

    /// Everything but the encoders is as in `before`.
    pub open spec fn same_resources(before: Renderer<A>, after: Renderer<A>) -> bool {
        &&& after.wf()
        &&& after.width() == before.width()
        &&& after.height() == before.height()
        &&& after.resources() == before.resources()
        &&& after.frame_state() == before.frame_state()
        &&& after.rtv_layout() == before.rtv_layout()
        &&& after.dsv_layout() == before.dsv_layout()
        &&& after.resource_heap() == before.resource_heap()
        &&& after.samplers() == before.samplers()
        &&& after.shared_views() == before.shared_views()
    }

    /// Sets up the renderer's bookkeeping for a `width` x `height` swapchain
    /// of two images whose current one is `current_image`: takes the
    /// start-up allocations, takes the descriptor slots of the two render
    /// targets, the depth target, the view uniforms (slot 0 of the resource
    /// heap), the transforms (slot 1) and the materials (slot 2), and
    /// returns where each view is to be written.
    pub fn new(
        width: u32,
        height: u32,
        current_image: usize,
        rtv: HeapLayout,
        dsv: HeapLayout,
        cbv: HeapLayout,
        sampler: HeapLayout,
        allocations: SetupAllocations<A>,
    ) -> (r: Result<(Self, SetupDescriptors), RendererError>)
        requires
            layout_fits(rtv, RTV_HEAP_CAPACITY),
            layout_fits(dsv, DSV_HEAP_CAPACITY),
            layout_fits(cbv, CBV_HEAP_CAPACITY),
            layout_fits(sampler, SAMPLER_HEAP_CAPACITY),
        ensures
            r is Ok <==> current_image < SWAPCHAIN_IMAGE_COUNT,
            r is Err ==> r->Err_0 == RendererError::Frame(
                FrameError::BackBufferOutOfRange {
                    index: current_image,
                    buffer_count: SWAPCHAIN_IMAGE_COUNT,
                },
            ),
            r is Ok ==> {
                let (rd, d) = r->Ok_0;
                &&& rd.wf()
                &&& rd.width() == width
                &&& rd.height() == height
                &&& rd.frame_state().current_frame() == current_image
                &&& rd.frame_state().next_fence_value() == 1
                &&& rd.rtv_layout() == rtv
                &&& rd.dsv_layout() == dsv
                &&& rd.resource_heap().base() == cbv.base
                &&& rd.resource_heap().stride() == cbv.descriptor_size
                &&& rd.resource_heap().allocated() == 3
                &&& rd.resource_heap().cap() == CBV_HEAP_CAPACITY
                &&& rd.samplers().base() == sampler.base
                &&& rd.samplers().stride() == sampler.descriptor_size
                &&& rd.samplers().allocated() == 0
                &&& rd.samplers().cap() == SAMPLER_HEAP_CAPACITY
                &&& rd.resources().buffers() == setup_buffers(allocations)
                &&& rd.resources().images() == setup_images(allocations, width, height)
                &&& rd.shared_views() == (
                    BufferView { buffer: BufferId(0), view: ViewId(0) },
                    BufferView { buffer: BufferId(1), view: ViewId(1) },
                    BufferView { buffer: BufferId(2), view: ViewId(2) },
                )
                &&& rd.checkerboard() == ImageId(1)
                &&& rd.checkerboard_buffer() == BufferId(3)
                &&& d.render_target_0 == handle_in(rtv, 0)
                &&& d.render_target_1 == handle_in(rtv, 1)
                &&& d.depth == handle_in(dsv, 0)
                &&& d.view == handle_in(cbv, 0)
                &&& d.transforms == handle_in(cbv, 1)
                &&& d.materials == handle_in(cbv, 2)
            },
    {
        let frame = match FrameSync::new(current_image, SWAPCHAIN_IMAGE_COUNT) {
            Ok(f) => f,
            Err(e) => {
                return Err(RendererError::Frame(e));
            },
        };
        let SetupAllocations {
            depth,
            view,
            transforms,
            materials,
            checkerboard,
            checkerboard_upload,
        } = allocations;
        let mut rtv_heap = DescriptorHeap::new(rtv.base, rtv.descriptor_size, RTV_HEAP_CAPACITY);
        let mut dsv_heap = DescriptorHeap::new(dsv.base, dsv.descriptor_size, DSV_HEAP_CAPACITY);
        let mut cbv_heap = DescriptorHeap::new(cbv.base, cbv.descriptor_size, CBV_HEAP_CAPACITY);
        let sampler_heap = DescriptorHeap::new(
            sampler.base,
            sampler.descriptor_size,
            SAMPLER_HEAP_CAPACITY,
        );
        let render_target_0 = match rtv_heap.create_rtv() {
            Ok(h) => h,
            Err(e) => {
                return Err(RendererError::Descriptor(e));
            },
        };
        let render_target_1 = match rtv_heap.create_rtv() {
            Ok(h) => h,
            Err(e) => {
                return Err(RendererError::Descriptor(e));
            },
        };
        let mut device: Device<A> = Device::new();
        let depth_image = device.create_image(depth, width, height);
        let depth_handle = match dsv_heap.create_dsv() {
            Ok(h) => h,
            Err(e) => {
                return Err(RendererError::Descriptor(e));
            },
        };
        let view_buffer = device.create_buffer(view, VIEW_BUFFER_SIZE, MemoryLocation::CpuToGpu);
        let (view_view, view_handle) = match cbv_heap.create_cbv() {
            Ok(p) => p,
            Err(e) => {
                return Err(RendererError::Descriptor(e));
            },
        };
        let transform_buffer = device.create_buffer(
            transforms,
            TRANSFORM_SIZE * TRANSFORM_CAPACITY as u64,
            MemoryLocation::CpuToGpu,
        );
        let (transform_view, transform_handle) = match cbv_heap.create_srv() {
            Ok(p) => p,
            Err(e) => {
                return Err(RendererError::Descriptor(e));
            },
        };
        let material_buffer = device.create_buffer(
            materials,
            MATERIAL_UNIFORM_SIZE * MATERIAL_CAPACITY as u64,
            MemoryLocation::CpuToGpu,
        );
        let (material_view, material_handle) = match cbv_heap.create_srv() {
            Ok(p) => p,
            Err(e) => {
                return Err(RendererError::Descriptor(e));
            },
        };
        let checkerboard_image = device.create_image(
            checkerboard,
            CHECKERBOARD_SIZE,
            CHECKERBOARD_SIZE,
        );
        let upload_buffer = device.create_buffer(
            checkerboard_upload,
            (CHECKERBOARD_SIZE * CHECKERBOARD_SIZE * PIXEL_SIZE) as u64,
            MemoryLocation::CpuToGpu,
        );
        proof {
            assert(device.buffers() =~= setup_buffers(allocations));
            assert(device.images() =~= setup_images(allocations, width, height));
        }
        let renderer = Renderer {
            width,
            height,
            device,
            rtv_heap,
            dsv_heap,
            cbv_heap,
            sampler_heap,
            frame,
            render_command_encoder: CommandEncoder::new(),
            immediate_command_encoder: CommandEncoder::new(),
            checkerboard_image,
            checkerboard_upload: upload_buffer,
            view_buffer: BufferView { buffer: view_buffer, view: view_view },
            transform_buffer: BufferView { buffer: transform_buffer, view: transform_view },
            material_buffer: BufferView { buffer: material_buffer, view: material_view },
        };
        let descriptors = SetupDescriptors {
            render_target_0,
            render_target_1,
            depth: depth_handle,
            view: view_handle,
            transforms: transform_handle,
            materials: material_handle,
        };
        Ok((renderer, descriptors))
    }

    /// Records one frame into the render encoder and returns the finished
    /// list: the prologue on the current back buffer, then for each draw
    /// its root constants, index buffer and indexed draw, in the order
    /// given, then the back buffer back to present state. Fails, recording
    /// nothing, when a draw's indices or sizes do not fit in 32 bits.
    pub fn render(&mut self, draws: &Vec<Renderable>) -> (r: Result<CommandList, RendererError>)
        requires
            old(self).wf(),
        ensures
            Self::same_resources(*old(self), *final(self)),
            r is Ok <==> forall|i: int| 0 <= i < draws@.len() ==> draw_fits(#[trigger] draws@[i]),
            r is Ok ==> r->Ok_0.commands@ == frame_commands(
                old(self).width(),
                old(self).height(),
                old(self).frame_state().current_frame(),
                handle_in(old(self).rtv_layout(), old(self).frame_state().current_frame() as int),
                handle_in(old(self).dsv_layout(), 0),
                old(self).shared_views().0.view.0,
                draws@,
            ),
            r is Err ==> exists|i: int|
                0 <= i < draws@.len() && !draw_fits(#[trigger] draws@[i]) && r->Err_0
                    == (RendererError::DrawOutOfRange { draw: i as usize }),
    {
        let mut k: usize = 0;
        while k < draws.len()
            invariant
                *self == *old(self),
                self.wf(),
                k <= draws@.len(),
                forall|i: int| 0 <= i < k ==> draw_fits(#[trigger] draws@[i]),
            decreases draws@.len() - k,
        {
            let d = &draws[k];
            if d.mesh.vertex_buffer.view.0 > u32::MAX as usize || d.transform.buffer.view.0
                > u32::MAX as usize || d.transform.offset > u32::MAX as usize
                || d.material.buffer.view.0 > u32::MAX as usize || d.material.offset
                > u32::MAX as usize || d.mesh.index_count > (u32::MAX / 4) as usize {
                return Err(RendererError::DrawOutOfRange { draw: k });
            }
            k = k + 1;
        }
        let frame = self.frame.frame_index();
        let rtv_handle = self.rtv_heap.get_handle(frame);
        let dsv_handle = self.dsv_heap.get_handle(0);
        let view_index = self.view_buffer.view.0;
        let ghost before = *self;
        let enc = &mut self.render_command_encoder;
        enc.reset();
        enc.set_descriptor_heaps();
        enc.set_root_signature();
        enc.set_pipeline();
        enc.set_viewport(self.width, self.height);
        enc.set_scissor(self.width, self.height);
        enc.transition_image(
            ResourceRef::BackBuffer(frame),
            ResourceState::Present,
            ResourceState::RenderTarget,
        );
        enc.set_render_target(rtv_handle, Some(dsv_handle));
        enc.clear_render_target(rtv_handle, ClearColor { r: 0, g: 0, b: 0, a: F32_ONE_BITS });
        enc.clear_depth_target(dsv_handle, CLEAR_DEPTH_BITS);
        enc.set_primitive_topology(PrimitiveTopology::TriangleList);
        let ghost prologue = frame_prologue(self.width, self.height, frame, rtv_handle, dsv_handle);
        assert(enc.recorded() =~= prologue);
        let mut i: usize = 0;
        while i < draws.len()
            invariant
                i <= draws@.len(),
                view_index < CBV_HEAP_CAPACITY,
                forall|j: int| 0 <= j < draws@.len() ==> draw_fits(#[trigger] draws@[j]),
                enc.state() == EncoderState::Recording,
                enc.recorded() == prologue + draw_stream(draws@.take(i as int), view_index),
            decreases draws@.len() - i,
        {
            let d = &draws[i];
            assert(draw_fits(draws@[i as int]));
            let resources = RenderResources {
                vertex_buffer_id: d.mesh.vertex_buffer.view.0 as u32,
                transform_buffer_id: d.transform.buffer.view.0 as u32,
                transform_offset: d.transform.offset as u32,
                view_buffer_index: view_index as u32,
                material_buffer_index: d.material.buffer.view.0 as u32,
                material_offset: d.material.offset as u32,
            };
            enc.set_root_constants(resources);
            enc.bind_index_buffer(d.mesh.index_buffer, (d.mesh.index_count * 4) as u32);
            enc.draw_indexed_instanced(d.mesh.index_count as u32, 1, 0, 0);
            proof {
                let t = draws@.take(i + 1);
                assert(t.drop_last() =~= draws@.take(i as int));
                assert(t.last() == draws@[i as int]);
                assert(enc.recorded() =~= prologue + draw_stream(t, view_index));
            }
            i = i + 1;
        }
        enc.transition_image(
            ResourceRef::BackBuffer(frame),
            ResourceState::RenderTarget,
            ResourceState::Present,
        );
        assert(draws@.take(i as int) =~= draws@);
        let list = enc.finish();
        proof {
            assert(list.commands@ =~= frame_commands(
                before.width(),
                before.height(),
                frame,
                rtv_handle,
                dsv_handle,
                view_index,
                draws@,
            ));
        }
        Ok(list)
    }
    /// Records the one-shot uploads into the immediate encoder and returns
    /// the finished list, to be submitted and waited on at once. Fails,
    /// recording nothing, when an upload's row pitch does not fit in 32
    /// bits.
    pub fn immediate_submit(&mut self, uploads: &Vec<ImageUpload>) -> (r: Result<
        CommandList,
        RendererError,
    >)
        requires
            old(self).wf(),
        ensures
            Self::same_resources(*old(self), *final(self)),
            r is Ok <==> forall|i: int| 0 <= i < uploads@.len() ==> upload_fits(#[trigger] uploads@[i]),
            r is Ok ==> r->Ok_0.commands@ == upload_stream(uploads@),
            r is Err ==> exists|i: int|
                0 <= i < uploads@.len() && !upload_fits(#[trigger] uploads@[i]) && r->Err_0
                    == (RendererError::UploadOutOfRange { upload: i as usize }),
    {
        let mut k: usize = 0;
        while k < uploads.len()
            invariant
                *self == *old(self),
                self.wf(),
                k <= uploads@.len(),
                forall|i: int| 0 <= i < k ==> upload_fits(#[trigger] uploads@[i]),
            decreases uploads@.len() - k,
        {
            if uploads[k].width > u32::MAX / 4 {
                return Err(RendererError::UploadOutOfRange { upload: k });
            }
            k = k + 1;
        }
        let enc = &mut self.immediate_command_encoder;
        enc.reset();
        let mut i: usize = 0;
        while i < uploads.len()
            invariant
                i <= uploads@.len(),
                forall|j: int| 0 <= j < uploads@.len() ==> upload_fits(#[trigger] uploads@[j]),
                enc.state() == EncoderState::Recording,
                enc.recorded() == upload_stream(uploads@.take(i as int)),
            decreases uploads@.len() - i,
        {
            let u = uploads[i];
            assert(upload_fits(uploads@[i as int]));
            enc.copy_buffer_to_image(u.buffer, u.image, u.width, u.height);
            enc.transition_image(
                ResourceRef::Image(u.image),
                ResourceState::CopyDest,
                ResourceState::PixelShaderResource,
            );
            proof {
                let t = uploads@.take(i + 1);
                assert(t.drop_last() =~= uploads@.take(i as int));
                assert(enc.recorded() =~= upload_stream(t));
            }
            i = i + 1;
        }
        assert(uploads@.take(i as int) =~= uploads@);
        Ok(enc.finish())
    }

    /// The upload that fills the checkerboard image from its upload buffer.
    pub fn checkerboard_upload(&self) -> (u: ImageUpload)
        ensures
            u == (ImageUpload {
                buffer: self.checkerboard_buffer(),
                image: self.checkerboard(),
                width: CHECKERBOARD_SIZE,
                height: CHECKERBOARD_SIZE,
            }),
    {
        ImageUpload {
            buffer: self.checkerboard_upload,
            image: self.checkerboard_image,
            width: CHECKERBOARD_SIZE,
            height: CHECKERBOARD_SIZE,
        }
    }

    /// First step of waiting for the previous frame: the value to signal on
    /// the queue. The counter moves past it.
    pub fn begin_frame_wait(&mut self) -> (signaled: u64)
        requires
            old(self).wf(),
            old(self).frame_state().next_fence_value() < u64::MAX,
        ensures
            signaled == old(self).frame_state().next_fence_value(),
            final(self).frame_state().next_fence_value() == signaled + 1,
            final(self).frame_state().current_frame() == old(self).frame_state().current_frame(),
            final(self).frame_state().image_count() == old(self).frame_state().image_count(),
            final(self).wf(),
            final(self).width() == old(self).width(),
            final(self).height() == old(self).height(),
            final(self).resources() == old(self).resources(),
            final(self).rtv_layout() == old(self).rtv_layout(),
            final(self).dsv_layout() == old(self).dsv_layout(),
            final(self).resource_heap() == old(self).resource_heap(),
            final(self).samplers() == old(self).samplers(),
            final(self).shared_views() == old(self).shared_views(),
    {
        self.frame.signal_next()
    }

    /// Last step of waiting for the previous frame: the frame index becomes
    /// the image that the swapchain reports current.
    pub fn end_frame_wait(&mut self, reported: usize) -> (r: Result<(), RendererError>)
        requires
            old(self).wf(),
        ensures
            final(self).wf(),
            r is Ok <==> reported < SWAPCHAIN_IMAGE_COUNT,
            r is Ok ==> final(self).frame_state().current_frame() == reported,
            r is Err ==> {
                &&& r->Err_0 == RendererError::Frame(
                    FrameError::BackBufferOutOfRange {
                        index: reported,
                        buffer_count: SWAPCHAIN_IMAGE_COUNT,
                    },
                )
                &&& final(self).frame_state().current_frame() == old(
                    self,
                ).frame_state().current_frame()
            },
            final(self).frame_state().next_fence_value() == old(self).frame_state().next_fence_value(),
            final(self).frame_state().image_count() == old(self).frame_state().image_count(),
            final(self).width() == old(self).width(),
            final(self).height() == old(self).height(),
            final(self).resources() == old(self).resources(),
            final(self).rtv_layout() == old(self).rtv_layout(),
            final(self).dsv_layout() == old(self).dsv_layout(),
            final(self).resource_heap() == old(self).resource_heap(),
            final(self).samplers() == old(self).samplers(),
            final(self).shared_views() == old(self).shared_views(),
    {
        match self.frame.advance(reported) {
            Ok(()) => Ok(()),
            Err(e) => Err(RendererError::Frame(e)),
        }
    }

    /// Registers the buffers of one mesh upload: a vertex buffer of
    /// `upload.vertex_bytes` bytes with a shader-resource view at the next
    /// slot of the resource heap, and an index buffer of
    /// `upload.index_bytes` bytes, both CPU to GPU. Returns the mesh's GPU
    /// component and the handle where its vertex view is to be written.
    pub fn register_mesh(&mut self, upload: &MeshUpload, vertices: A, indices: A) -> (r: Result<
        (GPUMesh, CpuDescriptorHandle),
        RendererError,
    >)
        requires
            old(self).wf(),
        ensures
            final(self).wf(),
            r is Ok <==> old(self).resource_heap().allocated() < old(self).resource_heap().cap(),
            r is Err ==> {
                &&& r->Err_0 == RendererError::Descriptor(
                    DescriptorError::HeapFull { capacity: old(self).resource_heap().cap() as usize },
                )
                &&& *final(self) == *old(self)
            },
            r is Ok ==> {
                let n = old(self).resources().buffers().len();
                let (mesh, handle) = r->Ok_0;
                &&& mesh == (GPUMesh {
                    vertex_buffer: BufferView {
                        buffer: BufferId(n as usize),
                        view: ViewId(old(self).resource_heap().allocated() as usize),
                    },
                    index_buffer: BufferId((n + 1) as usize),
                    index_count: upload.index_count,
                })
                &&& handle == handle_in(
                    HeapLayout {
                        base: old(self).resource_heap().base(),
                        descriptor_size: old(self).resource_heap().stride(),
                    },
                    old(self).resource_heap().allocated() as int,
                )
                &&& final(self).resources().buffers() == old(self).resources().buffers().push(
                    AllocatedBuffer {
                        allocation: vertices,
                        size: upload.vertex_bytes,
                        location: MemoryLocation::CpuToGpu,
                    },
                ).push(
                    AllocatedBuffer {
                        allocation: indices,
                        size: upload.index_bytes,
                        location: MemoryLocation::CpuToGpu,
                    },
                )
                &&& final(self).resources().images() == old(self).resources().images()
                &&& final(self).resource_heap().allocated() == old(self).resource_heap().allocated() + 1
            },
            final(self).resource_heap().cap() == old(self).resource_heap().cap(),
            final(self).resource_heap().base() == old(self).resource_heap().base(),
            final(self).resource_heap().stride() == old(self).resource_heap().stride(),
            final(self).frame_state() == old(self).frame_state(),
            final(self).samplers() == old(self).samplers(),
            final(self).shared_views() == old(self).shared_views(),
            final(self).width() == old(self).width(),
            final(self).height() == old(self).height(),
            final(self).rtv_layout() == old(self).rtv_layout(),
            final(self).dsv_layout() == old(self).dsv_layout(),
    {
        if self.cbv_heap.len() >= self.cbv_heap.capacity() {
            return Err(
                RendererError::Descriptor(
                    DescriptorError::HeapFull { capacity: self.cbv_heap.capacity() },
                ),
            );
        }
        let vertex_buffer = self.device.create_buffer(
            vertices,
            upload.vertex_bytes,
            MemoryLocation::CpuToGpu,
        );
        let (view, handle) = match self.cbv_heap.create_srv() {
            Ok(p) => p,
            Err(e) => {
                return Err(RendererError::Descriptor(e));
            },
        };
        let index_buffer = self.device.create_buffer(
            indices,
            upload.index_bytes,
            MemoryLocation::CpuToGpu,
        );
        let mesh = GPUMesh {
            vertex_buffer: BufferView { buffer: vertex_buffer, view },
            index_buffer,
            index_count: upload.index_count,
        };
        Ok((mesh, handle))
    }

    /// Takes the next slot of the sampler heap.
    pub fn create_sampler(&mut self) -> (r: Result<(SamplerId, CpuDescriptorHandle), RendererError>)
        requires
            old(self).wf(),
        ensures
            final(self).wf(),
            r is Ok <==> old(self).samplers().allocated() < old(self).samplers().cap(),
            r is Ok ==> {
                &&& r->Ok_0.0.0 == old(self).samplers().allocated()
                &&& r->Ok_0.1 == handle_in(
                    HeapLayout {
                        base: old(self).samplers().base(),
                        descriptor_size: old(self).samplers().stride(),
                    },
                    old(self).samplers().allocated() as int,
                )
                &&& final(self).samplers().allocated() == old(self).samplers().allocated() + 1
            },
            r is Err ==> {
                &&& r->Err_0 == RendererError::Descriptor(
                    DescriptorError::HeapFull { capacity: old(self).samplers().cap() as usize },
                )
                &&& final(self).samplers().allocated() == old(self).samplers().allocated()
            },
            final(self).samplers().cap() == old(self).samplers().cap(),
            final(self).samplers().base() == old(self).samplers().base(),
            final(self).samplers().stride() == old(self).samplers().stride(),
            final(self).resources() == old(self).resources(),
            final(self).resource_heap() == old(self).resource_heap(),
            final(self).frame_state() == old(self).frame_state(),
            final(self).shared_views() == old(self).shared_views(),
    {
        match self.sampler_heap.create_sampler() {
            Ok(p) => Ok(p),
            Err(e) => Err(RendererError::Descriptor(e)),
        }
    }
    /// The buffers and images that the renderer owns.
    pub fn device(&self) -> (d: &Device<A>)
        ensures
            *d == self.resources(),
    {
        &self.device
    }

    pub fn view_buffer(&self) -> (v: BufferView)
        ensures
            v == self.shared_views().0,
    {
        self.view_buffer
    }

    pub fn transform_buffer(&self) -> (v: BufferView)
        ensures
            v == self.shared_views().1,
    {
        self.transform_buffer
    }

    pub fn material_buffer(&self) -> (v: BufferView)
        ensures
            v == self.shared_views().2,
    {
        self.material_buffer
    }

    pub fn checkerboard_image(&self) -> (id: ImageId)
        ensures
            id == self.checkerboard(),
    {
        self.checkerboard_image
    }

    pub fn frame_index(&self) -> (i: usize)
        ensures
            i == self.frame_state().current_frame(),
    {
        self.frame.frame_index()
    }

    pub fn fence_value(&self) -> (v: u64)
        ensures
            v == self.frame_state().next_fence_value(),
    {
        self.frame.fence_value()
    }

    pub fn size(&self) -> (wh: (u32, u32))
        ensures
            wh == (self.width(), self.height()),
    {
        (self.width, self.height)
    }

    /// Entries of the shared transform array for the entities with a world
    /// transform, in the order given.
    pub fn prepare_transforms(&self, entities: &Vec<u64>) -> (r: Result<
        Vec<(u64, GPUTransform)>,
        PrepareError,
    >)
        ensures
            r is Ok <==> entities@.len() <= TRANSFORM_CAPACITY,
            r is Ok ==> {
                &&& r->Ok_0@.len() == entities@.len()
                &&& forall|i: int|
                    0 <= i < entities@.len() ==> #[trigger] r->Ok_0@[i] == (
                        entities@[i],
                        GPUTransform { buffer: self.shared_views().1, offset: i as usize },
                    )
            },
            r is Err ==> r->Err_0 == (PrepareError::CapacityExceeded {
                array: SharedArray::Transforms,
                count: entities@.len() as usize,
                capacity: TRANSFORM_CAPACITY,
            }),
    {
        assign_transforms(entities, self.transform_buffer)
    }

    /// Entries of the shared material array for the entities with a
    /// material handle, in the order given.
    pub fn prepare_materials<M>(&self, entities: &Vec<(u64, Handle<M>)>, materials: &Assets<M>) -> (r:
        Result<Vec<MaterialSlot>, PrepareError>)
        requires
            forall|i: int|
                0 <= i < entities@.len() ==> (#[trigger] entities@[i]).1.idx < materials@.len(),
        ensures
            r is Ok <==> entities@.len() <= MATERIAL_CAPACITY,
            r is Ok ==> {
                &&& r->Ok_0@.len() == entities@.len()
                &&& forall|i: int|
                    0 <= i < entities@.len() ==> #[trigger] r->Ok_0@[i] == (MaterialSlot {
                        entity: entities@[i].0,
                        material: entities@[i].1.idx,
                        component: GPUMaterial { buffer: self.shared_views().2, offset: i as usize },
                    })
            },
            r is Err ==> r->Err_0 == (PrepareError::CapacityExceeded {
                array: SharedArray::Materials,
                count: entities@.len() as usize,
                capacity: MATERIAL_CAPACITY,
            }),
    {
        assign_materials(entities, materials, self.material_buffer)
    }
    /// Hands out every buffer and image that the renderer owns, for the
    /// allocations to be freed at teardown.
    pub fn release_resources(&mut self) -> (r: (Vec<AllocatedImage<A>>, Vec<AllocatedBuffer<A>>))
        requires
            old(self).wf(),
        ensures
            final(self).wf(),
            r.0@ == old(self).resources().images(),
            r.1@ == old(self).resources().buffers(),
            final(self).resources().images() == Seq::<AllocatedImage<A>>::empty(),
            final(self).resources().buffers() == Seq::<AllocatedBuffer<A>>::empty(),
    {
        self.device.release_all()
    }
    /// The preparation pass: registers the buffers of each mesh upload (as
    /// `register_mesh` does, in the order given), gives each entity with a
    /// world transform and each entity with a material the next entry of
    /// the shared arrays, and returns the component attachments to apply
    /// once the scene store's queries are over. Fails, changing nothing,
    /// when a shared array or the resource heap has too little room.
    pub fn prepare<M>(
        &mut self,
        uploads: &Vec<MeshUpload>,
        buffers: Vec<MeshBuffers<A>>,
        transforms: &Vec<u64>,
        materials: &Vec<(u64, Handle<M>)>,
        table: &Assets<M>,
    ) -> (r: Result<PreparedScene, RendererError>)
        requires
            old(self).wf(),
            buffers@.len() == uploads@.len(),
            forall|i: int| 0 <= i < materials@.len() ==> (#[trigger] materials@[i]).1.idx < table@.len(),
        ensures
            final(self).wf(),
            r is Ok <==> {
                &&& transforms@.len() <= TRANSFORM_CAPACITY
                &&& materials@.len() <= MATERIAL_CAPACITY
                &&& old(self).resource_heap().allocated() + uploads@.len() <= old(self).resource_heap().cap()
            },
            r is Err ==> *final(self) == *old(self),
            transforms@.len() > TRANSFORM_CAPACITY ==> r->Err_0 == RendererError::Prepare(
                PrepareError::CapacityExceeded {
                    array: SharedArray::Transforms,
                    count: transforms@.len() as usize,
                    capacity: TRANSFORM_CAPACITY,
                },
            ),
            transforms@.len() <= TRANSFORM_CAPACITY && materials@.len() > MATERIAL_CAPACITY
                ==> r->Err_0 == RendererError::Prepare(
                PrepareError::CapacityExceeded {
                    array: SharedArray::Materials,
                    count: materials@.len() as usize,
                    capacity: MATERIAL_CAPACITY,
                },
            ),
            r is Err && transforms@.len() <= TRANSFORM_CAPACITY && materials@.len() <= MATERIAL_CAPACITY
                ==> r->Err_0 == RendererError::Descriptor(
                DescriptorError::HeapFull { capacity: old(self).resource_heap().cap() as usize },
            ),
            r is Ok ==> {
                let nb = old(self).resources().buffers().len() as int;
                let nv = old(self).resource_heap().allocated() as int;
                let heap = HeapLayout {
                    base: old(self).resource_heap().base(),
                    descriptor_size: old(self).resource_heap().stride(),
                };
                let p = r->Ok_0;
                &&& p.attachments@ == mesh_attachments(uploads@, nb, nv) + transform_attachments(
                    transforms@,
                    old(self).shared_views().1,
                ) + material_attachments(materials@, old(self).shared_views().2)
                &&& p.vertex_views@.len() == uploads@.len()
                &&& forall|k: int|
                    0 <= k < uploads@.len() ==> #[trigger] p.vertex_views@[k] == handle_in(heap, nv + k)
                &&& p.material_copies@.len() == materials@.len()
                &&& forall|i: int|
                    0 <= i < materials@.len() ==> #[trigger] p.material_copies@[i] == (MaterialSlot {
                        entity: materials@[i].0,
                        material: materials@[i].1.idx,
                        component: GPUMaterial { buffer: old(self).shared_views().2, offset: i as usize },
                    })
                &&& final(self).resources().buffers() == old(self).resources().buffers()
                    + mesh_buffer_records(uploads@, buffers@)
                &&& final(self).resources().images() == old(self).resources().images()
                &&& final(self).resource_heap().allocated() == nv + uploads@.len()
            },
            final(self).resource_heap().cap() == old(self).resource_heap().cap(),
            final(self).resource_heap().base() == old(self).resource_heap().base(),
            final(self).resource_heap().stride() == old(self).resource_heap().stride(),
            final(self).frame_state() == old(self).frame_state(),
            final(self).samplers() == old(self).samplers(),
            final(self).shared_views() == old(self).shared_views(),
            final(self).width() == old(self).width(),
            final(self).height() == old(self).height(),
            final(self).rtv_layout() == old(self).rtv_layout(),
            final(self).dsv_layout() == old(self).dsv_layout(),
    {
        let transform_slots = match assign_transforms(transforms, self.transform_buffer) {
            Ok(t) => t,
            Err(e) => {
                return Err(RendererError::Prepare(e));
            },
        };
        let material_copies = match assign_materials(materials, table, self.material_buffer) {
            Ok(m) => m,
            Err(e) => {
                return Err(RendererError::Prepare(e));
            },
        };
        if uploads.len() > self.cbv_heap.capacity() - self.cbv_heap.len() {
            return Err(
                RendererError::Descriptor(
                    DescriptorError::HeapFull { capacity: self.cbv_heap.capacity() },
                ),
            );
        }
        let ghost start = *self;
        let ghost nb = self.device.buffers().len() as int;
        let ghost nv = self.cbv_heap.allocated() as int;
        let ghost bs0 = buffers@;
        let ghost heap = HeapLayout { base: self.cbv_heap.base(), descriptor_size: self.cbv_heap.stride() };
        let n = uploads.len();
        let mut buffers = buffers;
        let mut attachments: Vec<Attachment> = Vec::new();
        let mut vertex_views: Vec<CpuDescriptorHandle> = Vec::new();
        let mut k: usize = 0;
        while k < n
            invariant
                n == uploads@.len(),
                bs0.len() == n,
                k <= n,
                self.wf(),
                buffers@ == bs0.subrange(k as int, n as int),
                self.device.buffers() == start.device.buffers() + mesh_buffer_records(
                    uploads@.take(k as int),
                    bs0.take(k as int),
                ),
                self.device.images() == start.device.images(),
                self.cbv_heap.allocated() == nv + k,
                nv + n <= self.cbv_heap.cap(),
                self.cbv_heap.cap() == start.cbv_heap.cap(),
                self.cbv_heap.base() == heap.base,
                self.cbv_heap.stride() == heap.descriptor_size,
                self.frame == start.frame,
                self.sampler_heap == start.sampler_heap,
                self.shared_views() == start.shared_views(),
                self.width == start.width,
                self.height == start.height,
                self.rtv_layout() == start.rtv_layout(),
                self.dsv_layout() == start.dsv_layout(),
                nb == start.device.buffers().len(),
                attachments@ == mesh_attachments(uploads@.take(k as int), nb, nv),
                vertex_views@.len() == k,
                forall|j: int| 0 <= j < k ==> #[trigger] vertex_views@[j] == handle_in(heap, nv + j),
            decreases n - k,
        {
            let MeshBuffers { vertices, indices } = buffers.remove(0);
            let ghost before = self.device.buffers();
            match self.register_mesh(&uploads[k], vertices, indices) {
                Ok((mesh, handle)) => {
                    attachments.push(Attachment::Mesh { entity: uploads[k].entity, mesh });
                    vertex_views.push(handle);
                },
                Err(e) => {
                    return Err(e);
                },
            }
            proof {
                assert(bs0[k as int] == MeshBuffers { vertices, indices });
                let recs = mesh_buffer_records(uploads@.take(k + 1), bs0.take(k + 1));
                let prev = mesh_buffer_records(uploads@.take(k as int), bs0.take(k as int));
                assert(recs =~= prev.push(
                    AllocatedBuffer { allocation: vertices, size: uploads@[k as int].vertex_bytes, location: MemoryLocation::CpuToGpu },
                ).push(
                    AllocatedBuffer { allocation: indices, size: uploads@[k as int].index_bytes, location: MemoryLocation::CpuToGpu },
                ));
                assert(self.device.buffers() =~= start.device.buffers() + recs);
                assert(before.len() == nb + 2 * k);
                assert(attachments@ =~= mesh_attachments(uploads@.take(k + 1), nb, nv));
                assert(buffers@ =~= bs0.subrange(k + 1, n as int));
            }
            k = k + 1;
        }
        proof {
            assert(uploads@.take(n as int) =~= uploads@);
            assert(bs0.take(n as int) =~= bs0);
        }
        let ghost meshes = attachments@;
        let mut i: usize = 0;
        while i < transform_slots.len()
            invariant
                i <= transform_slots@.len(),
                transform_slots@.len() == transforms@.len(),
                forall|j: int|
                    0 <= j < transforms@.len() ==> #[trigger] transform_slots@[j] == (
                        transforms@[j],
                        GPUTransform { buffer: start.transform_buffer, offset: j as usize },
                    ),
                attachments@ == meshes + transform_attachments(transforms@.take(i as int), start.transform_buffer),
            decreases transform_slots@.len() - i,
        {
            let (entity, transform) = transform_slots[i];
            attachments.push(Attachment::Transform { entity, transform });
            proof {
                assert(transform_attachments(transforms@.take(i + 1), start.transform_buffer) =~= transform_attachments(
                    transforms@.take(i as int),
                    start.transform_buffer,
                ).push(Attachment::Transform { entity, transform }));
            }
            i = i + 1;
        }
        assert(transforms@.take(i as int) =~= transforms@);
        let ghost with_transforms = attachments@;
        let mut i: usize = 0;
        while i < material_copies.len()
            invariant
                i <= material_copies@.len(),
                material_copies@.len() == materials@.len(),
                forall|j: int|
                    0 <= j < materials@.len() ==> #[trigger] material_copies@[j] == (MaterialSlot {
                        entity: materials@[j].0,
                        material: materials@[j].1.idx,
                        component: GPUMaterial { buffer: start.material_buffer, offset: j as usize },
                    }),
                attachments@ == with_transforms + material_attachments(materials@.take(i as int), start.material_buffer),
            decreases material_copies@.len() - i,
        {
            let slot = material_copies[i];
            attachments.push(Attachment::Material { entity: slot.entity, material: slot.component });
            proof {
                assert(material_attachments(materials@.take(i + 1), start.material_buffer) =~= material_attachments(
                    materials@.take(i as int),
                    start.material_buffer,
                ).push(Attachment::Material { entity: slot.entity, material: slot.component }));
            }
            i = i + 1;
        }
        assert(materials@.take(i as int) =~= materials@);
        Ok(PreparedScene { attachments, vertex_views, material_copies })
    }
}

} // verus!
