use sovereign::asset::Assets;
use sovereign::descriptor::CpuDescriptorHandle;
use sovereign::device::MemoryLocation;
use sovereign::encoder::{
    ClearColor, Command, Footprint, PrimitiveTopology, RenderResources, ResourceRef, ResourceState,
};
use sovereign::frame::{FenceAction, FrameError, FrameSync};
use sovereign::id::{BufferId, BufferView, ImageId, SamplerId, ViewId};
use sovereign::prepare::{
    plan_mesh_uploads, GPUMaterial, GPUMesh, GPUTransform, MeshCandidate, MATERIAL_CAPACITY,
    TRANSFORM_CAPACITY,
};
use sovereign::prepare::{MaterialSlot, MeshUpload, PrepareError, SharedArray};
use sovereign::renderer::{
    Attachment, HeapLayout, ImageUpload, MeshBuffers, Renderable, Renderer, RendererError,
    SetupAllocations,
};

fn layout(base: usize, size: u32) -> HeapLayout {
    HeapLayout { base, descriptor_size: size }
}

fn setup(current: usize) -> Result<(Renderer<u32>, sovereign::renderer::SetupDescriptors), RendererError> {
    Renderer::new(
        1280,
        960,
        current,
        layout(1000, 32),
        layout(2000, 16),
        layout(10_000, 64),
        layout(50_000, 32),
        SetupAllocations {
            depth: 1,
            view: 2,
            transforms: 3,
            materials: 4,
            checkerboard: 5,
            checkerboard_upload: 6,
        },
    )
}

#[test]
fn setup_takes_descriptor_slots_in_order() {
    let (r, d) = setup(1).unwrap();
    assert_eq!(d.render_target_0, CpuDescriptorHandle { ptr: 1000 });
    assert_eq!(d.render_target_1, CpuDescriptorHandle { ptr: 1032 });
    assert_eq!(d.depth, CpuDescriptorHandle { ptr: 2000 });
    assert_eq!(d.view, CpuDescriptorHandle { ptr: 10_000 });
    assert_eq!(d.transforms, CpuDescriptorHandle { ptr: 10_064 });
    assert_eq!(d.materials, CpuDescriptorHandle { ptr: 10_128 });
    assert_eq!(r.view_buffer(), BufferView { buffer: BufferId(0), view: ViewId(0) });
    assert_eq!(r.transform_buffer(), BufferView { buffer: BufferId(1), view: ViewId(1) });
    assert_eq!(r.material_buffer(), BufferView { buffer: BufferId(2), view: ViewId(2) });
    assert_eq!(r.checkerboard_image(), ImageId(1));
    assert_eq!(r.frame_index(), 1);
    assert_eq!(r.fence_value(), 1);
    assert_eq!(r.size(), (1280, 960));
}

#[test]
fn setup_registers_buffers_with_their_sizes() {
    let (r, _) = setup(0).unwrap();
    let dev = r.device();
    assert_eq!(dev.get_buffer(BufferId(0)).size, 256);
    assert_eq!(dev.get_buffer(BufferId(1)).size, 64 * TRANSFORM_CAPACITY as u64);
    assert_eq!(dev.get_buffer(BufferId(2)).size, 32 * MATERIAL_CAPACITY as u64);
    assert_eq!(dev.get_buffer(BufferId(3)).size, 16 * 16 * 4);
    assert_eq!(dev.get_buffer(BufferId(3)).allocation, 6);
    assert_eq!(dev.get_buffer(BufferId(1)).location, MemoryLocation::CpuToGpu);
    assert_eq!(dev.get_image(ImageId(0)).width, 1280);
    assert_eq!(dev.get_image(ImageId(0)).height, 960);
    assert_eq!(dev.get_image(ImageId(1)).width, 16);
    assert_eq!(dev.map_buffer(BufferId(1), 64), Ok(TRANSFORM_CAPACITY as u64));
}

#[test]
fn setup_refuses_bad_current_image() {
    assert_eq!(
        setup(2).err(),
        Some(RendererError::Frame(FrameError::BackBufferOutOfRange { index: 2, buffer_count: 2 }))
    );
}

fn draw(vertex_view: usize, index_buffer: usize, count: usize, t: usize, m: usize) -> Renderable {
    Renderable {
        mesh: GPUMesh {
            vertex_buffer: BufferView { buffer: BufferId(index_buffer - 1), view: ViewId(vertex_view) },
            index_buffer: BufferId(index_buffer),
            index_count: count,
        },
        material: GPUMaterial { buffer: BufferView { buffer: BufferId(2), view: ViewId(2) }, offset: m },
        transform: GPUTransform { buffer: BufferView { buffer: BufferId(1), view: ViewId(1) }, offset: t },
    }
}

#[test]
fn render_records_frame_in_order() {
    let (mut r, _) = setup(1).unwrap();
    let list = r.render(&vec![draw(3, 5, 36, 0, 0), draw(4, 7, 6, 1, 2)]).unwrap();
    let rtv = CpuDescriptorHandle { ptr: 1032 };
    let dsv = CpuDescriptorHandle { ptr: 2000 };
    let expected = vec![
        Command::SetDescriptorHeaps,
        Command::SetRootSignature,
        Command::SetPipeline,
        Command::SetViewport { width: 1280, height: 960 },
        Command::SetScissor { width: 1280, height: 960 },
        Command::Transition {
            resource: ResourceRef::BackBuffer(1),
            before: ResourceState::Present,
            after: ResourceState::RenderTarget,
        },
        Command::SetRenderTarget { render_target: rtv, depth_stencil: Some(dsv) },
        Command::ClearRenderTarget {
            render_target: rtv,
            color: ClearColor { r: 0, g: 0, b: 0, a: 1.0f32.to_bits() },
        },
        Command::ClearDepthTarget { depth_target: dsv, depth_bits: 0.0f32.to_bits() },
        Command::SetPrimitiveTopology(PrimitiveTopology::TriangleList),
        Command::SetRootConstants(RenderResources {
            vertex_buffer_id: 3,
            transform_buffer_id: 1,
            transform_offset: 0,
            view_buffer_index: 0,
            material_buffer_index: 2,
            material_offset: 0,
        }),
        Command::BindIndexBuffer { buffer: BufferId(5), size_in_bytes: 144 },
        Command::DrawIndexed { index_count: 36, instance_count: 1, start_index: 0, base_vertex: 0 },
        Command::SetRootConstants(RenderResources {
            vertex_buffer_id: 4,
            transform_buffer_id: 1,
            transform_offset: 1,
            view_buffer_index: 0,
            material_buffer_index: 2,
            material_offset: 2,
        }),
        Command::BindIndexBuffer { buffer: BufferId(7), size_in_bytes: 24 },
        Command::DrawIndexed { index_count: 6, instance_count: 1, start_index: 0, base_vertex: 0 },
        Command::Transition {
            resource: ResourceRef::BackBuffer(1),
            before: ResourceState::RenderTarget,
            after: ResourceState::Present,
        },
    ];
    assert_eq!(list.commands, expected);
}

#[test]
fn render_without_draws_only_clears() {
    let (mut r, _) = setup(0).unwrap();
    let list = r.render(&Vec::new()).unwrap();
    assert_eq!(list.commands.len(), 11);
    assert!(!list.commands.iter().any(|c| matches!(c, Command::DrawIndexed { .. })));
}

#[test]
fn render_refuses_oversized_draw() {
    let (mut r, _) = setup(0).unwrap();
    let big = draw(3, 5, (u32::MAX / 4) as usize + 1, 0, 0);
    assert_eq!(
        r.render(&vec![draw(3, 5, 3, 0, 0), big]).err(),
        Some(RendererError::DrawOutOfRange { draw: 1 })
    );
}

#[test]
fn checkerboard_upload_copies_then_makes_readable() {
    let (mut r, _) = setup(0).unwrap();
    let upload = r.checkerboard_upload();
    assert_eq!(upload, ImageUpload { buffer: BufferId(3), image: ImageId(1), width: 16, height: 16 });
    let list = r.immediate_submit(&vec![upload]).unwrap();
    assert_eq!(
        list.commands,
        vec![
            Command::CopyBufferToImage {
                buffer: BufferId(3),
                image: ImageId(1),
                footprint: Footprint { width: 16, height: 16, row_pitch: 64 },
            },
            Command::Transition {
                resource: ResourceRef::Image(ImageId(1)),
                before: ResourceState::CopyDest,
                after: ResourceState::PixelShaderResource,
            },
        ]
    );
}

#[test]
fn immediate_submit_refuses_oversized_row() {
    let (mut r, _) = setup(0).unwrap();
    let u = ImageUpload { buffer: BufferId(3), image: ImageId(1), width: u32::MAX / 4 + 1, height: 1 };
    assert_eq!(r.immediate_submit(&vec![u]).err(), Some(RendererError::UploadOutOfRange { upload: 0 }));
}

#[test]
fn frame_wait_protocol() {
    let (mut r, _) = setup(0).unwrap();
    let signaled = r.begin_frame_wait();
    assert_eq!(signaled, 1);
    assert_eq!(r.fence_value(), 2);
    assert_eq!(FrameSync::fence_action(signaled, 0), FenceAction::WaitFor(1));
    assert_eq!(FrameSync::fence_action(signaled, 1), FenceAction::Proceed);
    r.end_frame_wait(1).unwrap();
    assert_eq!(r.frame_index(), 1);
    let second = r.begin_frame_wait();
    assert_eq!(second, 2);
    r.end_frame_wait(0).unwrap();
    assert_eq!(r.frame_index(), 0);
    assert_eq!(
        r.end_frame_wait(2),
        Err(RendererError::Frame(FrameError::BackBufferOutOfRange { index: 2, buffer_count: 2 }))
    );
    assert_eq!(r.frame_index(), 0);
}

#[test]
fn register_mesh_takes_buffers_and_view() {
    let (mut r, _) = setup(0).unwrap();
    let candidates = vec![MeshCandidate { entity: 1, vertex_count: 3, index_count: 3, has_gpu_mesh: false }];
    let plan = plan_mesh_uploads(&candidates).unwrap();
    let (mesh, handle) = r.register_mesh(&plan[0], 10, 11).unwrap();
    assert_eq!(
        mesh,
        GPUMesh {
            vertex_buffer: BufferView { buffer: BufferId(4), view: ViewId(3) },
            index_buffer: BufferId(5),
            index_count: 3,
        }
    );
    assert_eq!(handle, CpuDescriptorHandle { ptr: 10_000 + 3 * 64 });
    assert_eq!(r.device().get_buffer(BufferId(4)).size, 3 * 64);
    assert_eq!(r.device().get_buffer(BufferId(5)).size, 3 * 4);
    assert_eq!(r.device().get_buffer(BufferId(5)).allocation, 11);
}

#[test]
fn samplers_take_dense_slots() {
    let (mut r, _) = setup(0).unwrap();
    assert_eq!(r.create_sampler(), Ok((SamplerId(0), CpuDescriptorHandle { ptr: 50_000 })));
    assert_eq!(r.create_sampler(), Ok((SamplerId(1), CpuDescriptorHandle { ptr: 50_032 })));
}

struct Entity {
    id: u64,
    mesh: Option<(usize, usize)>,
    gpu_mesh: Option<GPUMesh>,
    gpu_transform: Option<GPUTransform>,
    gpu_material: Option<GPUMaterial>,
    material: sovereign::asset::Handle<&'static str>,
}

fn renderables(entities: &[Entity]) -> Vec<Renderable> {
    entities
        .iter()
        .filter_map(|e| match (e.gpu_mesh, e.gpu_material, e.gpu_transform) {
            (Some(mesh), Some(material), Some(transform)) => Some(Renderable { mesh, material, transform }),
            _ => None,
        })
        .collect()
}

fn prepare(r: &mut Renderer<u32>, entities: &mut [Entity], materials: &Assets<&'static str>) {
    let candidates: Vec<MeshCandidate> = entities
        .iter()
        .filter_map(|e| {
            e.mesh.map(|(v, i)| MeshCandidate {
                entity: e.id,
                vertex_count: v,
                index_count: i,
                has_gpu_mesh: e.gpu_mesh.is_some(),
            })
        })
        .collect();
    let uploads = plan_mesh_uploads(&candidates).unwrap();
    let buffers = uploads.iter().map(|_| MeshBuffers { vertices: 0, indices: 0 }).collect();
    let ids: Vec<u64> = entities.iter().map(|e| e.id).collect();
    let with_material: Vec<_> = entities.iter().map(|e| (e.id, e.material)).collect();
    let prepared = r.prepare(&uploads, buffers, &ids, &with_material, materials).unwrap();
    for a in prepared.attachments {
        let (id, apply): (u64, Box<dyn Fn(&mut Entity)>) = match a {
            Attachment::Mesh { entity, mesh } => (entity, Box::new(move |e: &mut Entity| e.gpu_mesh = Some(mesh))),
            Attachment::Transform { entity, transform } => {
                (entity, Box::new(move |e: &mut Entity| e.gpu_transform = Some(transform)))
            }
            Attachment::Material { entity, material } => {
                (entity, Box::new(move |e: &mut Entity| e.gpu_material = Some(material)))
            }
        };
        let e = entities.iter_mut().find(|e| e.id == id).unwrap();
        apply(e);
    }
}

fn draw_count(r: &mut Renderer<u32>, entities: &[Entity]) -> usize {
    let list = r.render(&renderables(entities)).unwrap();
    list.commands.iter().filter(|c| matches!(c, Command::DrawIndexed { .. })).count()
}

#[test]
fn unprepared_entity_is_drawn_once_after_prepare() {
    let (mut r, _) = setup(0).unwrap();
    let mut materials: Assets<&'static str> = Assets::new();
    let m = materials.push("plain");
    let mut entities = vec![Entity {
        id: 42,
        mesh: Some((3, 3)),
        gpu_mesh: None,
        gpu_transform: None,
        gpu_material: None,
        material: m,
    }];
    assert_eq!(draw_count(&mut r, &entities), 0);
    prepare(&mut r, &mut entities, &materials);
    assert_eq!(draw_count(&mut r, &entities), 1);
    let buffers_after_first = r.device().buffer_count();
    prepare(&mut r, &mut entities, &materials);
    assert_eq!(r.device().buffer_count(), buffers_after_first);
    assert_eq!(draw_count(&mut r, &entities), 1);
}

#[test]
fn sampler_heap_runs_out() {
    let (mut r, _) = setup(0).unwrap();
    for k in 0..1000usize {
        assert_eq!(r.create_sampler().unwrap().0, SamplerId(k));
    }
    assert_eq!(
        r.create_sampler(),
        Err(RendererError::Descriptor(sovereign::descriptor::DescriptorError::HeapFull { capacity: 1000 }))
    );
}

#[test]
fn prepare_batches_meshes_transforms_materials() {
    let (mut r, _) = setup(0).unwrap();
    let mut table: Assets<&'static str> = Assets::new();
    let red = table.push("red");
    let uploads = vec![
        MeshUpload { entity: 7, vertex_count: 3, index_count: 3, vertex_bytes: 192, index_bytes: 12 },
        MeshUpload { entity: 8, vertex_count: 4, index_count: 6, vertex_bytes: 256, index_bytes: 24 },
    ];
    let buffers = vec![MeshBuffers { vertices: 70, indices: 71 }, MeshBuffers { vertices: 80, indices: 81 }];
    let prepared = r.prepare(&uploads, buffers, &vec![8, 7], &vec![(7, red)], &table).unwrap();
    let tv = BufferView { buffer: BufferId(1), view: ViewId(1) };
    let mv = BufferView { buffer: BufferId(2), view: ViewId(2) };
    assert_eq!(
        prepared.attachments,
        vec![
            Attachment::Mesh {
                entity: 7,
                mesh: GPUMesh { vertex_buffer: BufferView { buffer: BufferId(4), view: ViewId(3) }, index_buffer: BufferId(5), index_count: 3 },
            },
            Attachment::Mesh {
                entity: 8,
                mesh: GPUMesh { vertex_buffer: BufferView { buffer: BufferId(6), view: ViewId(4) }, index_buffer: BufferId(7), index_count: 6 },
            },
            Attachment::Transform { entity: 8, transform: GPUTransform { buffer: tv, offset: 0 } },
            Attachment::Transform { entity: 7, transform: GPUTransform { buffer: tv, offset: 1 } },
            Attachment::Material { entity: 7, material: GPUMaterial { buffer: mv, offset: 0 } },
        ]
    );
    assert_eq!(
        prepared.vertex_views,
        vec![CpuDescriptorHandle { ptr: 10_000 + 3 * 64 }, CpuDescriptorHandle { ptr: 10_000 + 4 * 64 }]
    );
    assert_eq!(
        prepared.material_copies,
        vec![MaterialSlot { entity: 7, material: 0, component: GPUMaterial { buffer: mv, offset: 0 } }]
    );
    assert_eq!(r.device().get_buffer(BufferId(6)).allocation, 80);
    assert_eq!(r.device().get_buffer(BufferId(7)).size, 24);
}

#[test]
fn prepare_refuses_too_many_transforms_and_changes_nothing() {
    let (mut r, _) = setup(0).unwrap();
    let table: Assets<&'static str> = Assets::new();
    let ids: Vec<u64> = (0..1001).collect();
    let uploads = vec![MeshUpload { entity: 1, vertex_count: 1, index_count: 1, vertex_bytes: 64, index_bytes: 4 }];
    let before = r.device().buffer_count();
    assert_eq!(
        r.prepare(&uploads, vec![MeshBuffers { vertices: 0, indices: 0 }], &ids, &Vec::new(), &table).err(),
        Some(RendererError::Prepare(PrepareError::CapacityExceeded {
            array: SharedArray::Transforms,
            count: 1001,
            capacity: TRANSFORM_CAPACITY,
        }))
    );
    assert_eq!(r.device().buffer_count(), before);
}

#[test]
fn prepare_refuses_when_resource_heap_is_full() {
    let (mut r, _) = setup(0).unwrap();
    let table: Assets<&'static str> = Assets::new();
    let uploads: Vec<MeshUpload> = (0..998)
        .map(|e| MeshUpload { entity: e, vertex_count: 1, index_count: 1, vertex_bytes: 64, index_bytes: 4 })
        .collect();
    let buffers = uploads.iter().map(|_| MeshBuffers { vertices: 0, indices: 0 }).collect();
    assert_eq!(
        r.prepare(&uploads, buffers, &Vec::new(), &Vec::new(), &table).err(),
        Some(RendererError::Descriptor(sovereign::descriptor::DescriptorError::HeapFull { capacity: 1000 }))
    );
}
