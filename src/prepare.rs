use crate::asset::{Assets, Handle};
use crate::id::{BufferId, BufferView};
use vstd::prelude::*;

verus! {

/// Bytes per vertex: position, normal and colour (4 x f32 each), uv and
/// padding (2 x f32 each).
pub const VERTEX_SIZE: u64 = 64;

/// Bytes per index (`u32`).
pub const INDEX_SIZE: u64 = 4;

/// Bytes per world transform (a 4 x 4 `f32` matrix).
pub const TRANSFORM_SIZE: u64 = 64;

/// Bytes per material uniform block (4 x f32 colour, roughness, metallic,
/// reflectance, padding).
pub const MATERIAL_UNIFORM_SIZE: u64 = 32;

/// Entries of the shared transform array.
pub const TRANSFORM_CAPACITY: usize = 1000;

/// Entries of the shared material array.
pub const MATERIAL_CAPACITY: usize = 200;

/// GPU copy of an entity's mesh.
#[derive(Clone, Copy, Debug, PartialEq, Eq, Structural)]
pub struct GPUMesh {
    pub vertex_buffer: BufferView,
    pub index_buffer: BufferId,
    pub index_count: usize,
}

/// Where an entity's world transform lies in the shared transform array.
#[derive(Clone, Copy, Debug, PartialEq, Eq, Structural)]
pub struct GPUTransform {
    pub buffer: BufferView,
    pub offset: usize,
}

/// Where an entity's material block lies in the shared material array.
#[derive(Clone, Copy, Debug, PartialEq, Eq, Structural)]
pub struct GPUMaterial {
    pub buffer: BufferView,
    pub offset: usize,
}

/// Which shared array ran out of entries.
#[derive(Clone, Copy, Debug, PartialEq, Eq, Structural)]
pub enum SharedArray {
    Transforms,
    Materials,
}

/// Why a preparation step failed.
#[derive(Clone, Copy, Debug, PartialEq, Eq, Structural)]
pub enum PrepareError {
    /// More entries than the shared array holds.
    CapacityExceeded { array: SharedArray, count: usize, capacity: usize },
    /// The mesh of this entity is too large for its buffer sizes to fit in
    /// 64 bits.
    MeshTooLarge { entity: u64 },
}

/// An entity that carries a mesh handle, as the scene store reports it,
/// with the sizes of the mesh that the handle names.
#[derive(Clone, Copy, Debug, PartialEq, Eq, Structural)]
pub struct MeshCandidate {
    pub entity: u64,
    pub vertex_count: usize,
    pub index_count: usize,
    /// The entity already carries a `GPUMesh`.
    pub has_gpu_mesh: bool,
}

/// A mesh to copy to the GPU: the entity and the sizes of the vertex and
/// index buffers to create for it.
#[derive(Clone, Copy, Debug, PartialEq, Eq, Structural)]
pub struct MeshUpload {
    pub entity: u64,
    pub vertex_count: usize,
    pub index_count: usize,
    pub vertex_bytes: u64,
    pub index_bytes: u64,
}

/// The buffer sizes of `c` fit in 64 bits.
pub open spec fn upload_fits(c: MeshCandidate) -> bool {
    &&& c.vertex_count * VERTEX_SIZE <= u64::MAX
    &&& c.index_count * INDEX_SIZE <= u64::MAX
}

pub open spec fn upload_of(c: MeshCandidate) -> MeshUpload {
    MeshUpload {
        entity: c.entity,
        vertex_count: c.vertex_count,
        index_count: c.index_count,
        vertex_bytes: (c.vertex_count * VERTEX_SIZE) as u64,
        index_bytes: (c.index_count * INDEX_SIZE) as u64,
    }
}

/// The uploads that a preparation pass makes: one for each candidate
/// without a GPU mesh, in the order given.
pub open spec fn pending_uploads(c: Seq<MeshCandidate>) -> Seq<MeshUpload> {
    c.filter_map(
        |m: MeshCandidate|
            if m.has_gpu_mesh {
                None
            } else {
                Some(upload_of(m))
            },
    )
}

/// Plans the mesh uploads of a preparation pass: every entity with a mesh
/// handle and no GPU mesh yet gets one upload, sized to its mesh; entities
/// that already carry a GPU mesh are left alone.
pub fn plan_mesh_uploads(candidates: &Vec<MeshCandidate>) -> (r: Result<Vec<MeshUpload>, PrepareError>)
    ensures
        r is Ok <==> (forall|i: int|
            0 <= i < candidates@.len() && !(#[trigger] candidates@[i]).has_gpu_mesh ==> upload_fits(
                candidates@[i],
            )),
        r is Ok ==> r->Ok_0@ == pending_uploads(candidates@),
        r is Err ==> exists|i: int|
            0 <= i < candidates@.len() && !(#[trigger] candidates@[i]).has_gpu_mesh
                && !upload_fits(candidates@[i]) && r->Err_0 == (PrepareError::MeshTooLarge {
                entity: candidates@[i].entity,
            }),
{
    let mut out: Vec<MeshUpload> = Vec::new();
    let mut i: usize = 0;
    while i < candidates.len()
        invariant
            i <= candidates@.len(),
            out@ == pending_uploads(candidates@.take(i as int)),
            forall|k: int|
                0 <= k < i && !(#[trigger] candidates@[k]).has_gpu_mesh ==> upload_fits(
                    candidates@[k],
                ),
        decreases candidates@.len() - i,
    {
        let c = candidates[i];
        assert(candidates@.take(i + 1).drop_last() =~= candidates@.take(i as int));
        if !c.has_gpu_mesh {
            if c.vertex_count as u64 > u64::MAX / VERTEX_SIZE || c.index_count as u64 > u64::MAX
                / INDEX_SIZE {
                return Err(PrepareError::MeshTooLarge { entity: c.entity });
            }
            out.push(
                MeshUpload {
                    entity: c.entity,
                    vertex_count: c.vertex_count,
                    index_count: c.index_count,
                    vertex_bytes: c.vertex_count as u64 * VERTEX_SIZE,
                    index_bytes: c.index_count as u64 * INDEX_SIZE,
                },
            );
        }
        i = i + 1;
    }
    assert(candidates@.take(i as int) =~= candidates@);
    Ok(out)
}

/// Gives each entity with a world transform the next entry of the shared
/// transform array, in the order given: the i-th entity gets offset i.
pub fn assign_transforms(entities: &Vec<u64>, buffer: BufferView) -> (r: Result<
    Vec<(u64, GPUTransform)>,
    PrepareError,
>)
    ensures
        r is Ok <==> entities@.len() <= TRANSFORM_CAPACITY,
        r is Ok ==> {
            &&& r->Ok_0@.len() == entities@.len()
            &&& forall|i: int|
                0 <= i < entities@.len() ==> #[trigger] r->Ok_0@[i] == (
                    entities@[i],
                    GPUTransform { buffer, offset: i as usize },
                )
        },
        r is Err ==> r->Err_0 == (PrepareError::CapacityExceeded {
            array: SharedArray::Transforms,
            count: entities@.len() as usize,
            capacity: TRANSFORM_CAPACITY,
        }),
{
    if entities.len() > TRANSFORM_CAPACITY {
        return Err(
            PrepareError::CapacityExceeded {
                array: SharedArray::Transforms,
                count: entities.len(),
                capacity: TRANSFORM_CAPACITY,
            },
        );
    }
    let mut out: Vec<(u64, GPUTransform)> = Vec::new();
    let mut i: usize = 0;
    while i < entities.len()
        invariant
            i <= entities@.len(),
            out@.len() == i,
            forall|k: int|
                0 <= k < i ==> #[trigger] out@[k] == (
                    entities@[k],
                    GPUTransform { buffer, offset: k as usize },
                ),
        decreases entities@.len() - i,
    {
        out.push((entities[i], GPUTransform { buffer, offset: i }));
        i = i + 1;
    }
    Ok(out)
}

/// A material block to copy: the entity, the material whose uniform block
/// is copied, and where it goes.
#[derive(Clone, Copy, Debug, PartialEq, Eq, Structural)]
pub struct MaterialSlot {
    pub entity: u64,
    pub material: usize,
    pub component: GPUMaterial,
}

/// Gives each entity with a material handle the next entry of the shared
/// material array, in the order given: the i-th entity's material block is
/// copied to offset i. Every handle must name a material of `materials`.
pub fn assign_materials<M>(
    entities: &Vec<(u64, Handle<M>)>,
    materials: &Assets<M>,
    buffer: BufferView,
) -> (r: Result<Vec<MaterialSlot>, PrepareError>)
    requires
        forall|i: int| 0 <= i < entities@.len() ==> (#[trigger] entities@[i]).1.idx < materials@.len(),
    ensures
        r is Ok <==> entities@.len() <= MATERIAL_CAPACITY,
        r is Ok ==> {
            &&& r->Ok_0@.len() == entities@.len()
            &&& forall|i: int|
                0 <= i < entities@.len() ==> #[trigger] r->Ok_0@[i] == (MaterialSlot {
                    entity: entities@[i].0,
                    material: entities@[i].1.idx,
                    component: GPUMaterial { buffer, offset: i as usize },
                })
        },
        r is Err ==> r->Err_0 == (PrepareError::CapacityExceeded {
            array: SharedArray::Materials,
            count: entities@.len() as usize,
            capacity: MATERIAL_CAPACITY,
        }),
{
    if entities.len() > MATERIAL_CAPACITY {
        return Err(
            PrepareError::CapacityExceeded {
                array: SharedArray::Materials,
                count: entities.len(),
                capacity: MATERIAL_CAPACITY,
            },
        );
    }
    let mut out: Vec<MaterialSlot> = Vec::new();
    let mut i: usize = 0;
    while i < entities.len()
        invariant
            i <= entities@.len(),
            out@.len() == i,
            forall|k: int|
                0 <= k < i ==> #[trigger] out@[k] == (MaterialSlot {
                    entity: entities@[k].0,
                    material: entities@[k].1.idx,
                    component: GPUMaterial { buffer, offset: k as usize },
                }),
        decreases entities@.len() - i,
    {
        let (entity, handle) = (entities[i].0, entities[i].1.idx);
        out.push(
            MaterialSlot { entity, material: handle, component: GPUMaterial { buffer, offset: i } },
        );
        i = i + 1;
    }
    Ok(out)
}

} // verus!
