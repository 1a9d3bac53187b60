use crate::id::{BufferId, ImageId};
use vstd::prelude::*;

verus! {

/// Which memory a buffer lives in.
#[derive(Clone, Copy, Debug, PartialEq, Eq, Structural)]
pub enum MemoryLocation {
    /// Left to the driver; not promised to be visible to the CPU.
    Unknown,
    /// GPU-only memory, not visible to the CPU.
    GpuOnly,
    /// CPU-writable memory that the GPU reads (uploads, constants).
    CpuToGpu,
    /// GPU-writable memory that the CPU reads back.
    GpuToCpu,
}

/// Whether memory at `location` can be mapped for CPU access.
pub open spec fn cpu_visible(location: MemoryLocation) -> bool {
    location == MemoryLocation::CpuToGpu || location == MemoryLocation::GpuToCpu
}

/// A buffer of `size` bytes and the allocation backing it.
pub struct AllocatedBuffer<A> {
    pub allocation: A,
    pub size: u64,
    pub location: MemoryLocation,
}

/// A 2-D, single-mip, single-sample image and the allocation backing it.
pub struct AllocatedImage<A> {
    pub allocation: A,
    pub width: u32,
    pub height: u32,
}

/// Why a device operation failed.
#[derive(Clone, Copy, Debug, PartialEq, Eq, Structural)]
pub enum DeviceError {
    /// The buffer lives in memory that the CPU cannot map.
    NotMappable(BufferId),
}

/// Number of `elem_size`-byte elements that a mapping of `size` bytes
/// exposes: whole elements only, so a partial tail is never read.
pub open spec fn mapped_len(size: u64, elem_size: u64) -> int
    recommends
        elem_size > 0,
{
    size as int / elem_size as int
}

/// A mapping stays inside its buffer and leaves out less than one element:
/// the `size / elem_size` whole elements that it exposes span at most `size`
/// bytes, and the bytes past them are fewer than one element.
pub proof fn lemma_mapping_within_buffer(size: u64, elem_size: u64)
    requires
        elem_size > 0,
    ensures
        mapped_len(size, elem_size) * elem_size <= size,
        size - mapped_len(size, elem_size) * elem_size < elem_size,
{
    let s = size as int;
    let e = elem_size as int;
    vstd::arithmetic::div_mod::lemma_fundamental_div_mod(s, e);
    vstd::arithmetic::div_mod::lemma_mod_pos_bound(s, e);
    vstd::arithmetic::mul::lemma_mul_is_commutative(s / e, e);
}

/// The buffers and images that a device owns, each named by a dense id: the
/// n-th buffer (image) created has id n - 1, and ids are never reused.
///
/// `A` is the type of the backing allocations.
pub struct Device<A> {
    images: Vec<AllocatedImage<A>>,
    buffers: Vec<AllocatedBuffer<A>>,
}

impl<A> Device<A> {
    pub closed spec fn buffers(&self) -> Seq<AllocatedBuffer<A>> {
        self.buffers@
    }

    pub closed spec fn images(&self) -> Seq<AllocatedImage<A>> {
        self.images@
    }

    /// `id` names a buffer of this device.
    pub open spec fn has_buffer(&self, id: BufferId) -> bool {
        id.0 < self.buffers().len()
    }

    /// `id` names an image of this device.
    pub open spec fn has_image(&self, id: ImageId) -> bool {
        id.0 < self.images().len()
    }

    /// A device that owns nothing yet.
    pub fn new() -> (d: Self)
        ensures
            d.buffers() == Seq::<AllocatedBuffer<A>>::empty(),
            d.images() == Seq::<AllocatedImage<A>>::empty(),
    {
        Device { images: Vec::new(), buffers: Vec::new() }
    }

    pub fn buffer_count(&self) -> (n: usize)
        ensures
            n == self.buffers().len(),
    {
        self.buffers.len()
    }

    pub fn image_count(&self) -> (n: usize)
        ensures
            n == self.images().len(),
    {
        self.images.len()
    }

    pub fn get_image(&self, image_id: ImageId) -> (r: &AllocatedImage<A>)
        requires
            self.has_image(image_id),
        ensures
            *r == self.images()[image_id.0 as int],
    {
        &self.images[image_id.0]
    }

    pub fn get_buffer(&self, buffer_id: BufferId) -> (r: &AllocatedBuffer<A>)
        requires
            self.has_buffer(buffer_id),
        ensures
            *r == self.buffers()[buffer_id.0 as int],
    {
        &self.buffers[buffer_id.0]
    }

    /// Takes ownership of `allocation`, a `width` x `height` image, and
    /// returns its id.
    pub fn create_image(&mut self, allocation: A, width: u32, height: u32) -> (id: ImageId)
        ensures
            id.0 == old(self).images().len(),
            final(self).images() == old(self).images().push(
                AllocatedImage { allocation, width, height },
            ),
            final(self).buffers() == old(self).buffers(),
    {
        let idx = self.images.len();
        self.images.push(AllocatedImage { allocation, width, height });
        ImageId(idx)
    }

    /// Takes ownership of `allocation`, a buffer of `size` bytes at
    /// `location`, and returns its id.
    pub fn create_buffer(&mut self, allocation: A, size: u64, location: MemoryLocation) -> (id:
        BufferId)
        ensures
            id.0 == old(self).buffers().len(),
            final(self).buffers() == old(self).buffers().push(
                AllocatedBuffer { allocation, size, location },
            ),
            final(self).images() == old(self).images(),
    {
        let idx = self.buffers.len();
        self.buffers.push(AllocatedBuffer { allocation, size, location });
        BufferId(idx)
    }

    /// Length, in elements of `elem_size` bytes, of the mapping of buffer
    /// `id`; an error if its memory is not visible to the CPU.
    pub fn map_buffer(&self, id: BufferId, elem_size: u64) -> (r: Result<u64, DeviceError>)
        requires
            self.has_buffer(id),
            elem_size > 0,
        ensures
            r is Ok <==> cpu_visible(self.buffers()[id.0 as int].location),
            r is Ok ==> r->Ok_0 == mapped_len(self.buffers()[id.0 as int].size, elem_size),
            r is Err ==> r->Err_0 == DeviceError::NotMappable(id),
    {
        let buffer = &self.buffers[id.0];
        match buffer.location {
            MemoryLocation::CpuToGpu | MemoryLocation::GpuToCpu => Ok(buffer.size / elem_size),
            _ => Err(DeviceError::NotMappable(id)),
        }
    }

    /// Hands out every buffer and image, for the allocations to be freed at
    /// teardown; the device then owns nothing.
    pub fn release_all(&mut self) -> (r: (Vec<AllocatedImage<A>>, Vec<AllocatedBuffer<A>>))
        ensures
            r.0@ == old(self).images(),
            r.1@ == old(self).buffers(),
            final(self).images() == Seq::<AllocatedImage<A>>::empty(),
            final(self).buffers() == Seq::<AllocatedBuffer<A>>::empty(),
    {
        let mut images: Vec<AllocatedImage<A>> = Vec::new();
        let mut buffers: Vec<AllocatedBuffer<A>> = Vec::new();
        std::mem::swap(&mut images, &mut self.images);
        std::mem::swap(&mut buffers, &mut self.buffers);
        (images, buffers)
    }
}

/// Mapping a buffer just created with `size` bytes reads exactly its
/// `size / elem_size` whole elements: the device holds the buffer under the
/// returned id with that size and location, and those elements lie within
/// its bytes, leaving out less than one element.
pub proof fn lemma_created_buffer_maps<A>(
    before: Device<A>,
    after: Device<A>,
    id: BufferId,
    allocation: A,
    size: u64,
    location: MemoryLocation,
    elem_size: u64,
)
    requires
        id.0 == before.buffers().len(),
        after.buffers() == before.buffers().push(AllocatedBuffer { allocation, size, location }),
        elem_size > 0,
    ensures
        after.has_buffer(id),
        after.buffers()[id.0 as int].size == size,
        after.buffers()[id.0 as int].location == location,
        mapped_len(size, elem_size) * elem_size <= size,
        size - mapped_len(size, elem_size) * elem_size < elem_size,
{
    lemma_mapping_within_buffer(size, elem_size);
}

} // verus!
