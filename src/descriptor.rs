use crate::id::{SamplerId, ViewId};
use vstd::prelude::*;

verus! {

/// CPU address of one descriptor slot (`D3D12_CPU_DESCRIPTOR_HANDLE`).
#[derive(Clone, Copy, Debug, PartialEq, Eq, Structural)]
pub struct CpuDescriptorHandle {
    pub ptr: usize,
}

/// Why a descriptor could not be allocated.
#[derive(Clone, Copy, Debug, PartialEq, Eq, Structural)]
pub enum DescriptorError {
    /// Every slot of a heap with this capacity is taken.
    HeapFull { capacity: usize },
}

/// Address of slot `idx` in a heap that starts at `base` with slots
/// `stride` bytes apart.
pub open spec fn slot_address(base: usize, stride: u32, idx: int) -> int {
    base + idx * stride
}

/// `after` keeps the layout of `before`: the same capacity, base and stride.
pub open spec fn same_layout(before: DescriptorHeap, after: DescriptorHeap) -> bool {
    &&& after.wf()
    &&& after.cap() == before.cap()
    &&& after.base() == before.base()
    &&& after.stride() == before.stride()
}

/// The outcome of one allocation on `before`: when a slot is free, the next
/// one (`before.allocated()`) is taken and its CPU handle returned;
/// otherwise the heap is unchanged and the error names its capacity.
pub open spec fn allocation(
    before: DescriptorHeap,
    after: DescriptorHeap,
    r: Result<CpuDescriptorHandle, DescriptorError>,
) -> bool {
    &&& same_layout(before, after)
    &&& (r is Ok <==> before.allocated() < before.cap())
    &&& r is Ok ==> {
        &&& r->Ok_0.ptr == slot_address(before.base(), before.stride(), before.allocated() as int)
        &&& after.allocated() == before.allocated() + 1
    }
    &&& r is Err ==> {
        &&& r->Err_0 == DescriptorError::HeapFull { capacity: before.cap() as usize }
        &&& after.allocated() == before.allocated()
    }
}

/// The handle part of an allocation that also returns an id.
pub open spec fn handle_part<I>(r: Result<(I, CpuDescriptorHandle), DescriptorError>) -> Result<
    CpuDescriptorHandle,
    DescriptorError,
> {
    match r {
        Ok((_, h)) => Ok(h),
        Err(e) => Err(e),
    }
}

/// Bookkeeping of a fixed-capacity descriptor heap.
///
/// Slots are handed out densely, in order, and never reclaimed: the n-th
/// allocation, of whatever view kind, receives slot n - 1.
pub struct DescriptorHeap {
    base: usize,
    descriptor_size: u32,
    capacity: usize,
    items: usize,
}

impl DescriptorHeap {
    /// Slots allocated so far.
    pub closed spec fn allocated(&self) -> nat {
        self.items as nat
    }

    /// Number of slots of the heap.
    pub closed spec fn cap(&self) -> nat {
        self.capacity as nat
    }

    /// CPU address of slot 0.
    pub closed spec fn base(&self) -> usize {
        self.base
    }

    /// Distance in bytes between two consecutive slots.
    pub closed spec fn stride(&self) -> u32 {
        self.descriptor_size
    }

    /// The heap is consistent: no more slots allocated than it has, and every
    /// slot's address fits in a `usize`.
    pub closed spec fn wf(&self) -> bool {
        &&& self.items <= self.capacity
        &&& slot_address(self.base, self.descriptor_size, self.capacity as int) <= usize::MAX
    }

    /// An empty heap of `capacity` slots whose first slot lies at `base`.
    pub fn new(base: usize, descriptor_size: u32, capacity: usize) -> (h: Self)
        requires
            slot_address(base, descriptor_size, capacity as int) <= usize::MAX,
        ensures
            h.wf(),
            h.allocated() == 0,
            h.cap() == capacity,
            h.base() == base,
            h.stride() == descriptor_size,
    {
        DescriptorHeap { base, descriptor_size, capacity, items: 0 }
    }

    /// Slots allocated so far.
    pub fn len(&self) -> (n: usize)
        ensures
            n == self.allocated(),
            self.wf() ==> n <= self.cap(),
    {
        self.items
    }

    /// Number of slots of the heap.
    pub fn capacity(&self) -> (n: usize)
        ensures
            n == self.cap(),
    {
        self.capacity
    }

    /// CPU handle of slot `idx`.
    pub fn get_handle(&self, idx: usize) -> (h: CpuDescriptorHandle)
        requires
            self.wf(),
            idx < self.cap(),
        ensures
            h.ptr == slot_address(self.base(), self.stride(), idx as int),
    {
        let size = self.descriptor_size as usize;
        proof {
            let c = self.capacity as int;
            let s = size as int;
            assert(idx as int * s <= c * s) by (nonlinear_arith)
                requires
                    idx < c,
                    s >= 0,
            ;
        }
        CpuDescriptorHandle { ptr: self.base + idx * size }
    }

    /// Takes the next free slot.
    fn next_slot(&mut self) -> (r: Result<(usize, CpuDescriptorHandle), DescriptorError>)
        requires
            old(self).wf(),
        ensures
            allocation(*old(self), *final(self), handle_part(r)),
            r is Ok ==> r->Ok_0.0 == old(self).allocated(),
    {
        if self.items < self.capacity {
            let idx = self.items;
            let handle = self.get_handle(idx);
            self.items = self.items + 1;
            Ok((idx, handle))
        } else {
            Err(DescriptorError::HeapFull { capacity: self.capacity })
        }
    }
    /// Takes the next slot for a render-target view and returns its handle,
    /// where the view is to be written.
    pub fn create_rtv(&mut self) -> (r: Result<CpuDescriptorHandle, DescriptorError>)
        requires
            old(self).wf(),
        ensures
            allocation(*old(self), *final(self), r),
    {
        match self.next_slot() {
            Ok((_, handle)) => Ok(handle),
            Err(e) => Err(e),
        }
    }

    /// Takes the next slot for a depth-stencil view and returns its handle.
    pub fn create_dsv(&mut self) -> (r: Result<CpuDescriptorHandle, DescriptorError>)
        requires
            old(self).wf(),
        ensures
            allocation(*old(self), *final(self), r),
    {
        match self.next_slot() {
            Ok((_, handle)) => Ok(handle),
            Err(e) => Err(e),
        }
    }

    /// Takes the next slot for a sampler: its id is the slot index.
    pub fn create_sampler(&mut self) -> (r: Result<(SamplerId, CpuDescriptorHandle), DescriptorError>)
        requires
            old(self).wf(),
        ensures
            allocation(*old(self), *final(self), handle_part(r)),
            r is Ok ==> r->Ok_0.0.0 == old(self).allocated(),
    {
        match self.next_slot() {
            Ok((idx, handle)) => Ok((SamplerId(idx), handle)),
            Err(e) => Err(e),
        }
    }

    /// Takes the next slot for a shader-resource view: its id is the slot
    /// index.
    pub fn create_srv(&mut self) -> (r: Result<(ViewId, CpuDescriptorHandle), DescriptorError>)
        requires
            old(self).wf(),
        ensures
            allocation(*old(self), *final(self), handle_part(r)),
            r is Ok ==> r->Ok_0.0.0 == old(self).allocated(),
    {
        match self.next_slot() {
            Ok((idx, handle)) => Ok((ViewId(idx), handle)),
            Err(e) => Err(e),
        }
    }

    /// Takes the next slot for a constant-buffer view: its id is the slot
    /// index.
    pub fn create_cbv(&mut self) -> (r: Result<(ViewId, CpuDescriptorHandle), DescriptorError>)
        requires
            old(self).wf(),
        ensures
            allocation(*old(self), *final(self), handle_part(r)),
            r is Ok ==> r->Ok_0.0.0 == old(self).allocated(),
    {
        match self.next_slot() {
            Ok((idx, handle)) => Ok((ViewId(idx), handle)),
            Err(e) => Err(e),
        }
    }
}

/// Along a run of successful allocations from an empty heap, the m-th heap
/// has m slots taken and the layout of the first.
proof fn lemma_dense_prefix(heaps: Seq<DescriptorHeap>, handles: Seq<CpuDescriptorHandle>, m: int)
    requires
        heaps.len() == handles.len() + 1,
        heaps[0].allocated() == 0,
        forall|k: int|
            0 <= k < handles.len() ==> allocation(
                #[trigger] heaps[k],
                heaps[k + 1],
                Ok(handles[k]),
            ),
        0 <= m < heaps.len(),
    ensures
        heaps[m].allocated() == m,
        heaps[m].base() == heaps[0].base(),
        heaps[m].stride() == heaps[0].stride(),
    decreases m,
{
    if m > 0 {
        lemma_dense_prefix(heaps, handles, m - 1);
        assert(allocation(heaps[m - 1], heaps[m], Ok(handles[m - 1])));
    }
}

/// Slots are handed out densely and in order: along any run of successful
/// allocations of any view kinds on a heap that starts empty, the k-th
/// allocation (counting from 0) gets slot k, and after k allocations k
/// slots are taken.
pub proof fn lemma_slots_dense(heaps: Seq<DescriptorHeap>, handles: Seq<CpuDescriptorHandle>)
    requires
        heaps.len() == handles.len() + 1,
        heaps[0].allocated() == 0,
        forall|k: int|
            0 <= k < handles.len() ==> allocation(
                #[trigger] heaps[k],
                heaps[k + 1],
                Ok(handles[k]),
            ),
    ensures
        forall|k: int| 0 <= k < heaps.len() ==> (#[trigger] heaps[k]).allocated() == k,
        forall|k: int|
            0 <= k < handles.len() ==> (#[trigger] handles[k]).ptr == slot_address(
                heaps[0].base(),
                heaps[0].stride(),
                k,
            ),
{
    assert forall|k: int| 0 <= k < heaps.len() implies (#[trigger] heaps[k]).allocated() == k by {
        lemma_dense_prefix(heaps, handles, k);
    }
    assert forall|k: int|
        0 <= k < handles.len() implies (#[trigger] handles[k]).ptr == slot_address(
        heaps[0].base(),
        heaps[0].stride(),
        k,
    ) by {
        lemma_dense_prefix(heaps, handles, k);
        assert(allocation(heaps[k], heaps[k + 1], Ok(handles[k])));
    }
}

} // verus!
