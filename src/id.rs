use vstd::prelude::*;

verus! {

/// Index of a sampler descriptor in the sampler heap.
#[derive(Clone, Copy, Debug, PartialEq, Eq, Structural)]
pub struct SamplerId(pub usize);

/// Dense index of an image owned by a device.
#[derive(Clone, Copy, Debug, PartialEq, Eq, Hash, Structural)]
pub struct ImageId(pub usize);

/// Dense index of a buffer owned by a device.
#[derive(Clone, Copy, Debug, PartialEq, Eq, Hash, Structural)]
pub struct BufferId(pub usize);

/// Index of a shader-visible view (SRV or CBV) in the resource heap.
#[derive(Clone, Copy, Debug, PartialEq, Eq, Hash, Structural)]
pub struct ViewId(pub usize);

/// A buffer together with the view through which shaders index it.
///
/// A plain value: it names the buffer and does not own it.
#[derive(Clone, Copy, Debug, PartialEq, Eq, Structural)]
pub struct BufferView {
    pub buffer: BufferId,
    pub view: ViewId,
}

} // verus!
