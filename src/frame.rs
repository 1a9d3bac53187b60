use vstd::prelude::*;

verus! {

/// What the CPU must do after signalling the fence.
#[derive(Clone, Copy, Debug, PartialEq, Eq, Structural)]
pub enum FenceAction {
    /// The GPU has already passed the value: go on without blocking.
    Proceed,
    /// Block until the fence reaches this value.
    WaitFor(u64),
}

/// Why the frame state could not advance.
#[derive(Clone, Copy, Debug, PartialEq, Eq, Structural)]
pub enum FrameError {
    /// The swapchain reported an image index outside its images.
    BackBufferOutOfRange { index: usize, buffer_count: usize },
}

/// CPU side of the single-in-flight-frame protocol: the next fence value
/// to signal and the swapchain image being rendered.
///
/// Each wait signals the current fence value and then increments it, so the
/// values signalled strictly increase.
pub struct FrameSync {
    fence_value: u64,
    frame_index: usize,
    buffer_count: usize,
}

impl FrameSync {
    /// The value that the next signal will use.
    pub closed spec fn next_fence_value(&self) -> u64 {
        self.fence_value
    }

    pub closed spec fn current_frame(&self) -> usize {
        self.frame_index
    }

    pub closed spec fn image_count(&self) -> usize {
        self.buffer_count
    }

    pub closed spec fn wf(&self) -> bool {
        self.frame_index < self.buffer_count
    }

    /// Starts with fence value 1 on the image the swapchain reports current.
    pub fn new(frame_index: usize, buffer_count: usize) -> (r: Result<Self, FrameError>)
        ensures
            r is Ok <==> frame_index < buffer_count,
            r is Ok ==> {
                &&& r->Ok_0.wf()
                &&& r->Ok_0.next_fence_value() == 1
                &&& r->Ok_0.current_frame() == frame_index
                &&& r->Ok_0.image_count() == buffer_count
            },
            r is Err ==> r->Err_0 == (FrameError::BackBufferOutOfRange {
                index: frame_index,
                buffer_count,
            }),
    {
        if frame_index < buffer_count {
            Ok(FrameSync { fence_value: 1, frame_index, buffer_count })
        } else {
            Err(FrameError::BackBufferOutOfRange { index: frame_index, buffer_count })
        }
    }

    pub fn fence_value(&self) -> (v: u64)
        ensures
            v == self.next_fence_value(),
    {
        self.fence_value
    }

    pub fn frame_index(&self) -> (i: usize)
        ensures
            i == self.current_frame(),
            self.wf() ==> i < self.image_count(),
    {
        self.frame_index
    }

    pub fn buffer_count(&self) -> (n: usize)
        ensures
            n == self.image_count(),
    {
        self.buffer_count
    }

    /// First step of a wait: returns the value to signal on the queue and
    /// moves the counter past it.
    pub fn signal_next(&mut self) -> (signaled: u64)
        requires
            old(self).next_fence_value() < u64::MAX,
        ensures
            signaled == old(self).next_fence_value(),
            final(self).next_fence_value() == signaled + 1,
            final(self).current_frame() == old(self).current_frame(),
            final(self).image_count() == old(self).image_count(),
            final(self).wf() == old(self).wf(),
    {
        let v = self.fence_value;
        self.fence_value = v + 1;
        v
    }

    /// Second step: whether to block, given the value signalled and the
    /// value that the fence reports completed. Only a fence still behind
    /// the signalled value is waited on.
    pub fn fence_action(signaled: u64, completed: u64) -> (a: FenceAction)
        ensures
            completed >= signaled ==> a == FenceAction::Proceed,
            completed < signaled ==> a == FenceAction::WaitFor(signaled),
    {
        if completed < signaled {
            FenceAction::WaitFor(signaled)
        } else {
            FenceAction::Proceed
        }
    }

    /// Last step: the frame index becomes the image that the swapchain now
    /// reports current.
    pub fn advance(&mut self, reported: usize) -> (r: Result<(), FrameError>)
        requires
            old(self).wf(),
        ensures
            final(self).wf(),
            r is Ok <==> reported < old(self).image_count(),
            r is Ok ==> final(self).current_frame() == reported,
            r is Err ==> {
                &&& r->Err_0 == (FrameError::BackBufferOutOfRange {
                    index: reported,
                    buffer_count: old(self).image_count(),
                })
                &&& final(self).current_frame() == old(self).current_frame()
            },
            final(self).next_fence_value() == old(self).next_fence_value(),
            final(self).image_count() == old(self).image_count(),
    {
        if reported < self.buffer_count {
            self.frame_index = reported;
            Ok(())
        } else {
            Err(FrameError::BackBufferOutOfRange { index: reported, buffer_count: self.buffer_count })
        }
    }
}

/// With a two-image flip swapchain, which after each present reports the
/// other image as current, following its report never renders to the
/// image just presented twice in a row.
pub proof fn lemma_two_images_alternate(before: FrameSync, after: FrameSync, reported: usize)
    requires
        before.wf(),
        before.image_count() == 2,
        reported == (before.current_frame() + 1) % 2,
        after.current_frame() == reported,
    ensures
        after.current_frame() != before.current_frame(),
        after.current_frame() < 2,
{
    assert(before.current_frame() < 2);
}

} // verus!
