use sovereign::frame::{FenceAction, FrameError, FrameSync};

#[test]
fn no_wait_when_fence_already_reached() {
    assert_eq!(FrameSync::fence_action(5, 5), FenceAction::Proceed);
    assert_eq!(FrameSync::fence_action(5, 9), FenceAction::Proceed);
}

#[test]
fn wait_when_fence_behind() {
    assert_eq!(FrameSync::fence_action(5, 4), FenceAction::WaitFor(5));
    assert_eq!(FrameSync::fence_action(1, 0), FenceAction::WaitFor(1));
}

#[test]
fn signalled_values_strictly_increase() {
    let mut sync = FrameSync::new(0, 2).unwrap();
    assert_eq!(sync.fence_value(), 1);
    assert_eq!(sync.signal_next(), 1);
    assert_eq!(sync.signal_next(), 2);
    assert_eq!(sync.signal_next(), 3);
    assert_eq!(sync.fence_value(), 4);
}

#[test]
fn frame_index_follows_reported_image() {
    let mut sync = FrameSync::new(1, 2).unwrap();
    assert_eq!(sync.frame_index(), 1);
    sync.advance(0).unwrap();
    assert_eq!(sync.frame_index(), 0);
    sync.advance(1).unwrap();
    assert_eq!(sync.frame_index(), 1);
}

#[test]
fn out_of_range_image_is_refused() {
    assert_eq!(
        FrameSync::new(2, 2).err(),
        Some(FrameError::BackBufferOutOfRange { index: 2, buffer_count: 2 })
    );
    let mut sync = FrameSync::new(0, 2).unwrap();
    assert_eq!(
        sync.advance(3),
        Err(FrameError::BackBufferOutOfRange { index: 3, buffer_count: 2 })
    );
    assert_eq!(sync.frame_index(), 0);
}
