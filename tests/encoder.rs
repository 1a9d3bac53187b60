use sovereign::descriptor::CpuDescriptorHandle;
use sovereign::encoder::{
    Command, CommandEncoder, EncoderState, Footprint, PrimitiveTopology, ResourceRef,
    ResourceState,
};
use sovereign::id::{BufferId, ImageId};

#[test]
fn encoder_cycle() {
    let mut enc = CommandEncoder::new();
    assert_eq!(enc.get_state(), EncoderState::Reset);
    enc.reset();
    assert_eq!(enc.get_state(), EncoderState::Recording);
    enc.set_viewport(640, 480);
    enc.set_primitive_topology(PrimitiveTopology::TriangleList);
    let list = enc.finish();
    assert_eq!(enc.get_state(), EncoderState::Finished);
    assert_eq!(
        list.commands,
        vec![
            Command::SetViewport { width: 640, height: 480 },
            Command::SetPrimitiveTopology(PrimitiveTopology::TriangleList),
        ]
    );
}

#[test]
fn reset_discards_previous_recording() {
    let mut enc = CommandEncoder::new();
    enc.reset();
    enc.set_pipeline();
    let first = enc.finish();
    assert_eq!(first.commands, vec![Command::SetPipeline]);
    enc.reset();
    enc.set_scissor(1, 2);
    let second = enc.finish();
    assert_eq!(second.commands, vec![Command::SetScissor { width: 1, height: 2 }]);
}

#[test]
fn copy_uses_four_bytes_per_texel_row_pitch() {
    let mut enc = CommandEncoder::new();
    enc.reset();
    enc.copy_buffer_to_image(BufferId(3), ImageId(1), 16, 8);
    enc.transition_image(ResourceRef::Image(ImageId(1)), ResourceState::CopyDest, ResourceState::PixelShaderResource);
    enc.set_render_target(CpuDescriptorHandle { ptr: 8 }, None);
    let list = enc.finish();
    assert_eq!(
        list.commands[0],
        Command::CopyBufferToImage {
            buffer: BufferId(3),
            image: ImageId(1),
            footprint: Footprint { width: 16, height: 8, row_pitch: 64 },
        }
    );
    assert_eq!(
        list.commands[2],
        Command::SetRenderTarget { render_target: CpuDescriptorHandle { ptr: 8 }, depth_stencil: None }
    );
}
