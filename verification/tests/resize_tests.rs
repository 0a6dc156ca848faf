use eren_frame_core::commands::{ClipConvention, Command};
use eren_frame_core::resize::{create_swapchain, recreate_swapchain, TeardownStep};
use eren_frame_core::swapchain::Extent;

#[test]
fn teardown_follows_the_fixed_order() {
    let (chain, renderer) = create_swapchain(None, 800, 600, 3, 0, 2, ClipConvention::YDown, 0);
    let (plan, _, _) = recreate_swapchain(&chain, &renderer, 1024, 768, ClipConvention::YDown, 0);
    let expected = vec![
        TeardownStep::WaitIdle,
        TeardownStep::DestroyDescriptorPool,
        TeardownStep::DestroyUniformBuffer { slot: 0 },
        TeardownStep::DestroyUniformBuffer { slot: 1 },
        TeardownStep::DestroyCombinedBuffer,
        TeardownStep::DestroyPipelineLayout,
        TeardownStep::DestroyDescriptorSetLayout,
        TeardownStep::DestroyFramebuffer { image_index: 0 },
        TeardownStep::DestroyFramebuffer { image_index: 1 },
        TeardownStep::DestroyFramebuffer { image_index: 2 },
        TeardownStep::DestroyRenderPass,
    ];
    assert_eq!(plan, expected);
}

#[test]
fn resize_waits_idle_before_destroying_anything() {
    let (chain, renderer) = create_swapchain(None, 800, 600, 2, 0, 2, ClipConvention::YDown, 0);
    let (plan, _, _) = recreate_swapchain(&chain, &renderer, 1024, 768, ClipConvention::YDown, 0);
    assert_eq!(plan[0], TeardownStep::WaitIdle);
    for step in plan.iter().skip(1) {
        assert_ne!(*step, TeardownStep::WaitIdle);
    }
    for i in 0..2 {
        assert!(plan.contains(&TeardownStep::DestroyFramebuffer { image_index: i }));
    }
    assert_eq!(*plan.last().unwrap(), TeardownStep::DestroyRenderPass);
}

#[test]
fn reconstruction_renders_at_the_new_extent_on_the_next_frame() {
    let (chain, renderer) = create_swapchain(None, 800, 600, 3, 0, 2, ClipConvention::YDown, 0);
    let (_, new_chain, new_renderer) =
        recreate_swapchain(&chain, &renderer, 1024, 768, ClipConvention::YDown, 0);
    assert_eq!(new_chain.extent, Extent { width: 1024, height: 768 });
    assert_eq!(new_chain.image_count, 3);
    let cmds = new_renderer.render_pass_ref().record_commands(0, 0, 0);
    assert_eq!(
        cmds[0],
        Command::BeginRenderPass { framebuffer_index: 0, width: 1024, height: 768 }
    );
}

#[test]
fn pair_is_built_together_and_consistent() {
    let (chain, renderer) = create_swapchain(None, 320, 240, 2, 7, 2, ClipConvention::YUp, 5);
    assert_eq!(chain.extent, Extent { width: 320, height: 240 });
    assert_eq!(chain.pre_transform, 7);
    let pass = renderer.render_pass_ref();
    assert_eq!(pass.extent, chain.extent);
    assert_eq!(pass.framebuffer_count, chain.image_count);
    assert_eq!(pass.subpass.uniform_slot_count, 2);
    assert_eq!(pass.subpass.start_millis, 5);
}
