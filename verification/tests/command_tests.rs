use eren_frame_core::commands::{
    projection_flips_y, ClipConvention, Command, TestRenderPass, TestSubpass,
};
use eren_frame_core::swapchain::Swapchain;

fn quad_pass(convention: ClipConvention) -> TestRenderPass {
    let chain = Swapchain::new(800, 600, 3, 0, None);
    TestRenderPass::new(&chain, 2, convention, 0).unwrap()
}

#[test]
fn records_exactly_one_indexed_draw() {
    let rp = quad_pass(ClipConvention::YDown);
    let cmds = rp.record_commands(1, 0, 0);
    let mut draws: Vec<Command> = Vec::new();
    for c in cmds.iter() {
        if matches!(c, Command::DrawIndexed { .. }) {
            draws.push(*c);
        }
    }
    assert_eq!(draws.len(), 1);
    assert_eq!(
        draws[0],
        Command::DrawIndexed {
            index_count: 6,
            instance_count: 1,
            first_index: 0,
            vertex_offset: 0,
            first_instance: 0,
        }
    );
}

#[test]
fn render_pass_brackets_the_subpass() {
    let rp = quad_pass(ClipConvention::YDown);
    let cmds = rp.record_commands(2, 1, 0);
    assert_eq!(
        cmds[0],
        Command::BeginRenderPass { framebuffer_index: 2, width: 800, height: 600 }
    );
    assert_eq!(*cmds.last().unwrap(), Command::EndRenderPass);
    assert_eq!(cmds.len(), 8);
}

#[test]
fn geometry_binds_use_the_packed_offsets() {
    let rp = quad_pass(ClipConvention::YDown);
    let cmds = rp.record_commands(0, 0, 0);
    assert_eq!(cmds[2], Command::BindVertexBuffer { offset: 0 });
    assert_eq!(cmds[3], Command::BindIndexBuffer { offset: 80 });
}

#[test]
fn uniform_write_targets_only_its_slot() {
    let rp = quad_pass(ClipConvention::YDown);
    for frame_idx in 0..2 {
        let cmds = rp.record_commands(0, frame_idx, 0);
        let mut writes: usize = 0;
        for c in cmds.iter() {
            if let Command::WriteUniform { slot, .. } = c {
                assert_eq!(*slot, frame_idx);
                writes += 1;
            }
        }
        assert_eq!(writes, 1);
        assert!(cmds.contains(&Command::BindDescriptorSet { slot: frame_idx }));
    }
}

#[test]
fn uniform_write_carries_elapsed_time_and_flip() {
    let sp = TestSubpass::new(2, ClipConvention::YDown, 1000).unwrap();
    let cmds = sp.record_commands(1, 1500, 640, 480);
    assert_eq!(
        cmds[3],
        Command::WriteUniform { slot: 1, elapsed_ms: 500, width: 640, height: 480, flip_y: true }
    );
}

#[test]
fn elapsed_time_saturates_at_zero() {
    let sp = TestSubpass::new(1, ClipConvention::YUp, 2000).unwrap();
    let cmds = sp.record_commands(0, 500, 100, 100);
    assert_eq!(
        cmds[3],
        Command::WriteUniform { slot: 0, elapsed_ms: 0, width: 100, height: 100, flip_y: false }
    );
}

#[test]
fn flip_decision_follows_clip_convention() {
    assert!(projection_flips_y(ClipConvention::YDown));
    assert!(!projection_flips_y(ClipConvention::YUp));
}
