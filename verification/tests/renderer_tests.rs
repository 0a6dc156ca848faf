use eren_frame_core::commands::{ClipConvention, Command};
use eren_frame_core::renderer::{
    DeviceReply, RenderAction, RenderError, StepOutcome, TestRenderer,
};
use eren_frame_core::swapchain::{AcquireError, Swapchain};

fn renderer() -> TestRenderer {
    let chain = Swapchain::new(640, 480, 3, 0, None);
    TestRenderer::new(&chain, 2, ClipConvention::YDown, 0).unwrap()
}

fn next_action(o: StepOutcome) -> RenderAction {
    match o {
        StepOutcome::Next { action } => action,
        other => panic!("expected another action, got {:?}", other),
    }
}

#[test]
fn full_frame_walks_the_expected_action_sequence() {
    let mut r = renderer();
    let a0 = r.begin_frame();
    let fence = match a0 {
        RenderAction::WaitFence { fence } => fence,
        other => panic!("expected a fence wait, got {:?}", other),
    };
    let a1 = next_action(r.on_reply(DeviceReply::WaitedFence { ok: true }, 0));
    assert_eq!(a1, RenderAction::ResetFence { fence });
    let a2 = next_action(r.on_reply(DeviceReply::FenceWasReset { ok: true }, 0));
    let signal = match a2 {
        RenderAction::AcquireImage { signal } => signal,
        other => panic!("expected an acquire, got {:?}", other),
    };
    let a3 = next_action(
        r.on_reply(DeviceReply::ImageAcquired { image_index: 2, is_suboptimal: false }, 0),
    );
    let cmd_buffer = match a3 {
        RenderAction::ResetCommandBuffer { cmd_buffer } => cmd_buffer,
        other => panic!("expected a command buffer reset, got {:?}", other),
    };
    let a4 = next_action(r.on_reply(DeviceReply::CommandBufferWasReset { ok: true }, 0));
    assert_eq!(a4, RenderAction::BeginCommandBuffer { cmd_buffer });
    let a5 = next_action(r.on_reply(DeviceReply::CommandBufferBegun { ok: true }, 0));
    let commands = match a5 {
        RenderAction::RecordCommands { cmd_buffer: cb, commands } => {
            assert_eq!(cb, cmd_buffer);
            commands
        },
        other => panic!("expected recording, got {:?}", other),
    };
    assert_eq!(
        commands[0],
        Command::BeginRenderPass { framebuffer_index: 2, width: 640, height: 480 }
    );
    let a6 = next_action(r.on_reply(DeviceReply::Recorded, 0));
    assert_eq!(a6, RenderAction::EndCommandBuffer { cmd_buffer });
    let a7 = next_action(r.on_reply(DeviceReply::CommandBufferEnded { ok: true }, 0));
    let render_finished = match a7 {
        RenderAction::Submit { cmd_buffer: cb, wait_semaphore, signal_semaphore, fence: f } => {
            assert_eq!(cb, cmd_buffer);
            assert_eq!(wait_semaphore, signal);
            assert_eq!(f, fence);
            signal_semaphore
        },
        other => panic!("expected a submit, got {:?}", other),
    };
    let a8 = next_action(r.on_reply(DeviceReply::Submitted { ok: true }, 0));
    assert_eq!(a8, RenderAction::Present { image_index: 2, wait_semaphore: render_finished });
    let o9 = r.on_reply(DeviceReply::Presented { is_suboptimal: false }, 0);
    assert_eq!(o9, StepOutcome::FrameDone { recreate_needed: false });
}

#[test]
fn suboptimal_acquire_short_circuits_before_recording() {
    let mut r = renderer();
    let _ = r.begin_frame();
    let _ = next_action(r.on_reply(DeviceReply::WaitedFence { ok: true }, 0));
    let _ = next_action(r.on_reply(DeviceReply::FenceWasReset { ok: true }, 0));
    let o = r.on_reply(DeviceReply::ImageAcquired { image_index: 0, is_suboptimal: true }, 0);
    assert_eq!(o, StepOutcome::FrameDone { recreate_needed: true });
    let a = r.begin_frame();
    assert!(matches!(a, RenderAction::WaitFence { .. }));
}

#[test]
fn acquire_out_of_date_is_a_typed_failure() {
    let mut r = renderer();
    let _ = r.begin_frame();
    let _ = next_action(r.on_reply(DeviceReply::WaitedFence { ok: true }, 0));
    let _ = next_action(r.on_reply(DeviceReply::FenceWasReset { ok: true }, 0));
    let o = r.on_reply(DeviceReply::AcquireFailed { error: AcquireError::OutOfDate }, 0);
    assert_eq!(
        o,
        StepOutcome::Failed {
            error: RenderError::AcquireNextImage { error: AcquireError::OutOfDate },
        }
    );
}

#[test]
fn failed_fence_wait_is_a_typed_failure() {
    let mut r = renderer();
    let _ = r.begin_frame();
    let o = r.on_reply(DeviceReply::WaitedFence { ok: false }, 0);
    assert_eq!(o, StepOutcome::Failed { error: RenderError::WaitForFences });
}

#[test]
fn suboptimal_present_finishes_the_frame_and_asks_for_recreation() {
    let mut r = renderer();
    let _ = r.begin_frame();
    let _ = next_action(r.on_reply(DeviceReply::WaitedFence { ok: true }, 0));
    let _ = next_action(r.on_reply(DeviceReply::FenceWasReset { ok: true }, 0));
    let _ = next_action(
        r.on_reply(DeviceReply::ImageAcquired { image_index: 1, is_suboptimal: false }, 0),
    );
    let _ = next_action(r.on_reply(DeviceReply::CommandBufferWasReset { ok: true }, 0));
    let _ = next_action(r.on_reply(DeviceReply::CommandBufferBegun { ok: true }, 0));
    let _ = next_action(r.on_reply(DeviceReply::Recorded, 0));
    let _ = next_action(r.on_reply(DeviceReply::CommandBufferEnded { ok: true }, 0));
    let _ = next_action(r.on_reply(DeviceReply::Submitted { ok: true }, 0));
    let o = r.on_reply(DeviceReply::Presented { is_suboptimal: true }, 0);
    assert_eq!(o, StepOutcome::FrameDone { recreate_needed: true });
}

#[test]
fn frames_alternate_slots_round_robin() {
    let mut r = renderer();
    let a = r.begin_frame();
    let fence0 = match a {
        RenderAction::WaitFence { fence } => fence,
        other => panic!("expected a fence wait, got {:?}", other),
    };
    let _ = r.on_reply(DeviceReply::WaitedFence { ok: false }, 0);
    let a = r.begin_frame();
    let fence1 = match a {
        RenderAction::WaitFence { fence } => fence,
        other => panic!("expected a fence wait, got {:?}", other),
    };
    let _ = r.on_reply(DeviceReply::WaitedFence { ok: false }, 0);
    let a = r.begin_frame();
    let fence2 = match a {
        RenderAction::WaitFence { fence } => fence,
        other => panic!("expected a fence wait, got {:?}", other),
    };
    assert_ne!(fence0, fence1);
    assert_eq!(fence0, fence2);
}
