use eren_frame_core::commands::ClipConvention;
use eren_frame_core::driver::{run, AcquireOutcome, FrameScript, PresentOutcome};
use eren_frame_core::mock::{DeviceEvent, MockDevice};
use eren_frame_core::renderer::{RenderError, TestRenderer};
use eren_frame_core::swapchain::{AcquireError, Extent, PresentError, Swapchain};

fn ext() -> Extent {
    Extent { width: 800, height: 600 }
}

#[test]
fn session_of_ok_frames_interleaves_writes_submits_and_retires() {
    let scripts = vec![
        FrameScript::ok(0, ext()),
        FrameScript::ok(1, ext()),
        FrameScript::ok(2, ext()),
        FrameScript::ok(0, ext()),
    ];
    let (report, device) = run(800, 600, 3, 2, ClipConvention::YDown, &scripts);
    assert_eq!(report.frames_attempted, 4);
    assert_eq!(report.recreations, 0);
    assert!(report.failure.is_none());
    let expected = vec![
        DeviceEvent::UniformWrite { slot: 0 },
        DeviceEvent::Submit { slot: 0 },
        DeviceEvent::UniformWrite { slot: 1 },
        DeviceEvent::Submit { slot: 1 },
        DeviceEvent::Retire { slot: 0 },
        DeviceEvent::UniformWrite { slot: 0 },
        DeviceEvent::Submit { slot: 0 },
        DeviceEvent::Retire { slot: 1 },
        DeviceEvent::UniformWrite { slot: 1 },
        DeviceEvent::Submit { slot: 1 },
    ];
    assert_eq!(*device.events(), expected);
    assert!(device.is_pending(0));
    assert!(device.is_pending(1));
}

#[test]
fn uniform_writes_are_fence_gated_in_every_session() {
    let mut scripts: Vec<FrameScript> = Vec::new();
    for i in 0..12 {
        let mut s = FrameScript::ok(i % 3, ext());
        if i == 4 {
            s.acquire = AcquireOutcome::Acquired { image_index: 0, is_suboptimal: true };
        }
        if i == 7 {
            s.present = PresentOutcome::Presented { is_suboptimal: true };
        }
        scripts.push(s);
    }
    let (report, device) = run(800, 600, 3, 2, ClipConvention::YDown, &scripts);
    assert!(report.failure.is_none());
    assert_eq!(report.recreations, 2);
    let mut busy = [false; 2];
    for e in device.events().iter() {
        match e {
            DeviceEvent::UniformWrite { slot } => {
                assert!(!busy[*slot], "uniform write while slot {} still executing", slot);
            },
            DeviceEvent::Submit { slot } => busy[*slot] = true,
            DeviceEvent::Retire { slot } => busy[*slot] = false,
        }
    }
}

#[test]
fn suboptimal_acquire_drops_the_frame_without_draw_or_submit() {
    let mut s = FrameScript::ok(0, ext());
    s.acquire = AcquireOutcome::Acquired { image_index: 0, is_suboptimal: true };
    let scripts = vec![s];
    let (report, device) = run(800, 600, 3, 2, ClipConvention::YDown, &scripts);
    assert_eq!(report.frames_attempted, 1);
    assert_eq!(report.recreations, 1);
    assert!(report.failure.is_none());
    assert!(device.events().is_empty());
}

#[test]
fn session_stops_at_the_first_failing_frame() {
    let mut bad = FrameScript::ok(1, ext());
    bad.submit_ok = false;
    let scripts = vec![FrameScript::ok(0, ext()), bad, FrameScript::ok(2, ext())];
    let (report, device) = run(800, 600, 3, 2, ClipConvention::YDown, &scripts);
    assert_eq!(report.frames_attempted, 2);
    assert_eq!(report.failure, Some(RenderError::SubmitGraphicsCommands));
    let submits = device
        .events()
        .iter()
        .filter(|e| matches!(e, DeviceEvent::Submit { .. }))
        .count();
    assert_eq!(submits, 1);
}

#[test]
fn each_failing_call_yields_its_typed_error() {
    let cases: Vec<(FrameScript, RenderError)> = {
        let mut v: Vec<(FrameScript, RenderError)> = Vec::new();
        let mut s = FrameScript::ok(0, ext());
        s.wait_fence_ok = false;
        v.push((s, RenderError::WaitForFences));
        let mut s = FrameScript::ok(0, ext());
        s.reset_fence_ok = false;
        v.push((s, RenderError::ResetFences));
        let mut s = FrameScript::ok(0, ext());
        s.acquire = AcquireOutcome::Failed { error: AcquireError::OutOfDate };
        v.push((s, RenderError::AcquireNextImage { error: AcquireError::OutOfDate }));
        let mut s = FrameScript::ok(0, ext());
        s.reset_commands_ok = false;
        v.push((s, RenderError::ResetCommandBuffer));
        let mut s = FrameScript::ok(0, ext());
        s.begin_commands_ok = false;
        v.push((s, RenderError::BeginCommandBuffer));
        let mut s = FrameScript::ok(0, ext());
        s.end_commands_ok = false;
        v.push((s, RenderError::EndCommandBuffer));
        let mut s = FrameScript::ok(0, ext());
        s.submit_ok = false;
        v.push((s, RenderError::SubmitGraphicsCommands));
        let mut s = FrameScript::ok(0, ext());
        s.present = PresentOutcome::Failed { error: PresentError::OutOfDate };
        v.push((s, RenderError::Present { error: PresentError::OutOfDate }));
        v
    };
    for (script, expected) in cases {
        let scripts = vec![script];
        let (report, _) = run(800, 600, 3, 2, ClipConvention::YDown, &scripts);
        assert_eq!(report.frames_attempted, 1);
        assert_eq!(report.failure, Some(expected));
    }
}

#[test]
fn render_reports_the_scripted_result_and_logs_in_order() {
    let chain = Swapchain::new(800, 600, 3, 0, None);
    let mut renderer = TestRenderer::new(&chain, 2, ClipConvention::YDown, 0).unwrap();
    let mut device = MockDevice::new(2);
    assert_eq!(renderer.render(&mut device, &FrameScript::ok(1, ext()), 0), Ok(false));
    assert_eq!(
        *device.events(),
        vec![DeviceEvent::UniformWrite { slot: 0 }, DeviceEvent::Submit { slot: 0 }]
    );
    assert_eq!(renderer.render(&mut device, &FrameScript::ok(2, ext()), 16), Ok(false));
    // The third frame reuses slot 0 and must retire its work first.
    assert_eq!(renderer.render(&mut device, &FrameScript::ok(0, ext()), 32), Ok(false));
    assert_eq!(device.events()[4], DeviceEvent::Retire { slot: 0 });
    let mut bad = FrameScript::ok(0, ext());
    bad.wait_fence_ok = false;
    assert_eq!(
        renderer.render(&mut device, &bad, 48),
        Err(RenderError::WaitForFences)
    );
}

#[test]
fn recreation_rebuilds_the_pair_and_continues() {
    let mut suboptimal = FrameScript::ok(0, Extent { width: 1024, height: 768 });
    suboptimal.present = PresentOutcome::Presented { is_suboptimal: true };
    let scripts = vec![suboptimal, FrameScript::ok(1, ext()), FrameScript::ok(2, ext())];
    let (report, device) = run(800, 600, 3, 2, ClipConvention::YDown, &scripts);
    assert!(report.failure.is_none());
    assert_eq!(report.frames_attempted, 3);
    assert_eq!(report.recreations, 1);
    let retires = device
        .events()
        .iter()
        .filter(|e| matches!(e, DeviceEvent::Retire { .. }))
        .count();
    assert!(retires >= 1);
}
