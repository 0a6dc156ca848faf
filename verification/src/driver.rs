//! Drives whole frames and whole sessions against the mock device.
//!
//! [`render`] runs one frame of the state machine in [`crate::renderer`]
//! from a script of device outcomes, performing the mock-device calls the
//! actions ask for; its contract pins the result and the device log for
//! every script. [`run`] drives a session of many frames, reconstructing
//! the swapchain and renderer pair whenever a frame asks for it.

use vstd::prelude::*;

use crate::commands::{ClipConvention, Command, render_pass_command_seq};
use crate::mock::{DeviceEvent, MockDevice, writes_fence_gated};
use crate::renderer::{DeviceReply, RenderAction, RenderError, StepOutcome, TestRenderer};
use crate::resize::{TeardownStep, create_swapchain, recreate_swapchain};
use crate::swapchain::{AcquireError, Extent, PresentError};

verus! {

/// What the acquire call of one frame returns.
#[derive(Clone, Copy, PartialEq, Eq, Structural, Debug)]
pub enum AcquireOutcome {
    Acquired { image_index: usize, is_suboptimal: bool },
    Failed { error: AcquireError },
}

/// What the present call of one frame returns.
#[derive(Clone, Copy, PartialEq, Eq, Structural, Debug)]
pub enum PresentOutcome {
    Presented { is_suboptimal: bool },
    Failed { error: PresentError },
}

/// The device outcomes of one frame, fixed up front: which calls
/// succeed, what acquisition and presentation return, and the window
/// extent to rebuild at should this frame ask for reconstruction.
#[derive(Clone, Copy, PartialEq, Eq, Structural, Debug)]
pub struct FrameScript {
    pub wait_fence_ok: bool,
    pub reset_fence_ok: bool,
    pub acquire: AcquireOutcome,
    pub reset_commands_ok: bool,
    pub begin_commands_ok: bool,
    pub end_commands_ok: bool,
    pub submit_ok: bool,
    pub present: PresentOutcome,
    pub window_extent: Extent,
}

impl FrameScript {
    /// A frame on which every device call succeeds and nothing is
    /// suboptimal.
    pub fn ok(image_index: usize, window_extent: Extent) -> (r: FrameScript)
        ensures
            r == (FrameScript {
                wait_fence_ok: true,
                reset_fence_ok: true,
                acquire: AcquireOutcome::Acquired { image_index, is_suboptimal: false },
                reset_commands_ok: true,
                begin_commands_ok: true,
                end_commands_ok: true,
                submit_ok: true,
                present: PresentOutcome::Presented { is_suboptimal: false },
                window_extent,
            }),
    {
        FrameScript {
            wait_fence_ok: true,
            reset_fence_ok: true,
            acquire: AcquireOutcome::Acquired { image_index, is_suboptimal: false },
            reset_commands_ok: true,
            begin_commands_ok: true,
            end_commands_ok: true,
            submit_ok: true,
            present: PresentOutcome::Presented { is_suboptimal: false },
            window_extent,
        }
    }
}

/// The frame reaches command recording: the throttle and fence reset
/// succeed, an image is acquired and is not suboptimal, and the command
/// buffer is reset and begun.
pub open spec fn frame_records(s: FrameScript) -> bool {
    &&& s.wait_fence_ok
    &&& s.reset_fence_ok
    &&& s.acquire matches AcquireOutcome::Acquired { is_suboptimal: false, .. }
    &&& s.reset_commands_ok
    &&& s.begin_commands_ok
}

/// The frame reaches queue submission.
pub open spec fn frame_submits(s: FrameScript) -> bool {
    &&& frame_records(s)
    &&& s.end_commands_ok
    &&& s.submit_ok
}

/// What one frame returns, for every script: the first failing call's
/// typed error; `Ok(true)` when the swapchain must be reconstructed —
/// immediately on a suboptimal acquire (the frame is dropped), or after
/// a successful but suboptimal present; `Ok(false)` otherwise.
pub open spec fn render_result_spec(s: FrameScript) -> Result<bool, RenderError> {
    if !s.wait_fence_ok {
        Result::Err(RenderError::WaitForFences)
    } else if !s.reset_fence_ok {
        Result::Err(RenderError::ResetFences)
    } else {
        match s.acquire {
            AcquireOutcome::Failed { error } => Result::Err(
                RenderError::AcquireNextImage { error },
            ),
            AcquireOutcome::Acquired { image_index, is_suboptimal } => {
                if is_suboptimal {
                    Result::Ok(true)
                } else if !s.reset_commands_ok {
                    Result::Err(RenderError::ResetCommandBuffer)
                } else if !s.begin_commands_ok {
                    Result::Err(RenderError::BeginCommandBuffer)
                } else if !s.end_commands_ok {
                    Result::Err(RenderError::EndCommandBuffer)
                } else if !s.submit_ok {
                    Result::Err(RenderError::SubmitGraphicsCommands)
                } else {
                    match s.present {
                        PresentOutcome::Failed { error } => Result::Err(
                            RenderError::Present { error },
                        ),
                        PresentOutcome::Presented { is_suboptimal } => Result::Ok(is_suboptimal),
                    }
                }
            },
        }
    }
}

/// Law: an acquire that reports the surface suboptimal short-circuits
/// the frame. The result asks for reconstruction, and the frame records
/// nothing and submits nothing — no draw reaches the device.
pub proof fn lemma_suboptimal_acquire_short_circuits(s: FrameScript)
    requires
        s.wait_fence_ok,
        s.reset_fence_ok,
        s.acquire matches AcquireOutcome::Acquired { is_suboptimal: true, .. },
    ensures
        render_result_spec(s) == Result::<bool, RenderError>::Ok(true),
        !frame_records(s),
        !frame_submits(s),
{
}

/// Replays a recorded command sequence into the mock device: the one
/// uniform write of the sequence lands in the device log; no other
/// command touches the mock's state.
fn replay_commands(
    device: &mut MockDevice,
    commands: &Vec<Command>,
    slot: usize,
    Ghost(wpos): Ghost<int>,
)
    requires
        old(device).wf(),
        slot < old(device).slot_count(),
        !old(device).pending_at(slot as int),
        0 <= wpos < commands@.len(),
        commands@[wpos] is WriteUniform,
        commands@[wpos]->WriteUniform_slot == slot,
        forall|j: int| 0 <= j < commands@.len() && j != wpos ==> !(commands@[j] is WriteUniform),
    ensures
        final(device).wf(),
        final(device).slot_count() == old(device).slot_count(),
        forall|s: int|
            0 <= s < old(device).slot_count() ==> final(device).pending_at(s) == old(
                device,
            ).pending_at(s),
        final(device).log() == old(device).log().push(DeviceEvent::UniformWrite { slot }),
{
    let ghost log0 = device.log();
    let n = commands.len();
    let mut i: usize = 0;
    while i < n
        invariant
            device.wf(),
            device.slot_count() == old(device).slot_count(),
            forall|s: int|
                0 <= s < old(device).slot_count() ==> device.pending_at(s) == old(
                    device,
                ).pending_at(s),
            i <= n,
            n == commands@.len(),
            slot < device.slot_count(),
            !device.pending_at(slot as int),
            0 <= wpos < commands@.len(),
            commands@[wpos] is WriteUniform,
            commands@[wpos]->WriteUniform_slot == slot,
            forall|j: int|
                0 <= j < commands@.len() && j != wpos ==> !(commands@[j] is WriteUniform),
            device.log() == if i <= wpos {
                log0
            } else {
                log0.push(DeviceEvent::UniformWrite { slot })
            },
        decreases n - i,
    {
        let c = commands[i];
        match c {
            Command::WriteUniform { slot: s, .. } => {
                device.write_uniform(s);
            },
            _ => {},
        }
        i = i + 1;
    }
}

impl TestRenderer {
    /// Runs one frame of the render cycle against the mock device, with
    /// the scripted outcomes standing in for the device's answers.
    ///
    /// The result is exactly [`render_result_spec`] of the script. The
    /// device log grows by: the retirement of the slot's previous work if
    /// the fence wait blocked; the slot's one uniform write, only if the
    /// frame reaches recording; the slot's submission, only if the frame
    /// reaches submission. A suboptimal acquire therefore leaves the log
    /// without any write or submission for this frame.
    pub fn render(
        &mut self,
        device: &mut MockDevice,
        script: &FrameScript,
        now_millis: u64,
    ) -> (r: Result<bool, RenderError>)
        requires
            old(self).wf(),
            old(self).phase() is None,
            old(device).wf(),
            old(device).slot_count() == old(self).frames().frame_count(),
            script.acquire matches AcquireOutcome::Acquired { image_index, .. } ==> image_index < old(
                self,
            ).frames().image_count(),
        ensures
            final(self).wf(),
            final(self).phase() is None,
            final(self).chain() == old(self).chain(),
            final(self).pass() == old(self).pass(),
            final(self).frames().frame_count() == old(self).frames().frame_count(),
            final(self).frames().image_count() == old(self).frames().image_count(),
            final(self).frames().submitted() == old(self).frames().submitted() + 1,
            final(device).wf(),
            final(device).slot_count() == old(device).slot_count(),
            writes_fence_gated(final(device).log()),
            r == render_result_spec(*script),
            ({
                let k = (old(self).frames().submitted() % (
                old(self).frames().frame_count() as nat)) as int;
                let retired = script.wait_fence_ok && old(device).pending_at(k);
                let base = if retired {
                    old(device).log().push(DeviceEvent::Retire { slot: k as usize })
                } else {
                    old(device).log()
                };
                let written = if frame_records(*script) {
                    base.push(DeviceEvent::UniformWrite { slot: k as usize })
                } else {
                    base
                };
                &&& final(device).log() == if frame_submits(*script) {
                    written.push(DeviceEvent::Submit { slot: k as usize })
                } else {
                    written
                }
                &&& final(device).pending_at(k) == (frame_submits(*script) || (!script.wait_fence_ok
                    && old(device).pending_at(k)))
                &&& forall|s: int|
                    0 <= s < old(device).slot_count() && s != k ==> final(device).pending_at(s) == old(
                        device,
                    ).pending_at(s)
            }),
    {
        let k = self.next_slot_index();
        let _a0 = self.begin_frame();
        if !script.wait_fence_ok {
            let _ = self.on_reply(DeviceReply::WaitedFence { ok: false }, now_millis);
            proof {
                device.lemma_log_fence_gated();
            }
            return Err(RenderError::WaitForFences);
        }
        let _blocked = device.wait_fence(k);
        let _o1 = self.on_reply(DeviceReply::WaitedFence { ok: true }, now_millis);
        if !script.reset_fence_ok {
            let _ = self.on_reply(DeviceReply::FenceWasReset { ok: false }, now_millis);
            proof {
                device.lemma_log_fence_gated();
            }
            return Err(RenderError::ResetFences);
        }
        let _o2 = self.on_reply(DeviceReply::FenceWasReset { ok: true }, now_millis);
        let (image_index, is_suboptimal) = match script.acquire {
            AcquireOutcome::Failed { error } => {
                let _ = self.on_reply(DeviceReply::AcquireFailed { error }, now_millis);
                proof {
                    device.lemma_log_fence_gated();
                }
                return Err(RenderError::AcquireNextImage { error });
            },
            AcquireOutcome::Acquired { image_index, is_suboptimal } => (image_index, is_suboptimal),
        };
        let _o3 = self.on_reply(
            DeviceReply::ImageAcquired { image_index, is_suboptimal },
            now_millis,
        );
        if is_suboptimal {
            proof {
                device.lemma_log_fence_gated();
            }
            return Ok(true);
        }
        if !script.reset_commands_ok {
            let _ = self.on_reply(DeviceReply::CommandBufferWasReset { ok: false }, now_millis);
            proof {
                device.lemma_log_fence_gated();
            }
            return Err(RenderError::ResetCommandBuffer);
        }
        let _o4 = self.on_reply(DeviceReply::CommandBufferWasReset { ok: true }, now_millis);
        if !script.begin_commands_ok {
            let _ = self.on_reply(DeviceReply::CommandBufferBegun { ok: false }, now_millis);
            proof {
                device.lemma_log_fence_gated();
            }
            return Err(RenderError::BeginCommandBuffer);
        }
        let o5 = self.on_reply(DeviceReply::CommandBufferBegun { ok: true }, now_millis);
        let commands = match o5 {
            StepOutcome::Next { action: RenderAction::RecordCommands { cmd_buffer: _, commands } } => {
                commands
            },
            _ => {
                proof {
                    assert(false);
                }
                vstd::pervasive::unreached()
            },
        };
        proof {
            let s = render_pass_command_seq(self.pass(), image_index, k, now_millis);
            assert(commands@ == s);
            assert(s[4] is WriteUniform);
            assert(s[4]->WriteUniform_slot == k);
            assert(forall|j: int| 0 <= j < s.len() && j != 4 ==> !((#[trigger] s[j]) is WriteUniform));
        }
        replay_commands(device, &commands, k, Ghost(4));
        let _o6 = self.on_reply(DeviceReply::Recorded, now_millis);
        if !script.end_commands_ok {
            let _ = self.on_reply(DeviceReply::CommandBufferEnded { ok: false }, now_millis);
            proof {
                device.lemma_log_fence_gated();
            }
            return Err(RenderError::EndCommandBuffer);
        }
        let _o7 = self.on_reply(DeviceReply::CommandBufferEnded { ok: true }, now_millis);
        if !script.submit_ok {
            let _ = self.on_reply(DeviceReply::Submitted { ok: false }, now_millis);
            proof {
                device.lemma_log_fence_gated();
            }
            return Err(RenderError::SubmitGraphicsCommands);
        }
        device.submit(k);
        let _o8 = self.on_reply(DeviceReply::Submitted { ok: true }, now_millis);
        match script.present {
            PresentOutcome::Failed { error } => {
                let _ = self.on_reply(DeviceReply::PresentFailed { error }, now_millis);
                proof {
                    device.lemma_log_fence_gated();
                }
                Err(RenderError::Present { error })
            },
            PresentOutcome::Presented { is_suboptimal } => {
                let _ = self.on_reply(DeviceReply::Presented { is_suboptimal }, now_millis);
                proof {
                    device.lemma_log_fence_gated();
                }
                Ok(is_suboptimal)
            },
        }
    }
}

/// What a session reported: how many frames were started, how many
/// swapchain reconstructions happened, and the error that ended the
/// session early, if one did.
#[derive(Clone, Copy, PartialEq, Eq, Debug)]
pub struct RunReport {
    pub frames_attempted: usize,
    pub recreations: usize,
    pub failure: Option<RenderError>,
}

/// How many of the scripted frames ask for reconstruction.
pub open spec fn recreation_count(scripts: Seq<FrameScript>) -> int
    decreases scripts.len(),
{
    if scripts.len() == 0 {
        0
    } else {
        recreation_count(scripts.drop_last()) + if render_result_spec(scripts.last())
            == Result::<bool, RenderError>::Ok(true) {
            1int
        } else {
            0int
        }
    }
}

/// Runs a session: builds the swapchain and renderer pair and the mock
/// device, renders one frame per script in order, and reconstructs the
/// pair at the script's window extent whenever a frame asks for it. The
/// session stops at the first failing frame.
///
/// Whatever the scripts, the final device log obeys the fence-gated
/// write discipline: no slot's uniform buffer was ever written while a
/// submitted command buffer of that slot was unretired.
pub fn run(
    width: u32,
    height: u32,
    image_count: usize,
    frame_count: usize,
    convention: ClipConvention,
    scripts: &Vec<FrameScript>,
) -> (r: (RunReport, MockDevice))
    requires
        1 <= frame_count <= 0x1000_0000,
        1 <= image_count <= 0x1000_0000,
        scripts@.len() <= 0x1000_0000,
        forall|j: int|
            0 <= j < scripts@.len() ==> ((#[trigger] scripts@[j]).acquire matches
                AcquireOutcome::Acquired { image_index, .. } ==> image_index < image_count),
    ensures
        r.1.wf(),
        writes_fence_gated(r.1.log()),
        r.0.frames_attempted <= scripts@.len(),
        r.0.failure is None ==> r.0.frames_attempted == scripts@.len() && (forall|j: int|
            0 <= j < scripts@.len() ==> render_result_spec(#[trigger] scripts@[j]) is Ok),
        r.0.failure is Some ==> 1 <= r.0.frames_attempted && render_result_spec(
            scripts@[r.0.frames_attempted - 1],
        ) == Result::<bool, RenderError>::Err(r.0.failure->Some_0) && (forall|j: int|
            0 <= j < r.0.frames_attempted - 1 ==> render_result_spec(
                #[trigger] scripts@[j],
            ) is Ok),
        r.0.recreations == recreation_count(
            scripts@.take(
                if r.0.failure is Some {
                    r.0.frames_attempted - 1
                } else {
                    r.0.frames_attempted as int
                },
            ),
        ),
{
    let (mut swapchain, mut renderer) = create_swapchain(
        None,
        width,
        height,
        image_count,
        0,
        frame_count,
        convention,
        0,
    );
    proof {
        renderer.lemma_wf_bounds();
    }
    let mut device = MockDevice::new(frame_count);
    let mut recreations: usize = 0;
    let n = scripts.len();
    let mut i: usize = 0;
    while i < n
        invariant
            renderer.wf(),
            renderer.phase() is None,
            renderer.frames().frame_count() == frame_count,
            renderer.frames().image_count() == image_count,
            renderer.chain() == swapchain,
            swapchain.image_count == image_count,
            device.wf(),
            device.slot_count() == frame_count,
            1 <= frame_count <= 0x1000_0000,
            1 <= image_count <= 0x1000_0000,
            i <= n,
            n == scripts@.len(),
            n <= 0x1000_0000,
            forall|j: int|
                0 <= j < scripts@.len() ==> ((#[trigger] scripts@[j]).acquire matches
                    AcquireOutcome::Acquired { image_index, .. } ==> image_index < image_count),
            forall|j: int| 0 <= j < i ==> render_result_spec(#[trigger] scripts@[j]) is Ok,
            recreations <= i,
            recreations == recreation_count(scripts@.take(i as int)),
        decreases n - i,
    {
        let script = scripts[i];
        let res = renderer.render(&mut device, &script, (i as u64) * 16);
        proof {
            assert(scripts@.take(i + 1 as int).drop_last() =~= scripts@.take(i as int));
            assert(scripts@.take(i + 1 as int).last() == scripts@[i as int]);
        }
        match res {
            Err(error) => {
                proof {
                    device.lemma_log_fence_gated();
                }
                return (
                    RunReport { frames_attempted: i + 1, recreations, failure: Some(error) },
                    device,
                );
            },
            Ok(recreate_needed) => {
                if recreate_needed {
                    let (plan, new_swapchain, new_renderer) = recreate_swapchain(
                        &swapchain,
                        &renderer,
                        script.window_extent.width,
                        script.window_extent.height,
                        convention,
                        0,
                    );
                    let mut p: usize = 0;
                    let plan_len = plan.len();
                    while p < plan_len
                        invariant
                            device.wf(),
                            device.slot_count() == frame_count,
                            p <= plan_len,
                            plan_len == plan@.len(),
                        decreases plan_len - p,
                    {
                        match plan[p] {
                            TeardownStep::WaitIdle => {
                                device.wait_idle();
                            },
                            _ => {},
                        }
                        p = p + 1;
                    }
                    proof {
                        new_renderer.lemma_wf_bounds();
                    }
                    swapchain = new_swapchain;
                    renderer = new_renderer;
                    recreations = recreations + 1;
                }
            },
        }
        i = i + 1;
    }
    proof {
        device.lemma_log_fence_gated();
    }
    (RunReport { frames_attempted: n, recreations, failure: None }, device)
}

} // verus!
