//! The per-frame orchestration state machine.
//!
//! One frame runs through a fixed sequence of device calls: wait and reset
//! the slot's fence, acquire a swapchain image, reset and begin the slot's
//! command buffer, record, end, submit, present. The device itself is an
//! external collaborator, so the renderer never performs a call: it hands
//! the caller the next [`RenderAction`], the caller performs it and hands
//! the outcome back as a [`DeviceReply`]. Every outcome is accounted for:
//! each failure is propagated as a typed [`RenderError`], a suboptimal
//! acquire drops the frame before any recording, and a suboptimal present
//! finishes the frame and asks for reconstruction.

use vstd::prelude::*;

use crate::commands::{
    ClipConvention, Command, TestRenderPass, TestRenderPassInitializationError,
    render_pass_command_seq,
};
use crate::frame::FrameManager;
use crate::swapchain::{AcquireError, PresentError, Swapchain};

verus! {

/// Construction failure of the renderer, propagated out of the device
/// collaborator; fatal, the caller must abort or fall back.
#[derive(Clone, Copy, PartialEq, Eq, Structural, Debug)]
pub enum TestRendererInitializationError {
    CreateFrameManager,
    CreateRenderPass { error: TestRenderPassInitializationError },
}

/// Why one frame failed. Every device call of the cycle has its own
/// variant; acquire and present carry their distinguished causes.
#[derive(Clone, Copy, PartialEq, Eq, Structural, Debug)]
#[allow(inconsistent_fields)]
pub enum RenderError {
    WaitForFences,
    ResetFences,
    ResetCommandBuffer,
    BeginCommandBuffer,
    EndCommandBuffer,
    AcquireNextImage { error: AcquireError },
    SubmitGraphicsCommands,
    Present { error: PresentError },
}

/// The next device call the caller must perform. Handles are the frame
/// manager's numeric identifiers.
#[derive(PartialEq, Eq, Debug)]
pub enum RenderAction {
    /// Block until the fence is signalled: the GPU retired the frame that
    /// used this slot previously.
    WaitFence { fence: u64 },
    /// Reset the fence to unsignalled.
    ResetFence { fence: u64 },
    /// Request the next presentable image, signalling `signal` when it
    /// becomes available.
    AcquireImage { signal: u64 },
    /// Reset the slot's command buffer.
    ResetCommandBuffer { cmd_buffer: u64 },
    /// Begin the slot's command buffer.
    BeginCommandBuffer { cmd_buffer: u64 },
    /// Replay the recorded commands into the command buffer.
    RecordCommands { cmd_buffer: u64, commands: Vec<Command> },
    /// End the command buffer.
    EndCommandBuffer { cmd_buffer: u64 },
    /// Submit the command buffer to the graphics queue: the GPU waits on
    /// `wait_semaphore` before writing the image, signals
    /// `signal_semaphore` and `fence` on completion.
    Submit { cmd_buffer: u64, wait_semaphore: u64, signal_semaphore: u64, fence: u64 },
    /// Present the acquired image after `wait_semaphore` is satisfied.
    Present { image_index: usize, wait_semaphore: u64 },
}

/// The outcome of one device call, handed back by the caller.
#[derive(Clone, Copy, PartialEq, Eq, Structural, Debug)]
#[allow(inconsistent_fields)]
pub enum DeviceReply {
    WaitedFence { ok: bool },
    FenceWasReset { ok: bool },
    ImageAcquired { image_index: usize, is_suboptimal: bool },
    AcquireFailed { error: AcquireError },
    CommandBufferWasReset { ok: bool },
    CommandBufferBegun { ok: bool },
    Recorded,
    CommandBufferEnded { ok: bool },
    Submitted { ok: bool },
    Presented { is_suboptimal: bool },
    PresentFailed { error: PresentError },
}

/// Where the in-progress frame stands: which device call is outstanding,
/// for which frame slot and (once acquired) which image index.
#[derive(Clone, Copy, PartialEq, Eq, Structural, Debug)]
pub enum FramePhase {
    Throttling { frame_idx: usize },
    ResettingFence { frame_idx: usize },
    Acquiring { frame_idx: usize },
    ResettingCommands { frame_idx: usize, image_idx: usize },
    BeginningCommands { frame_idx: usize, image_idx: usize },
    Recording { frame_idx: usize, image_idx: usize },
    EndingCommands { frame_idx: usize, image_idx: usize },
    Submitting { frame_idx: usize, image_idx: usize },
    Presenting { frame_idx: usize, image_idx: usize },
}

/// What one step of the machine decided: another device call, the end of
/// the frame with the caller told whether the swapchain must be
/// reconstructed, or a typed failure.
#[derive(PartialEq, Eq, Debug)]
pub enum StepOutcome {
    Next { action: RenderAction },
    FrameDone { recreate_needed: bool },
    Failed { error: RenderError },
}

/// The reply kind a phase's outstanding device call can produce.
pub open spec fn reply_matches(p: FramePhase, reply: DeviceReply) -> bool {
    match p {
        FramePhase::Throttling { .. } => reply is WaitedFence,
        FramePhase::ResettingFence { .. } => reply is FenceWasReset,
        FramePhase::Acquiring { .. } => reply is ImageAcquired || reply is AcquireFailed,
        FramePhase::ResettingCommands { .. } => reply is CommandBufferWasReset,
        FramePhase::BeginningCommands { .. } => reply is CommandBufferBegun,
        FramePhase::Recording { .. } => reply is Recorded,
        FramePhase::EndingCommands { .. } => reply is CommandBufferEnded,
        FramePhase::Submitting { .. } => reply is Submitted,
        FramePhase::Presenting { .. } => reply is Presented || reply is PresentFailed,
    }
}

/// Orchestrates one frame end to end over a frame-slot ring, a render
/// pass and the swapchain's shape.
pub struct TestRenderer {
    swapchain: Swapchain,
    frame_mgr: FrameManager,
    render_pass: TestRenderPass,
    phase: Option<FramePhase>,
}

impl TestRenderer {
    /// The swapchain shape this renderer was built against.
    pub closed spec fn chain(self) -> Swapchain {
        self.swapchain
    }

    /// The frame-slot ring.
    pub closed spec fn frames(self) -> FrameManager {
        self.frame_mgr
    }

    /// The render pass.
    pub closed spec fn pass(self) -> TestRenderPass {
        self.render_pass
    }

    /// The in-progress frame, if any.
    pub closed spec fn phase(self) -> Option<FramePhase> {
        self.phase
    }

    /// Indices carried by a phase stay inside the slot ring and the image
    /// pool.
    pub open spec fn phase_in_range(self, p: FramePhase) -> bool {
        match p {
            FramePhase::Throttling { frame_idx } => frame_idx < self.frames().frame_count(),
            FramePhase::ResettingFence { frame_idx } => frame_idx < self.frames().frame_count(),
            FramePhase::Acquiring { frame_idx } => frame_idx < self.frames().frame_count(),
            FramePhase::ResettingCommands { frame_idx, image_idx } => frame_idx
                < self.frames().frame_count() && image_idx < self.frames().image_count(),
            FramePhase::BeginningCommands { frame_idx, image_idx } => frame_idx
                < self.frames().frame_count() && image_idx < self.frames().image_count(),
            FramePhase::Recording { frame_idx, image_idx } => frame_idx
                < self.frames().frame_count() && image_idx < self.frames().image_count(),
            FramePhase::EndingCommands { frame_idx, image_idx } => frame_idx
                < self.frames().frame_count() && image_idx < self.frames().image_count(),
            FramePhase::Submitting { frame_idx, image_idx } => frame_idx
                < self.frames().frame_count() && image_idx < self.frames().image_count(),
            FramePhase::Presenting { frame_idx, image_idx } => frame_idx
                < self.frames().frame_count() && image_idx < self.frames().image_count(),
        }
    }

    /// Well-formedness: the ring is well formed, the render pass has one
    /// framebuffer per swapchain image and one uniform slot per frame
    /// slot, everything agrees on the extent, and any in-progress phase
    /// stays in range.
    pub closed spec fn wf(self) -> bool {
        &&& self.frame_mgr.wf()
        &&& 1 <= self.swapchain.image_count
        &&& self.frame_mgr.image_count() == self.swapchain.image_count
        &&& self.render_pass.framebuffer_count == self.swapchain.image_count
        &&& self.render_pass.subpass.uniform_slot_count == self.frame_mgr.frame_count()
        &&& self.render_pass.extent == self.swapchain.extent
        &&& match self.phase {
            Some(p) => self.phase_in_range(p),
            None => true,
        }
    }

    /// Builds the frame-slot ring and the render pass against the given
    /// swapchain. Device allocation failures are the caller's; describing
    /// the state itself cannot fail.
    pub fn new(
        swapchain: &Swapchain,
        frame_count: usize,
        convention: ClipConvention,
        start_millis: u64,
    ) -> (r: Result<TestRenderer, TestRendererInitializationError>)
        requires
            1 <= frame_count <= 0x1000_0000,
            1 <= swapchain.image_count <= 0x1000_0000,
        ensures
            r is Ok,
            r->Ok_0.wf(),
            r->Ok_0.chain() == *swapchain,
            r->Ok_0.frames().frame_count() == frame_count,
            r->Ok_0.frames().image_count() == swapchain.image_count,
            r->Ok_0.frames().submitted() == 0,
            r->Ok_0.pass().extent == swapchain.extent,
            r->Ok_0.pass().subpass.convention == convention,
            r->Ok_0.pass().subpass.start_millis == start_millis,
            r->Ok_0.phase() is None,
    {
        let frame_mgr = FrameManager::new(frame_count, swapchain.image_count);
        let render_pass = match TestRenderPass::new(
            swapchain,
            frame_count,
            convention,
            start_millis,
        ) {
            Ok(rp) => rp,
            Err(e) => {
                return Err(TestRendererInitializationError::CreateRenderPass { error: e });
            },
        };
        Ok(TestRenderer { swapchain: *swapchain, frame_mgr, render_pass, phase: None })
    }

    /// What well-formedness guarantees about the renderer's shape: the
    /// ring and the image pool are non-empty and bounded, and the render
    /// pass mirrors the swapchain.
    pub proof fn lemma_wf_bounds(self)
        requires
            self.wf(),
        ensures
            1 <= self.frames().frame_count() <= 0x1000_0000,
            1 <= self.chain().image_count <= 0x1000_0000,
            self.frames().image_count() == self.chain().image_count,
            self.pass().framebuffer_count == self.chain().image_count,
            self.pass().subpass.uniform_slot_count == self.frames().frame_count(),
            self.pass().extent == self.chain().extent,
    {
        self.frame_mgr.lemma_wf_bounds();
    }

    /// The render pass, for planning its teardown.
    pub fn render_pass_ref(&self) -> (r: &TestRenderPass)
        ensures
            *r == self.pass(),
    {
        &self.render_pass
    }

    /// Number of frame slots in the ring.
    pub fn frame_count(&self) -> (r: usize)
        ensures
            r == self.frames().frame_count(),
    {
        self.frame_mgr.slot_count()
    }

    /// The ring position the next frame will use.
    pub fn next_slot_index(&self) -> (r: usize)
        requires
            self.wf(),
        ensures
            r == self.frames().submitted() % (self.frames().frame_count() as nat),
            r < self.frames().frame_count(),
    {
        proof {
            self.frame_mgr.lemma_wf_bounds();
            vstd::arithmetic::div_mod::lemma_mod_bound(
                self.frames().submitted() as int,
                self.frames().frame_count(),
            );
        }
        self.frame_mgr.current_slot()
    }

    /// Starts the next frame: takes the next slot round-robin and asks
    /// the caller to block on that slot's fence, which throttles the CPU
    /// to at most N frames in flight.
    pub fn begin_frame(&mut self) -> (r: RenderAction)
        requires
            old(self).wf(),
            old(self).phase() is None,
        ensures
            final(self).wf(),
            final(self).chain() == old(self).chain(),
            final(self).pass() == old(self).pass(),
            final(self).frames().frame_count() == old(self).frames().frame_count(),
            final(self).frames().image_count() == old(self).frames().image_count(),
            final(self).frames().submitted() == old(self).frames().submitted() + 1,
            forall|i: int|
                0 <= i < old(self).frames().frame_count()
                    ==> final(self).frames().spec_slot(i) == old(self).frames().spec_slot(i),
            forall|j: int|
                0 <= j < old(self).frames().image_count()
                    ==> final(self).frames().spec_image(j) == old(self).frames().spec_image(j),
            ({
                let k = old(self).frames().submitted() % (
                old(self).frames().frame_count() as nat);
                &&& final(self).phase() == Some(FramePhase::Throttling { frame_idx: k as usize })
                &&& r == (RenderAction::WaitFence {
                    fence: old(self).frames().spec_slot(k as int).in_flight,
                })
            }),
    {
        let (slot, frame_idx) = self.frame_mgr.next_frame();
        self.phase = Some(FramePhase::Throttling { frame_idx });
        RenderAction::WaitFence { fence: slot.in_flight }
    }

    /// Advances the frame by one device outcome. Decides the next action,
    /// the end of the frame, or the typed error; the frame-slot ring and
    /// the pipeline state never change mid-frame.
    pub fn on_reply(&mut self, reply: DeviceReply, now_millis: u64) -> (r: StepOutcome)
        requires
            old(self).wf(),
            old(self).phase() is Some,
            reply_matches(old(self).phase()->Some_0, reply),
            reply matches DeviceReply::ImageAcquired { image_index, .. } ==> image_index < old(
                self,
            ).frames().image_count(),
        ensures
            final(self).wf(),
            final(self).chain() == old(self).chain(),
            final(self).pass() == old(self).pass(),
            final(self).frames() == old(self).frames(),
            r is Next ==> final(self).phase() is Some,
            !(r is Next) ==> final(self).phase() is None,
            ({
                let p = old(self).phase()->Some_0;
                let fm = old(self).frames();
                match p {
                    FramePhase::Throttling { frame_idx } => {
                        if reply->WaitedFence_ok {
                            &&& r == (StepOutcome::Next {
                                action: RenderAction::ResetFence {
                                    fence: fm.spec_slot(frame_idx as int).in_flight,
                                },
                            })
                            &&& final(self).phase() == Some(
                                FramePhase::ResettingFence { frame_idx },
                            )
                        } else {
                            r == (StepOutcome::Failed { error: RenderError::WaitForFences })
                        }
                    },
                    FramePhase::ResettingFence { frame_idx } => {
                        if reply->FenceWasReset_ok {
                            &&& r == (StepOutcome::Next {
                                action: RenderAction::AcquireImage {
                                    signal: fm.spec_slot(frame_idx as int).image_available,
                                },
                            })
                            &&& final(self).phase() == Some(FramePhase::Acquiring { frame_idx })
                        } else {
                            r == (StepOutcome::Failed { error: RenderError::ResetFences })
                        }
                    },
                    FramePhase::Acquiring { frame_idx } => {
                        match reply {
                            DeviceReply::AcquireFailed { error } => r == (StepOutcome::Failed {
                                error: RenderError::AcquireNextImage { error },
                            }),
                            DeviceReply::ImageAcquired { image_index, is_suboptimal } => {
                                if is_suboptimal {
                                    // The frame is dropped, not drawn: no recording
                                    // happens for it.
                                    r == (StepOutcome::FrameDone { recreate_needed: true })
                                } else {
                                    &&& r == (StepOutcome::Next {
                                        action: RenderAction::ResetCommandBuffer {
                                            cmd_buffer: fm.spec_slot(frame_idx as int).cmd_buffer,
                                        },
                                    })
                                    &&& final(self).phase() == Some(
                                        FramePhase::ResettingCommands {
                                            frame_idx,
                                            image_idx: image_index,
                                        },
                                    )
                                }
                            },
                            _ => false,
                        }
                    },
                    FramePhase::ResettingCommands { frame_idx, image_idx } => {
                        if reply->CommandBufferWasReset_ok {
                            &&& r == (StepOutcome::Next {
                                action: RenderAction::BeginCommandBuffer {
                                    cmd_buffer: fm.spec_slot(frame_idx as int).cmd_buffer,
                                },
                            })
                            &&& final(self).phase() == Some(
                                FramePhase::BeginningCommands { frame_idx, image_idx },
                            )
                        } else {
                            r == (StepOutcome::Failed { error: RenderError::ResetCommandBuffer })
                        }
                    },
                    FramePhase::BeginningCommands { frame_idx, image_idx } => {
                        if reply->CommandBufferBegun_ok {
                            &&& r is Next
                            &&& r->Next_action is RecordCommands
                            &&& r->Next_action->RecordCommands_cmd_buffer == fm.spec_slot(
                                frame_idx as int,
                            ).cmd_buffer
                            &&& r->Next_action->RecordCommands_commands@ == render_pass_command_seq(
                                old(self).pass(),
                                image_idx,
                                frame_idx,
                                now_millis,
                            )
                            &&& final(self).phase() == Some(
                                FramePhase::Recording { frame_idx, image_idx },
                            )
                        } else {
                            r == (StepOutcome::Failed { error: RenderError::BeginCommandBuffer })
                        }
                    },
                    FramePhase::Recording { frame_idx, image_idx } => {
                        &&& r == (StepOutcome::Next {
                            action: RenderAction::EndCommandBuffer {
                                cmd_buffer: fm.spec_slot(frame_idx as int).cmd_buffer,
                            },
                        })
                        &&& final(self).phase() == Some(
                            FramePhase::EndingCommands { frame_idx, image_idx },
                        )
                    },
                    FramePhase::EndingCommands { frame_idx, image_idx } => {
                        if reply->CommandBufferEnded_ok {
                            &&& r == (StepOutcome::Next {
                                action: RenderAction::Submit {
                                    cmd_buffer: fm.spec_slot(frame_idx as int).cmd_buffer,
                                    wait_semaphore: fm.spec_slot(frame_idx as int).image_available,
                                    signal_semaphore: fm.spec_image(
                                        image_idx as int,
                                    ).render_finished,
                                    fence: fm.spec_slot(frame_idx as int).in_flight,
                                },
                            })
                            &&& final(self).phase() == Some(
                                FramePhase::Submitting { frame_idx, image_idx },
                            )
                        } else {
                            r == (StepOutcome::Failed { error: RenderError::EndCommandBuffer })
                        }
                    },
                    FramePhase::Submitting { frame_idx, image_idx } => {
                        if reply->Submitted_ok {
                            &&& r == (StepOutcome::Next {
                                action: RenderAction::Present {
                                    image_index: image_idx,
                                    wait_semaphore: fm.spec_image(
                                        image_idx as int,
                                    ).render_finished,
                                },
                            })
                            &&& final(self).phase() == Some(
                                FramePhase::Presenting { frame_idx, image_idx },
                            )
                        } else {
                            r == (StepOutcome::Failed {
                                error: RenderError::SubmitGraphicsCommands,
                            })
                        }
                    },
                    FramePhase::Presenting { .. } => {
                        match reply {
                            DeviceReply::PresentFailed { error } => r == (StepOutcome::Failed {
                                error: RenderError::Present { error },
                            }),
                            DeviceReply::Presented { is_suboptimal } => r == (
                            StepOutcome::FrameDone { recreate_needed: is_suboptimal }),
                            _ => false,
                        }
                    },
                }
            }),
    {
        let p = match self.phase {
            Some(p) => p,
            None => vstd::pervasive::unreached(),
        };
        match p {
            FramePhase::Throttling { frame_idx } => {
                let ok = match reply {
                    DeviceReply::WaitedFence { ok } => ok,
                    _ => vstd::pervasive::unreached(),
                };
                if ok {
                    let slot = self.frame_mgr.slot(frame_idx);
                    self.phase = Some(FramePhase::ResettingFence { frame_idx });
                    StepOutcome::Next {
                        action: RenderAction::ResetFence { fence: slot.in_flight },
                    }
                } else {
                    self.phase = None;
                    StepOutcome::Failed { error: RenderError::WaitForFences }
                }
            },
            FramePhase::ResettingFence { frame_idx } => {
                let ok = match reply {
                    DeviceReply::FenceWasReset { ok } => ok,
                    _ => vstd::pervasive::unreached(),
                };
                if ok {
                    let slot = self.frame_mgr.slot(frame_idx);
                    self.phase = Some(FramePhase::Acquiring { frame_idx });
                    StepOutcome::Next {
                        action: RenderAction::AcquireImage { signal: slot.image_available },
                    }
                } else {
                    self.phase = None;
                    StepOutcome::Failed { error: RenderError::ResetFences }
                }
            },
            FramePhase::Acquiring { frame_idx } => {
                match reply {
                    DeviceReply::AcquireFailed { error } => {
                        self.phase = None;
                        StepOutcome::Failed { error: RenderError::AcquireNextImage { error } }
                    },
                    DeviceReply::ImageAcquired { image_index, is_suboptimal } => {
                        if is_suboptimal {
                            self.phase = None;
                            StepOutcome::FrameDone { recreate_needed: true }
                        } else {
                            let slot = self.frame_mgr.slot(frame_idx);
                            self.phase = Some(
                                FramePhase::ResettingCommands { frame_idx, image_idx: image_index },
                            );
                            StepOutcome::Next {
                                action: RenderAction::ResetCommandBuffer {
                                    cmd_buffer: slot.cmd_buffer,
                                },
                            }
                        }
                    },
                    _ => vstd::pervasive::unreached(),
                }
            },
            FramePhase::ResettingCommands { frame_idx, image_idx } => {
                let ok = match reply {
                    DeviceReply::CommandBufferWasReset { ok } => ok,
                    _ => vstd::pervasive::unreached(),
                };
                if ok {
                    let slot = self.frame_mgr.slot(frame_idx);
                    self.phase = Some(FramePhase::BeginningCommands { frame_idx, image_idx });
                    StepOutcome::Next {
                        action: RenderAction::BeginCommandBuffer { cmd_buffer: slot.cmd_buffer },
                    }
                } else {
                    self.phase = None;
                    StepOutcome::Failed { error: RenderError::ResetCommandBuffer }
                }
            },
            FramePhase::BeginningCommands { frame_idx, image_idx } => {
                let ok = match reply {
                    DeviceReply::CommandBufferBegun { ok } => ok,
                    _ => vstd::pervasive::unreached(),
                };
                if ok {
                    let slot = self.frame_mgr.slot(frame_idx);
                    let commands = self.render_pass.record_commands(
                        image_idx,
                        frame_idx,
                        now_millis,
                    );
                    self.phase = Some(FramePhase::Recording { frame_idx, image_idx });
                    StepOutcome::Next {
                        action: RenderAction::RecordCommands {
                            cmd_buffer: slot.cmd_buffer,
                            commands,
                        },
                    }
                } else {
                    self.phase = None;
                    StepOutcome::Failed { error: RenderError::BeginCommandBuffer }
                }
            },
            FramePhase::Recording { frame_idx, image_idx } => {
                let slot = self.frame_mgr.slot(frame_idx);
                self.phase = Some(FramePhase::EndingCommands { frame_idx, image_idx });
                StepOutcome::Next {
                    action: RenderAction::EndCommandBuffer { cmd_buffer: slot.cmd_buffer },
                }
            },
            FramePhase::EndingCommands { frame_idx, image_idx } => {
                let ok = match reply {
                    DeviceReply::CommandBufferEnded { ok } => ok,
                    _ => vstd::pervasive::unreached(),
                };
                if ok {
                    let slot = self.frame_mgr.slot(frame_idx);
                    let img = *self.frame_mgr.swapchain_image(image_idx);
                    self.phase = Some(FramePhase::Submitting { frame_idx, image_idx });
                    StepOutcome::Next {
                        action: RenderAction::Submit {
                            cmd_buffer: slot.cmd_buffer,
                            wait_semaphore: slot.image_available,
                            signal_semaphore: img.render_finished,
                            fence: slot.in_flight,
                        },
                    }
                } else {
                    self.phase = None;
                    StepOutcome::Failed { error: RenderError::EndCommandBuffer }
                }
            },
            FramePhase::Submitting { frame_idx, image_idx } => {
                let ok = match reply {
                    DeviceReply::Submitted { ok } => ok,
                    _ => vstd::pervasive::unreached(),
                };
                if ok {
                    let img = *self.frame_mgr.swapchain_image(image_idx);
                    self.phase = Some(FramePhase::Presenting { frame_idx, image_idx });
                    StepOutcome::Next {
                        action: RenderAction::Present {
                            image_index: image_idx,
                            wait_semaphore: img.render_finished,
                        },
                    }
                } else {
                    self.phase = None;
                    StepOutcome::Failed { error: RenderError::SubmitGraphicsCommands }
                }
            },
            FramePhase::Presenting { .. } => {
                match reply {
                    DeviceReply::PresentFailed { error } => {
                        self.phase = None;
                        StepOutcome::Failed { error: RenderError::Present { error } }
                    },
                    DeviceReply::Presented { is_suboptimal } => {
                        self.phase = None;
                        StepOutcome::FrameDone { recreate_needed: is_suboptimal }
                    },
                    _ => vstd::pervasive::unreached(),
                }
            },
        }
    }
}

} // verus!
