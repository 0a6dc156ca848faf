//! Recording of one frame's draw commands, as data.
//!
//! The render pass and subpass own fixed pipeline state (modelled by its
//! shape: one uniform slot per frame slot, one framebuffer per swapchain
//! image, one combined geometry buffer) and produce the exact command
//! sequence for a frame slot and an image index. The caller replays the
//! sequence into the device's command buffer.

use vstd::prelude::*;

use crate::layout::{
    CombinedBuffer, TEST_INDEX_COUNT, TEST_VERTEX_COUNT, VERTEX_STRIDE_BYTES, INDEX_STRIDE_BYTES,
    test_geometry_buffer,
};
use crate::swapchain::{Extent, Swapchain};

verus! {

/// Which way the target clip space points along the vertical axis.
/// A `YDown` clip space needs the projection's vertical axis flipped;
/// a `YUp` clip space takes the projection as computed.
#[derive(Clone, Copy, PartialEq, Eq, Structural, Debug)]
pub enum ClipConvention {
    YDown,
    YUp,
}

/// True exactly when the clip-space convention requires the vertical-axis
/// sign flip in the projection matrix.
pub fn projection_flips_y(convention: ClipConvention) -> (r: bool)
    ensures
        r <==> convention == ClipConvention::YDown,
{
    match convention {
        ClipConvention::YDown => true,
        ClipConvention::YUp => false,
    }
}

/// One recorded draw command, as handed to the device collaborator.
#[derive(Clone, Copy, PartialEq, Eq, Structural, Debug)]
pub enum Command {
    /// Begin the render pass against the framebuffer bound to this image,
    /// with the render area of the swapchain's extent.
    BeginRenderPass { framebuffer_index: usize, width: u32, height: u32 },
    /// Bind the one graphics pipeline.
    BindPipeline,
    /// Bind the vertex data of the combined buffer.
    BindVertexBuffer { offset: u64 },
    /// Bind the index data of the combined buffer.
    BindIndexBuffer { offset: u64 },
    /// Recompute and write the uniform data of one frame slot, from the
    /// elapsed time, the window extent and the flip decision. Touches no
    /// other slot.
    WriteUniform { slot: usize, elapsed_ms: u64, width: u32, height: u32, flip_y: bool },
    /// Bind the descriptor set of one frame slot.
    BindDescriptorSet { slot: usize },
    /// The one indexed draw of the frame.
    DrawIndexed {
        index_count: u32,
        instance_count: u32,
        first_index: u32,
        vertex_offset: i32,
        first_instance: u32,
    },
    /// End the render pass.
    EndRenderPass,
}

/// Construction failure of one combined vertex-plus-index buffer,
/// propagated out of the device collaborator.
#[derive(Clone, Copy, PartialEq, Eq, Structural, Debug)]
pub enum BufferCreationError {
    CreateBufferWithMemory,
    UploadDataToMemory,
    CopyBuffer,
}

/// Construction failure of the subpass pipeline state, propagated out of
/// the device collaborator; fatal, never retried.
#[derive(Clone, Copy, PartialEq, Eq, Structural, Debug)]
pub enum TestSubpassInitializationError {
    CreateDescriptorSetLayout,
    CreatePipelineLayout,
    CreateGraphicsPipeline,
    CreateBuffer(BufferCreationError),
    CreateBufferWithMemory,
    MapMemory,
    CreateDescriptorPool,
    AllocateDescriptorSets,
}

/// Construction failure of the render pass, propagated out of the device
/// collaborator; fatal, never retried.
#[derive(Clone, Copy, PartialEq, Eq, Structural, Debug)]
pub enum TestRenderPassInitializationError {
    CreateRenderPass,
    CreateFramebuffers,
    CreateSubpass(TestSubpassInitializationError),
}

/// The subpass: one graphics pipeline over the combined geometry buffer,
/// with one uniform buffer and descriptor set per frame slot.
#[derive(Clone, Copy, PartialEq, Eq, Structural, Debug)]
pub struct TestSubpass {
    /// Placement of the vertex and index data; immutable after upload.
    pub combined_buffer: CombinedBuffer,
    /// Number of uniform-buffer/descriptor-set pairs: one per frame slot,
    /// not per swapchain image.
    pub uniform_slot_count: usize,
    /// The clip-space convention the projection is written for.
    pub convention: ClipConvention,
    /// Reference instant the rotation angle is measured from.
    pub start_millis: u64,
}

/// Milliseconds elapsed between the subpass's reference instant and the
/// caller's clock reading, saturating at zero.
pub open spec fn elapsed_millis(start: u64, now: u64) -> u64 {
    if now >= start {
        (now - start) as u64
    } else {
        0
    }
}

/// The exact command sequence the subpass records for one frame slot.
pub open spec fn subpass_command_seq(
    sp: TestSubpass,
    frame_idx: usize,
    now_millis: u64,
    width: u32,
    height: u32,
) -> Seq<Command> {
    seq![
        Command::BindPipeline,
        Command::BindVertexBuffer { offset: sp.combined_buffer.vertex_offset },
        Command::BindIndexBuffer { offset: sp.combined_buffer.index_offset },
        Command::WriteUniform {
            slot: frame_idx,
            elapsed_ms: elapsed_millis(sp.start_millis, now_millis),
            width,
            height,
            flip_y: sp.convention == ClipConvention::YDown,
        },
        Command::BindDescriptorSet { slot: frame_idx },
        Command::DrawIndexed {
            index_count: sp.combined_buffer.index_count,
            instance_count: 1,
            first_index: 0,
            vertex_offset: 0,
            first_instance: 0,
        },
    ]
}

impl TestSubpass {
    /// Builds the subpass state for `frame_count` frame slots over the
    /// demo geometry. Allocation failures of the device collaborator are
    /// the caller's; describing the state itself cannot fail.
    pub fn new(frame_count: usize, convention: ClipConvention, start_millis: u64) -> (r: Result<
        TestSubpass,
        TestSubpassInitializationError,
    >)
        requires
            1 <= frame_count,
        ensures
            r is Ok,
            r->Ok_0.uniform_slot_count == frame_count,
            r->Ok_0.convention == convention,
            r->Ok_0.start_millis == start_millis,
            r->Ok_0.combined_buffer.packs(
                (TEST_VERTEX_COUNT * VERTEX_STRIDE_BYTES) as int,
                (TEST_INDEX_COUNT * INDEX_STRIDE_BYTES) as int,
            ),
            r->Ok_0.combined_buffer.index_count == TEST_INDEX_COUNT,
    {
        let combined_buffer = test_geometry_buffer();
        Ok(TestSubpass { combined_buffer, uniform_slot_count: frame_count, convention, start_millis })
    }

    /// Records the subpass commands for one frame slot: bind the pipeline
    /// and the geometry, rewrite this slot's uniform data, bind this
    /// slot's descriptor set, and issue the one indexed draw.
    ///
    /// Mutates (through the returned commands) only the uniform slot
    /// `frame_idx`; never another slot. That is the invariant that makes
    /// per-slot buffering of uniforms correct.
    pub fn record_commands(&self, frame_idx: usize, now_millis: u64, width: u32, height: u32) -> (r:
        Vec<Command>)
        requires
            frame_idx < self.uniform_slot_count,
        ensures
            r@ == subpass_command_seq(*self, frame_idx, now_millis, width, height),
    {
        let elapsed_ms = if now_millis >= self.start_millis {
            now_millis - self.start_millis
        } else {
            0
        };
        let flip_y = projection_flips_y(self.convention);
        let mut r: Vec<Command> = Vec::new();
        r.push(Command::BindPipeline);
        r.push(Command::BindVertexBuffer { offset: self.combined_buffer.vertex_offset });
        r.push(Command::BindIndexBuffer { offset: self.combined_buffer.index_offset });
        r.push(Command::WriteUniform { slot: frame_idx, elapsed_ms, width, height, flip_y });
        r.push(Command::BindDescriptorSet { slot: frame_idx });
        r.push(
            Command::DrawIndexed {
                index_count: self.combined_buffer.index_count,
                instance_count: 1,
                first_index: 0,
                vertex_offset: 0,
                first_instance: 0,
            },
        );
        proof {
            assert(r@ =~= subpass_command_seq(*self, frame_idx, now_millis, width, height));
        }
        r
    }
}

/// The render pass: one framebuffer per swapchain image at the
/// swapchain's extent, wrapping the subpass.
#[derive(Clone, Copy, PartialEq, Eq, Structural, Debug)]
pub struct TestRenderPass {
    /// The extent every framebuffer is bound at.
    pub extent: Extent,
    /// One framebuffer per swapchain image, keyed by image index.
    pub framebuffer_count: usize,
    /// The one subpass of the pass.
    pub subpass: TestSubpass,
}

/// The exact command sequence recorded for one frame: the render pass
/// against the framebuffer of `image_idx`, around the subpass commands
/// for `frame_idx`.
pub open spec fn render_pass_command_seq(
    rp: TestRenderPass,
    image_idx: usize,
    frame_idx: usize,
    now_millis: u64,
) -> Seq<Command> {
    seq![
        Command::BeginRenderPass {
            framebuffer_index: image_idx,
            width: rp.extent.width,
            height: rp.extent.height,
        },
    ] + subpass_command_seq(rp.subpass, frame_idx, now_millis, rp.extent.width, rp.extent.height)
        + seq![Command::EndRenderPass]
}

impl TestRenderPass {
    /// Builds the render pass against a swapchain: one framebuffer per
    /// swapchain image at the swapchain's extent, and the subpass for
    /// `frame_count` frame slots.
    pub fn new(
        swapchain: &Swapchain,
        frame_count: usize,
        convention: ClipConvention,
        start_millis: u64,
    ) -> (r: Result<TestRenderPass, TestRenderPassInitializationError>)
        requires
            1 <= frame_count,
        ensures
            r is Ok,
            r->Ok_0.extent == swapchain.extent,
            r->Ok_0.framebuffer_count == swapchain.image_count,
            r->Ok_0.subpass.uniform_slot_count == frame_count,
            r->Ok_0.subpass.convention == convention,
            r->Ok_0.subpass.start_millis == start_millis,
            r->Ok_0.subpass.combined_buffer.index_count == TEST_INDEX_COUNT,
    {
        let subpass = match TestSubpass::new(frame_count, convention, start_millis) {
            Ok(sp) => sp,
            Err(e) => {
                return Err(TestRenderPassInitializationError::CreateSubpass(e));
            },
        };
        Ok(
            TestRenderPass {
                extent: swapchain.extent,
                framebuffer_count: swapchain.image_count,
                subpass,
            },
        )
    }

    /// Records the commands of one frame: begin the render pass against
    /// the framebuffer for `image_idx`, record the subpass for
    /// `frame_idx`, end the render pass.
    pub fn record_commands(&self, image_idx: usize, frame_idx: usize, now_millis: u64) -> (r: Vec<
        Command,
    >)
        requires
            image_idx < self.framebuffer_count,
            frame_idx < self.subpass.uniform_slot_count,
        ensures
            r@ == render_pass_command_seq(*self, image_idx, frame_idx, now_millis),
    {
        let mut r: Vec<Command> = Vec::new();
        r.push(
            Command::BeginRenderPass {
                framebuffer_index: image_idx,
                width: self.extent.width,
                height: self.extent.height,
            },
        );
        let mut body = self.subpass.record_commands(
            frame_idx,
            now_millis,
            self.extent.width,
            self.extent.height,
        );
        r.append(&mut body);
        r.push(Command::EndRenderPass);
        proof {
            assert(r@ =~= render_pass_command_seq(*self, image_idx, frame_idx, now_millis));
        }
        r
    }
}

/// True of the one indexed draw command.
pub open spec fn is_indexed_draw(c: Command) -> bool {
    c is DrawIndexed
}

/// Law: a recorded frame issues exactly one indexed draw, at a fixed
/// place in the sequence, and for the demo geometry it draws six indices
/// in one instance from the start of both buffers.
pub proof fn lemma_single_indexed_draw(
    rp: TestRenderPass,
    image_idx: usize,
    frame_idx: usize,
    now_millis: u64,
)
    ensures
        ({
            let s = render_pass_command_seq(rp, image_idx, frame_idx, now_millis);
            &&& s.len() == 8
            &&& s[6] == (Command::DrawIndexed {
                index_count: rp.subpass.combined_buffer.index_count,
                instance_count: 1,
                first_index: 0,
                vertex_offset: 0,
                first_instance: 0,
            })
            &&& forall|j: int| 0 <= j < s.len() && j != 6 ==> !is_indexed_draw(s[j])
        }),
{
    let s = render_pass_command_seq(rp, image_idx, frame_idx, now_millis);
    assert forall|j: int| 0 <= j < s.len() && j != 6 implies !is_indexed_draw(s[j]) by {
        assert(s.len() == 8);
    }
}

/// Law: recording for frame slot `frame_idx` writes the uniform data of
/// that slot and of no other; the only uniform write in the sequence
/// targets `frame_idx`.
pub proof fn lemma_uniform_write_targets_own_slot(
    rp: TestRenderPass,
    image_idx: usize,
    frame_idx: usize,
    now_millis: u64,
)
    ensures
        ({
            let s = render_pass_command_seq(rp, image_idx, frame_idx, now_millis);
            forall|j: int|
                0 <= j < s.len() && s[j] is WriteUniform ==> s[j]->WriteUniform_slot == frame_idx
        }),
{
    let s = render_pass_command_seq(rp, image_idx, frame_idx, now_millis);
    assert forall|j: int| 0 <= j < s.len() && s[j] is WriteUniform implies s[j]->WriteUniform_slot
        == frame_idx by {
        assert(s.len() == 8);
    }
}

} // verus!
