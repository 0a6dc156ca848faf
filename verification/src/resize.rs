//! Reconstruction of the swapchain and renderer pair on resize or
//! suboptimal presentation.
//!
//! The pair is always rebuilt together, as an atomic pair, never mutated
//! in place. Teardown of the old pair follows a fixed order that begins
//! with a device-idle wait, so that no in-flight GPU work still references
//! a resource when it is destroyed — the single most safety-critical
//! invariant of the whole core.

use vstd::prelude::*;

use crate::commands::{ClipConvention, TestRenderPass};
use crate::renderer::TestRenderer;
use crate::swapchain::{Extent, Swapchain};

verus! {

/// One step of tearing the old swapchain-dependent resources down, in
/// the order the caller must perform them.
#[derive(Clone, Copy, PartialEq, Eq, Structural, Debug)]
pub enum TeardownStep {
    /// Block until the device has retired all outstanding GPU work.
    WaitIdle,
    DestroyDescriptorPool,
    DestroyUniformBuffer { slot: usize },
    DestroyCombinedBuffer,
    DestroyPipelineLayout,
    DestroyDescriptorSetLayout,
    DestroyFramebuffer { image_index: usize },
    DestroyRenderPass,
}

/// The per-slot uniform-buffer teardown steps, one per frame slot.
pub open spec fn uniform_teardown_seq(slot_count: int) -> Seq<TeardownStep> {
    Seq::new(slot_count as nat, |i: int| TeardownStep::DestroyUniformBuffer { slot: i as usize })
}

/// The per-image framebuffer teardown steps, one per swapchain image.
pub open spec fn framebuffer_teardown_seq(framebuffer_count: int) -> Seq<TeardownStep> {
    Seq::new(
        framebuffer_count as nat,
        |i: int| TeardownStep::DestroyFramebuffer { image_index: i as usize },
    )
}

/// The full teardown order: wait for device idle, then destroy the
/// descriptor pool, the per-slot uniform buffers, the combined
/// vertex-and-index buffer, the pipeline layout, the descriptor-set
/// layout, the framebuffers, and last the render pass — each resource
/// outliving everything it is bound into.
pub open spec fn teardown_seq(slot_count: int, framebuffer_count: int) -> Seq<TeardownStep> {
    seq![TeardownStep::WaitIdle, TeardownStep::DestroyDescriptorPool] + uniform_teardown_seq(
        slot_count,
    ) + seq![
        TeardownStep::DestroyCombinedBuffer,
        TeardownStep::DestroyPipelineLayout,
        TeardownStep::DestroyDescriptorSetLayout,
    ] + framebuffer_teardown_seq(framebuffer_count) + seq![TeardownStep::DestroyRenderPass]
}

/// Law: the teardown plan waits for device idle strictly before every
/// destruction — the idle wait is the first step and appears nowhere
/// else — and it destroys every framebuffer, every uniform slot, and the
/// render pass.
pub proof fn lemma_teardown_waits_idle_first(slot_count: int, framebuffer_count: int)
    requires
        0 <= slot_count,
        0 <= framebuffer_count,
    ensures
        ({
            let s = teardown_seq(slot_count, framebuffer_count);
            &&& s.len() == 6 + slot_count + framebuffer_count
            &&& s[0] == TeardownStep::WaitIdle
            &&& forall|j: int| 0 < j < s.len() ==> !(s[j] is WaitIdle)
            &&& forall|i: int|
                0 <= i < slot_count ==> #[trigger] s[2 + i] == (TeardownStep::DestroyUniformBuffer {
                    slot: i as usize,
                })
            &&& forall|i: int|
                0 <= i < framebuffer_count ==> #[trigger] s[5 + slot_count + i] == (
                TeardownStep::DestroyFramebuffer { image_index: i as usize })
            &&& s[s.len() - 1] == TeardownStep::DestroyRenderPass
        }),
{
}

/// The teardown plan of one render pass: what to destroy, in order,
/// before the new pair may be constructed.
pub fn teardown_plan(render_pass: &TestRenderPass) -> (r: Vec<TeardownStep>)
    ensures
        r@ == teardown_seq(
            render_pass.subpass.uniform_slot_count as int,
            render_pass.framebuffer_count as int,
        ),
{
    let slot_count = render_pass.subpass.uniform_slot_count;
    let framebuffer_count = render_pass.framebuffer_count;
    let mut r: Vec<TeardownStep> = Vec::new();
    r.push(TeardownStep::WaitIdle);
    r.push(TeardownStep::DestroyDescriptorPool);
    let mut i: usize = 0;
    while i < slot_count
        invariant
            i <= slot_count,
            r@ == seq![TeardownStep::WaitIdle, TeardownStep::DestroyDescriptorPool]
                + uniform_teardown_seq(i as int),
        decreases slot_count - i,
    {
        r.push(TeardownStep::DestroyUniformBuffer { slot: i });
        proof {
            assert(uniform_teardown_seq(i + 1 as int) =~= uniform_teardown_seq(i as int).push(
                TeardownStep::DestroyUniformBuffer { slot: i },
            ));
            assert(r@ =~= seq![TeardownStep::WaitIdle, TeardownStep::DestroyDescriptorPool]
                + uniform_teardown_seq(i + 1 as int));
        }
        i = i + 1;
    }
    r.push(TeardownStep::DestroyCombinedBuffer);
    r.push(TeardownStep::DestroyPipelineLayout);
    r.push(TeardownStep::DestroyDescriptorSetLayout);
    let ghost head = r@;
    let mut j: usize = 0;
    while j < framebuffer_count
        invariant
            j <= framebuffer_count,
            r@ == head + framebuffer_teardown_seq(j as int),
        decreases framebuffer_count - j,
    {
        r.push(TeardownStep::DestroyFramebuffer { image_index: j });
        proof {
            assert(framebuffer_teardown_seq(j + 1 as int) =~= framebuffer_teardown_seq(
                j as int,
            ).push(TeardownStep::DestroyFramebuffer { image_index: j }));
            assert(r@ =~= head + framebuffer_teardown_seq(j + 1 as int));
        }
        j = j + 1;
    }
    r.push(TeardownStep::DestroyRenderPass);
    proof {
        assert(r@ =~= teardown_seq(slot_count as int, framebuffer_count as int));
    }
    r
}

/// Builds a swapchain and its renderer as an atomic pair: the swapchain
/// first, standalone, then the renderer from it. The old swapchain is
/// only a resource-sharing hint.
pub fn create_swapchain(
    old_swapchain: Option<&Swapchain>,
    width: u32,
    height: u32,
    image_count: usize,
    pre_transform: u32,
    frame_count: usize,
    convention: ClipConvention,
    start_millis: u64,
) -> (r: (Swapchain, TestRenderer))
    requires
        1 <= frame_count <= 0x1000_0000,
        1 <= image_count <= 0x1000_0000,
    ensures
        r.0.extent == (Extent { width, height }),
        r.0.image_count == image_count,
        r.0.pre_transform == pre_transform,
        r.1.wf(),
        r.1.chain() == r.0,
        r.1.phase() is None,
        r.1.frames().frame_count() == frame_count,
        r.1.frames().submitted() == 0,
        r.1.pass().extent == (Extent { width, height }),
        r.1.pass().subpass.convention == convention,
        r.1.pass().subpass.start_millis == start_millis,
{
    let swapchain = Swapchain::new(width, height, image_count, pre_transform, old_swapchain);
    let renderer = match TestRenderer::new(&swapchain, frame_count, convention, start_millis) {
        Ok(r) => r,
        Err(_) => {
            proof {
                assert(false);
            }
            vstd::pervasive::unreached()
        },
    };
    (swapchain, renderer)
}

/// Plans the reconstruction of the pair at a new extent: the teardown of
/// the old renderer's resources (beginning with the device-idle wait) and
/// the new swapchain and renderer, which produce images at the new extent
/// from their very next frame.
pub fn recreate_swapchain(
    old_swapchain: &Swapchain,
    old_renderer: &TestRenderer,
    width: u32,
    height: u32,
    convention: ClipConvention,
    start_millis: u64,
) -> (r: (Vec<TeardownStep>, Swapchain, TestRenderer))
    requires
        old_renderer.wf(),
        old_renderer.chain() == *old_swapchain,
    ensures
        r.0@ == teardown_seq(
            old_renderer.pass().subpass.uniform_slot_count as int,
            old_renderer.pass().framebuffer_count as int,
        ),
        r.1.extent == (Extent { width, height }),
        r.1.image_count == old_swapchain.image_count,
        r.1.pre_transform == old_swapchain.pre_transform,
        r.2.wf(),
        r.2.chain() == r.1,
        r.2.phase() is None,
        r.2.frames().frame_count() == old_renderer.frames().frame_count(),
        r.2.pass().extent == (Extent { width, height }),
{
    proof {
        old_renderer.lemma_wf_bounds();
    }
    let plan = teardown_plan(old_renderer.render_pass_ref());
    let frame_count = old_renderer.frame_count();
    let (swapchain, renderer) = create_swapchain(
        Some(old_swapchain),
        width,
        height,
        old_swapchain.image_count,
        old_swapchain.pre_transform,
        frame_count,
        convention,
        start_millis,
    );
    (plan, swapchain, renderer)
}

} // verus!
