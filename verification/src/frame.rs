//! The fixed ring of frame slots and the per-image synchronization table.
//!
//! A frame slot is a reusable CPU/GPU execution context: an image-available
//! semaphore, an in-flight fence, and a command buffer. Slots are handed out
//! round-robin; the swapchain images carry their own render-finished
//! semaphores, on an independent cycle. Handles are modelled as plain
//! numeric identifiers; the device that backs them is the caller's.

use vstd::prelude::*;

verus! {

/// Default bound on frames in flight: the CPU may run at most this many
/// frames ahead of the GPU.
pub const MAX_FRAMES_IN_FLIGHT: usize = 2;

/// One of N pre-allocated execution contexts, identified by its
/// synchronization handles.
#[derive(Clone, Copy, PartialEq, Eq, Structural, Debug)]
pub struct FrameSlot {
    /// Semaphore signalled when a swapchain image has been acquired for
    /// this slot.
    pub image_available: u64,
    /// Fence signalled when the GPU has finished all work submitted for
    /// this slot.
    pub in_flight: u64,
    /// The slot's dedicated command buffer.
    pub cmd_buffer: u64,
}

/// Synchronization state of one swapchain image.
#[derive(Clone, Copy, PartialEq, Eq, Structural, Debug)]
pub struct ImageSync {
    /// Semaphore ordering the present call after the draw submission for
    /// this image. Distinct per image, not per frame slot.
    pub render_finished: u64,
}

/// The canonical image-available semaphore handle of slot `i`.
pub open spec fn image_available_id(i: int) -> int {
    2 * i
}

/// The canonical in-flight fence handle of slot `i`.
pub open spec fn in_flight_id(i: int) -> int {
    i
}

/// The canonical command buffer handle of slot `i`.
pub open spec fn cmd_buffer_id(i: int) -> int {
    i
}

/// The canonical render-finished semaphore handle of image `j` in a ring
/// of `frame_count` slots. Odd offsets keep it apart from every
/// image-available handle.
pub open spec fn render_finished_id(frame_count: int, j: int) -> int {
    2 * frame_count + 2 * j + 1
}

/// Owns the ring of frame slots and the per-image synchronization table,
/// and hands out the next slot round-robin.
pub struct FrameManager {
    slots: Vec<FrameSlot>,
    image_syncs: Vec<ImageSync>,
    current_frame: usize,
    submit_count: Ghost<nat>,
}

impl FrameManager {
    /// Number of frame slots (N, the bound on frames in flight).
    pub closed spec fn frame_count(self) -> int {
        self.slots@.len() as int
    }

    /// Number of swapchain images the manager tracks.
    pub closed spec fn image_count(self) -> int {
        self.image_syncs@.len() as int
    }

    /// Total frames handed out so far; monotonically increasing.
    pub closed spec fn submitted(self) -> nat {
        self.submit_count@
    }

    /// The slot at ring position `i`.
    pub closed spec fn spec_slot(self, i: int) -> FrameSlot {
        self.slots@[i]
    }

    /// The synchronization state of image `j`.
    pub closed spec fn spec_image(self, j: int) -> ImageSync {
        self.image_syncs@[j]
    }

    /// Well-formedness: at least one slot, every handle canonical, and the
    /// ring position equal to the submit counter modulo the slot count.
    pub closed spec fn wf(self) -> bool {
        &&& 1 <= self.slots@.len()
        &&& self.slots@.len() <= 0x1000_0000
        &&& self.image_syncs@.len() <= 0x1000_0000
        &&& self.current_frame < self.slots@.len()
        &&& self.current_frame == self.submit_count@ % (self.slots@.len() as nat)
        &&& forall|i: int|
            0 <= i < self.slots@.len() ==> self.slots@[i] == (FrameSlot {
                image_available: image_available_id(i) as u64,
                in_flight: in_flight_id(i) as u64,
                cmd_buffer: cmd_buffer_id(i) as u64,
            })
        &&& forall|j: int|
            0 <= j < self.image_syncs@.len() ==> self.image_syncs@[j] == (ImageSync {
                render_finished: render_finished_id(self.slots@.len() as int, j) as u64,
            })
    }

    /// Bounds that well-formedness guarantees about the ring's shape.
    pub proof fn lemma_wf_bounds(self)
        requires
            self.wf(),
        ensures
            1 <= self.frame_count() <= 0x1000_0000,
            0 <= self.image_count() <= 0x1000_0000,
    {
    }

    /// Law: semaphores never alias. Image-available semaphores are distinct
    /// per slot, render-finished semaphores are distinct per image, and the
    /// two families never meet, because image index and frame-slot index
    /// are independent cycles.
    pub proof fn lemma_semaphores_distinct(self)
        requires
            self.wf(),
        ensures
            forall|i: int, j: int|
                0 <= i < self.frame_count() && 0 <= j < self.frame_count() && i != j
                    ==> self.spec_slot(i).image_available != self.spec_slot(j).image_available
                    && self.spec_slot(i).in_flight != self.spec_slot(j).in_flight,
            forall|i: int, j: int|
                0 <= i < self.image_count() && 0 <= j < self.image_count() && i != j
                    ==> self.spec_image(i).render_finished != self.spec_image(j).render_finished,
            forall|i: int, j: int|
                0 <= i < self.frame_count() && 0 <= j < self.image_count()
                    ==> self.spec_slot(i).image_available != self.spec_image(j).render_finished,
    {
    }

    /// Allocates `frame_count` slots, each with its own semaphore, fence
    /// and command buffer handles, and one render-finished semaphore per
    /// swapchain image. The counter starts at slot zero.
    pub fn new(frame_count: usize, image_count: usize) -> (r: FrameManager)
        requires
            1 <= frame_count <= 0x1000_0000,
            image_count <= 0x1000_0000,
        ensures
            r.wf(),
            r.frame_count() == frame_count,
            r.image_count() == image_count,
            r.submitted() == 0,
    {
        let mut slots: Vec<FrameSlot> = Vec::new();
        let mut i: usize = 0;
        while i < frame_count
            invariant
                i <= frame_count,
                frame_count <= 0x1000_0000,
                slots@.len() == i,
                forall|k: int|
                    0 <= k < i ==> slots@[k] == (FrameSlot {
                        image_available: image_available_id(k) as u64,
                        in_flight: in_flight_id(k) as u64,
                        cmd_buffer: cmd_buffer_id(k) as u64,
                    }),
            decreases frame_count - i,
        {
            slots.push(
                FrameSlot {
                    image_available: 2 * (i as u64),
                    in_flight: i as u64,
                    cmd_buffer: i as u64,
                },
            );
            i = i + 1;
        }
        let mut image_syncs: Vec<ImageSync> = Vec::new();
        let mut j: usize = 0;
        while j < image_count
            invariant
                j <= image_count,
                frame_count <= 0x1000_0000,
                image_count <= 0x1000_0000,
                image_syncs@.len() == j,
                forall|k: int|
                    0 <= k < j ==> image_syncs@[k] == (ImageSync {
                        render_finished: render_finished_id(frame_count as int, k) as u64,
                    }),
            decreases image_count - j,
        {
            image_syncs.push(
                ImageSync { render_finished: 2 * (frame_count as u64) + 2 * (j as u64) + 1 },
            );
            j = j + 1;
        }
        proof {
            vstd::arithmetic::div_mod::lemma_small_mod(0, slots@.len() as nat);
        }
        FrameManager { slots, image_syncs, current_frame: 0, submit_count: Ghost(0) }
    }

    /// Hands out the next slot in round-robin order and advances the
    /// monotonically increasing counter, wrapping modulo the slot count.
    /// Never blocks; the caller blocks on the slot's fence.
    pub fn next_frame(&mut self) -> (r: (FrameSlot, usize))
        requires
            old(self).wf(),
        ensures
            final(self).wf(),
            r.1 == old(self).submitted() % (old(self).frame_count() as nat),
            r.0 == old(self).spec_slot(r.1 as int),
            r.1 < old(self).frame_count(),
            final(self).frame_count() == old(self).frame_count(),
            final(self).image_count() == old(self).image_count(),
            final(self).submitted() == old(self).submitted() + 1,
            forall|i: int|
                0 <= i < old(self).frame_count()
                    ==> final(self).spec_slot(i) == old(self).spec_slot(i),
            forall|j: int|
                0 <= j < old(self).image_count()
                    ==> final(self).spec_image(j) == old(self).spec_image(j),
    {
        let idx = self.current_frame;
        let slot = self.slots[idx];
        self.current_frame = (self.current_frame + 1) % self.slots.len();
        proof {
            vstd::arithmetic::div_mod::lemma_add_mod_noop_right(
                1,
                self.submit_count@ as int,
                self.slots@.len() as int,
            );
        }
        self.submit_count = Ghost(self.submit_count@ + 1);
        (slot, idx)
    }

    /// Looks up the synchronization state for a given swapchain image
    /// index; image index and frame-slot index cycle independently.
    pub fn swapchain_image(&self, index: usize) -> (r: &ImageSync)
        requires
            self.wf(),
            index < self.image_count(),
        ensures
            *r == self.spec_image(index as int),
    {
        &self.image_syncs[index]
    }

    /// Number of frame slots.
    pub fn slot_count(&self) -> (r: usize)
        ensures
            r == self.frame_count(),
    {
        self.slots.len()
    }

    /// The ring position the next `next_frame` call will hand out.
    pub fn current_slot(&self) -> (r: usize)
        requires
            self.wf(),
        ensures
            r == self.submitted() % (self.frame_count() as nat),
    {
        self.current_frame
    }

    /// The slot at ring position `i`, without advancing the counter.
    pub fn slot(&self, i: usize) -> (r: FrameSlot)
        requires
            i < self.frame_count(),
        ensures
            r == self.spec_slot(i as int),
    {
        self.slots[i]
    }
}

} // verus!
