//! The CPU–GPU frame timeline: how many frames the CPU has submitted and
//! how many the GPU has retired, and when the CPU must block.
//!
//! Frames retire in submission order; frame `k` reuses slot `k % N`, so
//! before recording frame `k` the CPU waits on the fence of frame
//! `k - N`. That wait is the only blocking point of the cycle, and it
//! bounds the frames in flight to at most N.

use vstd::prelude::*;

verus! {

/// Counters of the frame timeline for a ring of `frame_count` slots.
#[derive(Clone, Copy, PartialEq, Eq, Structural, Debug)]
pub struct FrameTimeline {
    frame_count: u64,
    submitted: u64,
    retired: u64,
}

impl FrameTimeline {
    /// The bound N on frames in flight.
    pub closed spec fn spec_frame_count(self) -> int {
        self.frame_count as int
    }

    /// Frames submitted so far; frame indices `0 .. submitted` are taken.
    pub closed spec fn spec_submitted(self) -> int {
        self.submitted as int
    }

    /// Frames retired so far, a prefix of the submitted frames.
    pub closed spec fn spec_retired(self) -> int {
        self.retired as int
    }

    /// Frames whose GPU work may still be executing.
    pub open spec fn spec_in_flight(self) -> int {
        self.spec_submitted() - self.spec_retired()
    }

    /// Frame `k` has retired.
    pub open spec fn frame_retired(self, k: int) -> bool {
        k < self.spec_retired()
    }

    /// The CPU, about to record frame `submitted`, finds the slot's fence
    /// still unsignalled and must block.
    pub open spec fn spec_must_block(self) -> bool {
        self.spec_in_flight() == self.spec_frame_count()
    }

    /// Well-formedness: retirement is a prefix of submission and never
    /// more than N frames are outstanding.
    pub closed spec fn wf(self) -> bool {
        &&& 1 <= self.frame_count
        &&& self.retired <= self.submitted
        &&& self.submitted - self.retired <= self.frame_count
    }

    /// An empty timeline for a ring of `frame_count` slots.
    pub fn new(frame_count: u64) -> (r: FrameTimeline)
        requires
            1 <= frame_count,
        ensures
            r.wf(),
            r.spec_frame_count() == frame_count,
            r.spec_submitted() == 0,
            r.spec_retired() == 0,
    {
        FrameTimeline { frame_count, submitted: 0, retired: 0 }
    }

    /// Number of frames in flight; never exceeds N.
    pub fn in_flight(&self) -> (r: u64)
        requires
            self.wf(),
        ensures
            r == self.spec_in_flight(),
            r <= self.spec_frame_count(),
    {
        self.submitted - self.retired
    }

    /// Whether the CPU must block before it can submit another frame:
    /// exactly when all N slots still hold unretired work.
    pub fn must_block(&self) -> (r: bool)
        requires
            self.wf(),
        ensures
            r == self.spec_must_block(),
    {
        self.submitted - self.retired == self.frame_count
    }

    /// The CPU submits the next frame. It may only do so once fewer than
    /// N frames are in flight, i.e. after the blocking fence wait.
    pub fn submit(&mut self)
        requires
            old(self).wf(),
            !old(self).spec_must_block(),
            old(self).spec_submitted() < u64::MAX,
        ensures
            final(self).wf(),
            final(self).spec_frame_count() == old(self).spec_frame_count(),
            final(self).spec_submitted() == old(self).spec_submitted() + 1,
            final(self).spec_retired() == old(self).spec_retired(),
    {
        self.submitted = self.submitted + 1;
    }

    /// The GPU retires the oldest outstanding frame.
    pub fn retire(&mut self)
        requires
            old(self).wf(),
            old(self).spec_retired() < old(self).spec_submitted(),
        ensures
            final(self).wf(),
            final(self).spec_frame_count() == old(self).spec_frame_count(),
            final(self).spec_submitted() == old(self).spec_submitted(),
            final(self).spec_retired() == old(self).spec_retired() + 1,
    {
        self.retired = self.retired + 1;
    }

    /// Law: the in-flight count never exceeds N, and the CPU blocks
    /// waiting on frame `k`'s fence (with `k` the next frame to record)
    /// exactly when frame `k - N` — the previous tenant of `k`'s slot —
    /// has not retired.
    pub proof fn lemma_throttle_bounds_in_flight(self)
        requires
            self.wf(),
        ensures
            0 <= self.spec_in_flight() <= self.spec_frame_count(),
            self.spec_submitted() >= self.spec_frame_count() ==> (self.spec_must_block()
                <==> !self.frame_retired(self.spec_submitted() - self.spec_frame_count())),
            self.spec_submitted() < self.spec_frame_count() ==> !self.spec_must_block(),
    {
    }
}

} // verus!
