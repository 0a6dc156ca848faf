//! A mock device that records the ordering of uniform writes against
//! submissions and fence signals.
//!
//! The GPU of the real system is free-running; what the core guarantees
//! is an ordering discipline: a frame slot's uniform buffer is written
//! only while no previously submitted command buffer of that slot is
//! still executing. The mock keeps a log of the three relevant events
//! and maintains that discipline as an invariant, so any driver built on
//! it carries the property in its type.

use vstd::prelude::*;

verus! {

/// One logged device event, in log order (the log index is the
/// timestamp).
#[derive(Clone, Copy, PartialEq, Eq, Structural, Debug)]
pub enum DeviceEvent {
    /// The CPU wrote the uniform buffer of this frame slot.
    UniformWrite { slot: usize },
    /// A command buffer using this slot was submitted to the queue.
    Submit { slot: usize },
    /// The GPU retired this slot's submission and signalled its fence.
    Retire { slot: usize },
}

/// The slot of an event.
pub open spec fn event_slot(e: DeviceEvent) -> usize {
    match e {
        DeviceEvent::UniformWrite { slot } => slot,
        DeviceEvent::Submit { slot } => slot,
        DeviceEvent::Retire { slot } => slot,
    }
}

/// A slot still has unretired GPU work after the logged history: its
/// last submission has no later retirement.
pub open spec fn slot_busy(log: Seq<DeviceEvent>, slot: usize) -> bool
    decreases log.len(),
{
    if log.len() == 0 {
        false
    } else if log.last() == (DeviceEvent::Submit { slot }) {
        true
    } else if log.last() == (DeviceEvent::Retire { slot }) {
        false
    } else {
        slot_busy(log.drop_last(), slot)
    }
}

/// The fence-gated write discipline: every uniform write of a slot
/// happens while the slot has no unretired submission — between the
/// retirement of its previous work and its next submission, never during
/// execution.
pub open spec fn writes_fence_gated(log: Seq<DeviceEvent>) -> bool {
    forall|i: int|
        0 <= i < log.len() && #[trigger] log[i] is UniformWrite ==> !slot_busy(
            log.take(i),
            log[i]->UniformWrite_slot,
        )
}

/// Appending an event resolves a slot's business directly: a submit of
/// the slot makes it busy, a retire of the slot idle, anything else
/// leaves it as it was.
pub proof fn lemma_slot_busy_push(log: Seq<DeviceEvent>, e: DeviceEvent, slot: usize)
    ensures
        slot_busy(log.push(e), slot) == if e == (DeviceEvent::Submit { slot }) {
            true
        } else if e == (DeviceEvent::Retire { slot }) {
            false
        } else {
            slot_busy(log, slot)
        },
{
    assert(log.push(e).drop_last() =~= log);
    assert(log.push(e).last() == e);
}

/// Appending anything but a uniform write preserves the discipline.
pub proof fn lemma_gated_push_non_write(log: Seq<DeviceEvent>, e: DeviceEvent)
    requires
        writes_fence_gated(log),
        !(e is UniformWrite),
    ensures
        writes_fence_gated(log.push(e)),
{
    let log2 = log.push(e);
    assert forall|i: int| 0 <= i < log2.len() && #[trigger] log2[i] is UniformWrite implies
        !slot_busy(log2.take(i), log2[i]->UniformWrite_slot) by {
        assert(i < log.len());
        assert(log2.take(i) =~= log.take(i));
    }
}

/// Appending a uniform write of an idle slot preserves the discipline.
pub proof fn lemma_gated_push_write(log: Seq<DeviceEvent>, slot: usize)
    requires
        writes_fence_gated(log),
        !slot_busy(log, slot),
    ensures
        writes_fence_gated(log.push(DeviceEvent::UniformWrite { slot })),
{
    let log2 = log.push(DeviceEvent::UniformWrite { slot });
    assert forall|i: int| 0 <= i < log2.len() && #[trigger] log2[i] is UniformWrite implies
        !slot_busy(log2.take(i), log2[i]->UniformWrite_slot) by {
        if i < log.len() {
            assert(log2.take(i) =~= log.take(i));
        } else {
            assert(log2.take(i) =~= log);
        }
    }
}

/// The mock device: a pending flag per frame slot and the event log.
pub struct MockDevice {
    pending: Vec<bool>,
    events: Vec<DeviceEvent>,
}

impl MockDevice {
    /// The logged history, in order.
    pub closed spec fn log(self) -> Seq<DeviceEvent> {
        self.events@
    }

    /// Number of frame slots.
    pub closed spec fn slot_count(self) -> int {
        self.pending@.len() as int
    }

    /// Whether the slot has unretired GPU work.
    pub closed spec fn pending_at(self, slot: int) -> bool {
        self.pending@[slot]
    }

    /// Invariant: the pending flags mirror the log, every logged event
    /// names a real slot, and the log obeys the fence-gated write
    /// discipline.
    pub closed spec fn wf(self) -> bool {
        &&& forall|s: int|
            0 <= s < self.pending@.len() ==> self.pending@[s] == slot_busy(
                self.events@,
                s as usize,
            )
        &&& forall|i: int|
            0 <= i < self.events@.len() ==> event_slot(#[trigger] self.events@[i])
                < self.pending@.len()
        &&& writes_fence_gated(self.events@)
    }

    /// Law: the mock's log always satisfies the fence-gated write
    /// discipline — a slot's uniform buffer is never written while a
    /// previously submitted command buffer of that slot is still
    /// executing.
    pub proof fn lemma_log_fence_gated(self)
        requires
            self.wf(),
        ensures
            writes_fence_gated(self.log()),
    {
    }

    /// A fresh device for `slot_count` frame slots: nothing pending,
    /// nothing logged.
    pub fn new(slot_count: usize) -> (r: MockDevice)
        ensures
            r.wf(),
            r.slot_count() == slot_count,
            r.log() == Seq::<DeviceEvent>::empty(),
            forall|s: int| 0 <= s < slot_count ==> !r.pending_at(s),
    {
        let mut pending: Vec<bool> = Vec::new();
        let mut i: usize = 0;
        while i < slot_count
            invariant
                i <= slot_count,
                pending@.len() == i,
                forall|s: int| 0 <= s < i ==> !pending@[s],
            decreases slot_count - i,
        {
            pending.push(false);
            i = i + 1;
        }
        let r = MockDevice { pending, events: Vec::new() };
        proof {
            assert(r.events@ =~= Seq::<DeviceEvent>::empty());
        }
        r
    }

    /// The logged history, for inspection.
    pub fn events(&self) -> (r: &Vec<DeviceEvent>)
        ensures
            r@ == self.log(),
    {
        &self.events
    }

    /// Whether the slot has unretired GPU work, for inspection.
    pub fn is_pending(&self, slot: usize) -> (r: bool)
        requires
            slot < self.slot_count(),
        ensures
            r == self.pending_at(slot as int),
    {
        self.pending[slot]
    }

    /// Blocks on a slot's fence: if the slot had unretired work the GPU
    /// retires it now (that is the block); afterwards the slot is idle.
    /// Returns whether the wait actually blocked.
    pub fn wait_fence(&mut self, slot: usize) -> (blocked: bool)
        requires
            old(self).wf(),
            slot < old(self).slot_count(),
        ensures
            final(self).wf(),
            final(self).slot_count() == old(self).slot_count(),
            blocked == old(self).pending_at(slot as int),
            !final(self).pending_at(slot as int),
            forall|s: int|
                0 <= s < old(self).slot_count() && s != slot ==> final(self).pending_at(s) == old(
                    self,
                ).pending_at(s),
            final(self).log() == if blocked {
                old(self).log().push(DeviceEvent::Retire { slot })
            } else {
                old(self).log()
            },
    {
        if self.pending[slot] {
            let ghost log0 = self.events@;
            self.events.push(DeviceEvent::Retire { slot });
            self.pending.set(slot, false);
            proof {
                assert(self.pending@.len() == self.pending.len());
                assert forall|s: int| 0 <= s < self.pending@.len() implies self.pending@[s]
                    == slot_busy(self.events@, s as usize) by {
                    assert(old(self).pending@[s] == slot_busy(log0, s as usize));
                    lemma_slot_busy_push(log0, DeviceEvent::Retire { slot }, s as usize);
                }
                lemma_gated_push_non_write(log0, DeviceEvent::Retire { slot });
            }
            true
        } else {
            false
        }
    }

    /// The CPU writes the uniform buffer of an idle slot. The discipline
    /// demands the slot idle: the caller must have waited on its fence.
    pub fn write_uniform(&mut self, slot: usize)
        requires
            old(self).wf(),
            slot < old(self).slot_count(),
            !old(self).pending_at(slot as int),
        ensures
            final(self).wf(),
            final(self).slot_count() == old(self).slot_count(),
            forall|s: int|
                0 <= s < old(self).slot_count() ==> final(self).pending_at(s) == old(
                    self,
                ).pending_at(s),
            final(self).log() == old(self).log().push(DeviceEvent::UniformWrite { slot }),
    {
        let ghost log0 = self.events@;
        self.events.push(DeviceEvent::UniformWrite { slot });
        proof {
            assert(self.pending@.len() == self.pending.len());
            assert forall|s: int| 0 <= s < self.pending@.len() implies self.pending@[s]
                == slot_busy(self.events@, s as usize) by {
                assert(old(self).pending@[s] == slot_busy(log0, s as usize));
                lemma_slot_busy_push(log0, DeviceEvent::UniformWrite { slot }, s as usize);
            }
            lemma_gated_push_write(log0, slot);
        }
    }

    /// A command buffer of an idle slot is submitted to the queue; the
    /// slot is busy until its fence is waited on.
    pub fn submit(&mut self, slot: usize)
        requires
            old(self).wf(),
            slot < old(self).slot_count(),
            !old(self).pending_at(slot as int),
        ensures
            final(self).wf(),
            final(self).slot_count() == old(self).slot_count(),
            final(self).pending_at(slot as int),
            forall|s: int|
                0 <= s < old(self).slot_count() && s != slot ==> final(self).pending_at(s) == old(
                    self,
                ).pending_at(s),
            final(self).log() == old(self).log().push(DeviceEvent::Submit { slot }),
    {
        let ghost log0 = self.events@;
        self.events.push(DeviceEvent::Submit { slot });
        self.pending.set(slot, true);
        proof {
            assert(self.pending@.len() == self.pending.len());
            assert forall|s: int| 0 <= s < self.pending@.len() implies self.pending@[s]
                == slot_busy(self.events@, s as usize) by {
                assert(old(self).pending@[s] == slot_busy(log0, s as usize));
                lemma_slot_busy_push(log0, DeviceEvent::Submit { slot }, s as usize);
            }
            lemma_gated_push_non_write(log0, DeviceEvent::Submit { slot });
        }
    }

    /// Blocks until the device is idle: retires every slot's outstanding
    /// work, in slot order. Nothing is written during the wait; the log
    /// grows by retirements only.
    pub fn wait_idle(&mut self)
        requires
            old(self).wf(),
        ensures
            final(self).wf(),
            final(self).slot_count() == old(self).slot_count(),
            forall|s: int| 0 <= s < final(self).slot_count() ==> !final(self).pending_at(s),
            old(self).log().len() <= final(self).log().len(),
            final(self).log().take(old(self).log().len() as int) == old(self).log(),
            forall|i: int|
                old(self).log().len() <= i < final(self).log().len()
                    ==> (#[trigger] final(self).log()[i]) is Retire,
    {
        let ghost log0 = self.events@;
        let n = self.pending.len();
        let mut slot: usize = 0;
        while slot < n
            invariant
                self.wf(),
                slot <= n,
                self.slot_count() == n,
                log0.len() <= self.events@.len(),
                self.events@.take(log0.len() as int) == log0,
                forall|s: int| 0 <= s < slot ==> !self.pending_at(s),
                forall|i: int|
                    log0.len() <= i < self.events@.len() ==> #[trigger] self.events@[i] is Retire,
            decreases n - slot,
        {
            let ghost before = self.events@;
            let _ = self.wait_fence(slot);
            proof {
                if self.events@.len() > before.len() {
                    assert(self.events@ == before.push(DeviceEvent::Retire { slot }));
                    assert(self.events@.take(log0.len() as int) =~= before.take(
                        log0.len() as int,
                    ));
                }
            }
            slot = slot + 1;
        }
    }
}

} // verus!
