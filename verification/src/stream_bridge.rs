//! The single-slot stream bridge.
//!
//! One guarded slot holds the next event; a stored waker (modelled here as a
//! registration bit) lets the consumer's task be resumed, and the producer —
//! rather than blocking until a decision — waits only when the previous slot
//! has not been drained yet.  Termination is signalled by a dedicated
//! end-of-stream slot state, a value no real event can ever equal.
//!
//! This module is the mechanism's decision structure as a state machine; the
//! lock, the condition variable and the real task waker around it live with
//! the embedding application code, which performs one machine step per
//! mechanism step.

use vstd::prelude::*;

use crate::event_record::{EventRecordOwned, EventRecordView, lemma_consistent_flag_normalized};
use crate::status::TraceError;

verus! {

/// What the slot holds.
pub enum StreamSlot {
    /// Nothing to consume.
    Empty,
    /// One event awaiting the consumer.
    Full(EventRecordOwned),
    /// The end-of-stream marker; once deposited it is never cleared.
    End,
}

/// What one producer deposit attempt did.
#[derive(Clone, Copy, Debug, PartialEq, Eq, Structural)]
pub enum DepositOutcome {
    /// The value was stored; the second component of the step says whether a
    /// registered waker must now be woken.
    Stored,
    /// The previous value has not been drained: the producer must wait on the
    /// condition variable and try again.  Nothing changed.
    MustWait,
}

/// What one poll of the stream yields.
pub enum StreamPoll {
    /// No event is available yet; the task's waker stays registered.
    Pending,
    /// The next event, in delivery order.
    Item(EventRecordOwned),
    /// The stream has ended; every further poll also yields this.
    Done,
}

/// The single-slot stream bridge state machine.
pub struct EtwEventAsyncStream {
    slot: StreamSlot,
    waker_registered: bool,
    offered: Ghost<Seq<EventRecordView>>,
    consumed: Ghost<Seq<EventRecordView>>,
}

impl EtwEventAsyncStream {
    /// Every event the producer has deposited, in order.
    pub closed spec fn offered(self) -> Seq<EventRecordView> {
        self.offered@
    }

    /// Every event a poll has yielded, in order.
    pub closed spec fn consumed(self) -> Seq<EventRecordView> {
        self.consumed@
    }

    /// The event in the slot, if the slot holds one.
    pub closed spec fn in_flight(self) -> Option<EventRecordView> {
        match self.slot {
            StreamSlot::Full(e) => Some(e@),
            _ => None,
        }
    }

    /// Whether the end-of-stream marker has been deposited.
    pub closed spec fn ended(self) -> bool {
        self.slot is End
    }

    /// Whether a consumer task waker is registered.
    pub closed spec fn waker_registered(self) -> bool {
        self.waker_registered
    }

    /// The bridge invariant: the histories differ by exactly the slot's
    /// content.
    pub closed spec fn wf(self) -> bool {
        match self.slot {
            StreamSlot::Full(e) => self.offered@ == self.consumed@.push(e@),
            _ => self.offered@ == self.consumed@,
        }
    }

    /// A fresh stream bridge: empty slot, no waker, empty histories.
    pub fn new() -> (r: EtwEventAsyncStream)
        ensures
            r.wf(),
            r.offered() == Seq::<EventRecordView>::empty(),
            r.consumed() == Seq::<EventRecordView>::empty(),
            r.in_flight() is None,
            !r.ended(),
            !r.waker_registered(),
    {
        EtwEventAsyncStream {
            slot: StreamSlot::Empty,
            waker_registered: false,
            offered: Ghost(Seq::empty()),
            consumed: Ghost(Seq::empty()),
        }
    }

    /// The producer deposits the next event.
    ///
    /// If the previous value has not been drained the producer must wait —
    /// this is the variant's backpressure: the producer never overwrites, so
    /// at most one event is ever in flight.  On success the returned flag
    /// says whether a registered waker must be woken.
    pub fn on_event(&mut self, evt: &EventRecordOwned) -> (r: (DepositOutcome, bool))
        requires
            old(self).wf(),
            evt@.flag_consistent(),
        ensures
            final(self).wf(),
            final(self).consumed() == old(self).consumed(),
            final(self).waker_registered() == old(self).waker_registered(),
            r.1 == old(self).waker_registered(),
            if old(self).in_flight() is None && !old(self).ended() {
                &&& r.0 is Stored
                &&& final(self).offered() == old(self).offered().push(evt@)
                &&& final(self).in_flight() == Some(evt@)
                &&& !final(self).ended()
            } else {
                &&& r.0 is MustWait
                &&& final(self).offered() == old(self).offered()
                &&& final(self).in_flight() == old(self).in_flight()
                &&& final(self).ended() == old(self).ended()
            },
    {
        match self.slot {
            StreamSlot::Empty => {
                self.slot = StreamSlot::Full(evt.deep_copy());
                proof {
                    lemma_consistent_flag_normalized(evt@);
                    self.offered@ = self.offered@.push(evt@);
                }
                (DepositOutcome::Stored, self.waker_registered)
            },
            _ => (DepositOutcome::MustWait, self.waker_registered),
        }
    }

    /// The producer deposits the end-of-stream marker once the dispatch loop
    /// has completed.  Like an event, it must wait for the slot to drain.
    pub fn complete(&mut self) -> (r: DepositOutcome)
        requires
            old(self).wf(),
        ensures
            final(self).wf(),
            final(self).offered() == old(self).offered(),
            final(self).consumed() == old(self).consumed(),
            final(self).waker_registered() == old(self).waker_registered(),
            if old(self).in_flight() is None {
                &&& r is Stored
                &&& final(self).ended()
                &&& final(self).in_flight() is None
            } else {
                &&& r is MustWait
                &&& final(self).in_flight() == old(self).in_flight()
                &&& final(self).ended() == old(self).ended()
            },
    {
        match self.slot {
            StreamSlot::Empty => {
                self.slot = StreamSlot::End;
                DepositOutcome::Stored
            },
            StreamSlot::End => DepositOutcome::Stored,
            StreamSlot::Full(_) => DepositOutcome::MustWait,
        }
    }

    /// One poll by the consumer's task: the current waker is recorded, and
    /// the slot decides — empty means not ready yet, the end marker means the
    /// stream is over, and an event is taken, clearing the slot (which is
    /// what lets a waiting producer proceed).
    pub fn poll_next(&mut self) -> (r: StreamPoll)
        requires
            old(self).wf(),
        ensures
            final(self).wf(),
            final(self).offered() == old(self).offered(),
            final(self).waker_registered(),
            final(self).ended() == old(self).ended(),
            match old(self).in_flight() {
                Some(e) => {
                    &&& r matches StreamPoll::Item(rec) && rec@ == e
                    &&& final(self).consumed() == old(self).consumed().push(e)
                    &&& final(self).in_flight() is None
                },
                None => {
                    &&& if old(self).ended() {
                        r is Done
                    } else {
                        r is Pending
                    }
                    &&& final(self).consumed() == old(self).consumed()
                },
            },
    {
        self.waker_registered = true;
        let mut taken = StreamSlot::Empty;
        core::mem::swap(&mut self.slot, &mut taken);
        match taken {
            StreamSlot::Empty => StreamPoll::Pending,
            StreamSlot::End => {
                self.slot = StreamSlot::End;
                StreamPoll::Done
            },
            StreamSlot::Full(rec) => {
                proof {
                    self.consumed@ = self.consumed@.push(rec@);
                }
                StreamPoll::Item(rec)
            },
        }
    }
}

/// At most one event is ever in flight through the stream's slot.
pub proof fn lemma_stream_at_most_one_in_flight(b: EtwEventAsyncStream)
    requires
        b.wf(),
    ensures
        b.consumed().len() <= b.offered().len() <= b.consumed().len() + 1,
        b.offered().len() == b.consumed().len() + 1 ==> b.in_flight() is Some,
{
}

/// Polls yield events in exactly the order the producer deposited them.
pub proof fn lemma_stream_order_preservation(b: EtwEventAsyncStream)
    requires
        b.wf(),
    ensures
        b.consumed() == b.offered().take(b.consumed().len() as int),
        forall|i: int| 0 <= i < b.consumed().len() ==> b.consumed()[i] == b.offered()[i],
{
    match b.in_flight() {
        Some(_) => {
            assert(b.offered().take(b.consumed().len() as int) =~= b.consumed());
        },
        None => {
            assert(b.offered().take(b.consumed().len() as int) =~= b.consumed());
        },
    }
}

/// Once the end marker is deposited nothing is in flight: the stream ends
/// only after every delivered event has been drained, and the `ensures` of
/// [`EtwEventAsyncStream::on_event`] guarantees no event is deposited after
/// it.
pub proof fn lemma_stream_end_is_final(b: EtwEventAsyncStream)
    requires
        b.wf(),
        b.ended(),
    ensures
        b.in_flight() is None,
        b.offered() == b.consumed(),
{
}

} // verus!
