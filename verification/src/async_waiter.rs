//! The asynchronous channel bridge.
//!
//! The same single-slot contract as the rendezvous bridge, carried by a
//! zero-capacity channel into an asynchronous consumer task.  There is no
//! reply channel: the consumer signals stop by closing its end, and the
//! producer learns of it as a disconnection, which it reports as the
//! cancellation status rather than a fault.
//!
//! This module is the variant's decision structure as a state machine; the
//! real channel, the executor and the blocking bridge into it live with the
//! embedding application code, which performs one machine step per mechanism
//! step.

use vstd::prelude::*;

use crate::event_record::{EventRecord, EventRecordOwned, EventRecordView,
    lemma_consistent_flag_normalized};
use crate::status::TraceError;

verus! {

/// What one producer send attempt did.
#[derive(Clone, Copy, Debug, PartialEq, Eq, Structural)]
pub enum SendOutcome {
    /// The event was handed to the channel.
    Accepted,
    /// The previous event has not been received yet: the producer's send
    /// suspends.  Nothing changed.
    MustWait,
    /// The consumer closed or dropped its end: the delivery is cancelled.
    Closed,
}

/// The asynchronous channel bridge state machine.
pub struct EtwEventAsyncWaiter {
    slot: Option<EventRecordOwned>,
    open: bool,
    offered: Ghost<Seq<EventRecordView>>,
    consumed: Ghost<Seq<EventRecordView>>,
}

impl EtwEventAsyncWaiter {
    /// Every event the producer has handed to the channel, in order.
    pub closed spec fn offered(self) -> Seq<EventRecordView> {
        self.offered@
    }

    /// Every event the consumer has received, in order.
    pub closed spec fn consumed(self) -> Seq<EventRecordView> {
        self.consumed@
    }

    /// The event in the channel's slot, if any.
    pub closed spec fn in_flight(self) -> Option<EventRecordView> {
        match self.slot {
            Some(e) => Some(e@),
            None => None,
        }
    }

    /// Whether the consumer still holds its end open.
    pub closed spec fn is_open(self) -> bool {
        self.open
    }

    /// The bridge invariant: the histories differ by exactly the slot's
    /// content, and a closed channel holds nothing.
    pub closed spec fn wf(self) -> bool {
        &&& match self.slot {
            Some(e) => self.offered@ == self.consumed@.push(e@),
            None => self.offered@ == self.consumed@,
        }
        &&& !self.open ==> self.slot is None
    }

    /// A fresh bridge: open channel, empty slot, empty histories.
    pub fn new() -> (r: EtwEventAsyncWaiter)
        ensures
            r.wf(),
            r.is_open(),
            r.in_flight() is None,
            r.offered() == Seq::<EventRecordView>::empty(),
            r.consumed() == Seq::<EventRecordView>::empty(),
    {
        EtwEventAsyncWaiter {
            slot: None,
            open: true,
            offered: Ghost(Seq::empty()),
            consumed: Ghost(Seq::empty()),
        }
    }

    /// The producer hands the next event to the channel.  A closed channel
    /// cancels the delivery; an undrained slot suspends the producer and
    /// changes nothing.
    pub fn on_event(&mut self, evt: &EventRecordOwned) -> (r: SendOutcome)
        requires
            old(self).wf(),
            evt@.flag_consistent(),
        ensures
            final(self).wf(),
            final(self).consumed() == old(self).consumed(),
            final(self).is_open() == old(self).is_open(),
            if !old(self).is_open() {
                &&& r is Closed
                &&& final(self).offered() == old(self).offered()
                &&& final(self).in_flight() is None
            } else if old(self).in_flight() is Some {
                &&& r is MustWait
                &&& final(self).offered() == old(self).offered()
                &&& final(self).in_flight() == old(self).in_flight()
            } else {
                &&& r is Accepted
                &&& final(self).offered() == old(self).offered().push(evt@)
                &&& final(self).in_flight() == Some(evt@)
            },
    {
        if !self.open {
            SendOutcome::Closed
        } else if self.slot.is_some() {
            SendOutcome::MustWait
        } else {
            self.slot = Some(evt.deep_copy());
            proof {
                lemma_consistent_flag_normalized(evt@);
                self.offered@ = self.offered@.push(evt@);
            }
            SendOutcome::Accepted
        }
    }

    /// The consumer's task receives the next event, if one is in flight.
    pub fn receive(&mut self) -> (r: Option<EventRecordOwned>)
        requires
            old(self).wf(),
        ensures
            final(self).wf(),
            final(self).offered() == old(self).offered(),
            final(self).is_open() == old(self).is_open(),
            match old(self).in_flight() {
                Some(e) => {
                    &&& r matches Some(rec) && rec@ == e
                    &&& final(self).consumed() == old(self).consumed().push(e)
                    &&& final(self).in_flight() is None
                },
                None => {
                    &&& r is None
                    &&& final(self).consumed() == old(self).consumed()
                },
            },
    {
        let taken = self.slot.take();
        match taken {
            Some(rec) => {
                proof {
                    self.consumed@ = self.consumed@.push(rec@);
                }
                Some(rec)
            },
            None => None,
        }
    }

    /// The consumer closes its end: the stop signal of this variant.  Every
    /// later send is cancelled; an event still in flight is discarded unread.
    pub fn close(&mut self)
        requires
            old(self).wf(),
        ensures
            final(self).wf(),
            !final(self).is_open(),
            final(self).consumed() == old(self).consumed(),
            final(self).in_flight() is None,
            final(self).offered() == match old(self).in_flight() {
                Some(_) => old(self).consumed(),
                None => old(self).offered(),
            },
    {
        let dropped = self.slot.take();
        proof {
            if dropped is Some {
                self.offered@ = self.consumed@;
            }
        }
        self.open = false;
    }

    /// Receives the next event and applies the consumer's decision function
    /// to a transient view of it; a false decision closes the channel, which
    /// cancels every later delivery.  Returns the decision, or `None` when no
    /// event was in flight and the consumer's task must suspend.
    pub fn expect_event_step<F: FnOnce(&EventRecord) -> bool>(&mut self, f: F) -> (r: Option<
        bool,
    >)
        requires
            old(self).wf(),
            forall|e: &EventRecord| call_requires(f, (e,)),
        ensures
            final(self).wf(),
            final(self).offered() == old(self).offered(),
            match old(self).in_flight() {
                Some(e) => {
                    &&& final(self).consumed() == old(self).consumed().push(e)
                    &&& r matches Some(keep_going) && (final(self).is_open() <==> (keep_going
                        && old(self).is_open())) && exists|v: &EventRecord|
                        (#[trigger] call_ensures(f, (v,), keep_going)) && !v.is_serialized()
                            && v.record_view() == e
                },
                None => {
                    &&& r is None
                    &&& final(self).consumed() == old(self).consumed()
                    &&& final(self).is_open() == old(self).is_open()
                },
            },
    {
        match self.receive() {
            Some(rec) => {
                let view = EventRecord::Owned(rec);
                let keep_going = f(&view);
                proof {
                    assert(call_ensures(f, (&view,), keep_going));
                }
                if !keep_going {
                    self.close();
                }
                Some(keep_going)
            },
            None => None,
        }
    }

    /// The producer's send outcome, as the status its deliver call reports: a
    /// closed channel is the consumer's cancellation.
    pub fn send_outcome_status(r: SendOutcome) -> (s: Result<(), TraceError>)
        requires
            !(r is MustWait),
        ensures
            r is Accepted ==> s is Ok,
            r is Closed ==> s == Result::<(), TraceError>::Err(TraceError::Cancelled),
    {
        match r {
            SendOutcome::Accepted => Ok(()),
            SendOutcome::Closed => Err(TraceError::Cancelled),
            SendOutcome::MustWait => Err(TraceError::Unexpected),
        }
    }
}

/// At most one event is ever in flight through the channel.
pub proof fn lemma_async_at_most_one_in_flight(b: EtwEventAsyncWaiter)
    requires
        b.wf(),
    ensures
        b.consumed().len() <= b.offered().len() <= b.consumed().len() + 1,
        b.offered().len() == b.consumed().len() + 1 ==> b.in_flight() is Some,
{
}

/// The consumer receives events in exactly the order they were sent.
pub proof fn lemma_async_order_preservation(b: EtwEventAsyncWaiter)
    requires
        b.wf(),
    ensures
        b.consumed() == b.offered().take(b.consumed().len() as int),
        forall|i: int| 0 <= i < b.consumed().len() ==> b.consumed()[i] == b.offered()[i],
{
    assert(b.offered().take(b.consumed().len() as int) =~= b.consumed());
}

/// A closed channel delivers nothing: nothing is in flight, and the
/// `ensures` of [`EtwEventAsyncWaiter::on_event`] rejects every later send
/// with the cancellation outcome.
pub proof fn lemma_async_close_stops_delivery(b: EtwEventAsyncWaiter)
    requires
        b.wf(),
        !b.is_open(),
    ensures
        b.in_flight() is None,
        b.offered() == b.consumed(),
{
}

} // verus!
