//! The abstract single-slot delivery protocol.
//!
//! Every bridge variant implements the same handoff contract: the producer
//! offers one event, blocks until the consumer has taken responsibility for
//! it, learns the consumer's continue/stop decision before the offer call
//! returns, and treats a stop decision as cancellation, not failure.  This
//! module is that contract as an executable state machine: each operation is
//! one step a real mechanism serializes, and the ghost histories record every
//! event offered and every event consumed.
//!
//! The laws proved here hold for any sequence of steps:
//!
//! - at most one event is ever in flight
//!   ([`lemma_at_most_one_in_flight`]);
//! - the consumer observes events in exactly the order the producer offered
//!   them ([`lemma_order_preservation`]);
//! - once the consumer has decided to stop, nothing is in flight and no
//!   further event is ever delivered ([`lemma_cancellation_stops_delivery`]
//!   together with the `ensures` of [`BridgeProtocol::offer`] and
//!   [`BridgeProtocol::take`]).

use vstd::prelude::*;

use crate::event_record::{EventRecordOwned, EventRecordView, lemma_consistent_flag_normalized};
use crate::status::{DeliverDecision, DeliverResult, TraceError, decision_to_deliver_result,
    spec_decision_result};

verus! {

/// Which step of the handoff the bridge is in.
#[derive(Clone, Copy, Debug, PartialEq, Eq, Structural)]
pub enum BridgePhase {
    /// No event in flight; the producer may offer.
    Idle,
    /// An event sits in the slot awaiting the consumer.
    InFlight,
    /// The consumer took the event and is running its decision function.
    Deciding,
    /// The consumer replied; the producer has yet to collect the decision.
    Replied,
    /// The consumer decided to stop; no further event may be delivered.
    Stopped,
    /// The consumer side was dropped without an explicit stop.
    Disconnected,
}

/// What one offer attempt did.
#[derive(Clone, Copy, Debug, PartialEq, Eq, Structural)]
pub enum OfferOutcome {
    /// The event was placed in the slot.
    Accepted,
    /// A previous delivery has not been acknowledged yet: the producer must
    /// block until it is, delivering nothing now.
    MustWait,
    /// The bridge can no longer deliver; the error says why.
    Rejected(TraceError),
}

/// The single-slot delivery protocol, with its full history as ghost state.
pub struct BridgeProtocol {
    phase: BridgePhase,
    slot: Option<EventRecordOwned>,
    reply: Option<DeliverDecision>,
    terminal: Option<TraceError>,
    offered: Ghost<Seq<EventRecordView>>,
    consumed: Ghost<Seq<EventRecordView>>,
}

impl BridgeProtocol {
    /// Every event the producer has successfully offered, in order.
    pub closed spec fn offered(self) -> Seq<EventRecordView> {
        self.offered@
    }

    /// Every event the consumer has taken, in order.
    pub closed spec fn consumed(self) -> Seq<EventRecordView> {
        self.consumed@
    }

    /// The event sitting in the slot, if any.
    pub closed spec fn in_flight(self) -> Option<EventRecordView> {
        match self.slot {
            Some(e) => Some(e@),
            None => None,
        }
    }

    /// Which step of the handoff the bridge is in.
    pub closed spec fn phase(self) -> BridgePhase {
        self.phase
    }

    /// The decision the consumer has replied with but the producer has not
    /// collected yet.
    pub closed spec fn pending_reply(self) -> Option<DeliverDecision> {
        self.reply
    }

    /// The terminal status deposited when the session completed, if any.
    pub closed spec fn terminal(self) -> Option<TraceError> {
        self.terminal
    }

    /// The protocol invariant: the slot is full exactly in the in-flight
    /// phase, a reply is pending exactly in the replied phase, and the
    /// histories differ by exactly the slot's content.
    pub closed spec fn wf(self) -> bool {
        &&& (self.slot is Some <==> self.phase is InFlight)
        &&& (self.reply is Some <==> self.phase is Replied)
        &&& match self.slot {
            Some(e) => self.offered@ == self.consumed@.push(e@),
            None => self.offered@ == self.consumed@,
        }
    }

    /// A fresh bridge: idle, with empty histories.
    pub fn new() -> (r: BridgeProtocol)
        ensures
            r.wf(),
            r.phase() is Idle,
            r.offered() == Seq::<EventRecordView>::empty(),
            r.consumed() == Seq::<EventRecordView>::empty(),
            r.terminal() is None,
    {
        BridgeProtocol {
            phase: BridgePhase::Idle,
            slot: None,
            reply: None,
            terminal: None,
            offered: Ghost(Seq::empty()),
            consumed: Ghost(Seq::empty()),
        }
    }

    /// The producer offers one event.
    ///
    /// Only an idle bridge accepts: an unacknowledged delivery makes the
    /// producer wait, a stopped bridge rejects with the cancellation status,
    /// and a disconnected bridge rejects with the unexpected status.  A
    /// rejected or waiting offer delivers nothing and changes nothing.
    pub fn offer(&mut self, evt: &EventRecordOwned) -> (r: OfferOutcome)
        requires
            old(self).wf(),
            evt@.flag_consistent(),
        ensures
            final(self).wf(),
            final(self).terminal() == old(self).terminal(),
            final(self).consumed() == old(self).consumed(),
            match old(self).phase() {
                BridgePhase::Idle => {
                    &&& r is Accepted
                    &&& final(self).phase() is InFlight
                    &&& final(self).offered() == old(self).offered().push(evt@)
                    &&& final(self).in_flight() == Some(evt@)
                },
                BridgePhase::Stopped => {
                    &&& r == OfferOutcome::Rejected(TraceError::Cancelled)
                    &&& final(self).phase() == old(self).phase()
                    &&& final(self).offered() == old(self).offered()
                },
                BridgePhase::Disconnected => {
                    &&& r == OfferOutcome::Rejected(TraceError::Unexpected)
                    &&& final(self).phase() == old(self).phase()
                    &&& final(self).offered() == old(self).offered()
                },
                _ => {
                    &&& r is MustWait
                    &&& final(self).phase() == old(self).phase()
                    &&& final(self).offered() == old(self).offered()
                },
            },
    {
        match self.phase {
            BridgePhase::Idle => {
                self.slot = Some(evt.deep_copy());
                self.phase = BridgePhase::InFlight;
                proof {
                    lemma_consistent_flag_normalized(evt@);
                    self.offered@ = self.offered@.push(evt@);
                }
                OfferOutcome::Accepted
            },
            BridgePhase::Stopped => OfferOutcome::Rejected(TraceError::Cancelled),
            BridgePhase::Disconnected => OfferOutcome::Rejected(TraceError::Unexpected),
            _ => OfferOutcome::MustWait,
        }
    }

    /// The consumer takes the event in flight, if there is one.  Taking is
    /// what moves an event from the offered history into the consumed
    /// history; in any other phase nothing is delivered and nothing changes.
    pub fn take(&mut self) -> (r: Option<EventRecordOwned>)
        requires
            old(self).wf(),
        ensures
            final(self).wf(),
            final(self).offered() == old(self).offered(),
            final(self).terminal() == old(self).terminal(),
            match old(self).in_flight() {
                Some(e) => {
                    &&& r matches Some(rec) && rec@ == e
                    &&& final(self).phase() is Deciding
                    &&& final(self).consumed() == old(self).consumed().push(e)
                },
                None => {
                    &&& r is None
                    &&& final(self).phase() == old(self).phase()
                    &&& final(self).consumed() == old(self).consumed()
                },
            },
    {
        let taken = self.slot.take();
        match taken {
            Some(rec) => {
                self.phase = BridgePhase::Deciding;
                proof {
                    self.consumed@ = self.consumed@.push(rec@);
                }
                Some(rec)
            },
            None => None,
        }
    }

    /// The consumer communicates its decision on the event it took.  The
    /// decision is made available to the producer before the offer call can
    /// return, because the transient view's memory is invalidated as soon as
    /// it does.
    pub fn decide(&mut self, keep_going: bool)
        requires
            old(self).wf(),
            old(self).phase() is Deciding,
        ensures
            final(self).wf(),
            final(self).phase() is Replied,
            final(self).pending_reply() == Some(
                if keep_going {
                    DeliverDecision::Continue
                } else {
                    DeliverDecision::Stop
                },
            ),
            final(self).offered() == old(self).offered(),
            final(self).consumed() == old(self).consumed(),
            final(self).terminal() == old(self).terminal(),
    {
        self.reply = Some(
            if keep_going {
                DeliverDecision::Continue
            } else {
                DeliverDecision::Stop
            },
        );
        self.phase = BridgePhase::Replied;
    }

    /// The producer collects the consumer's decision; this is the value its
    /// deliver call returns to the dispatch loop.  A stop decision yields the
    /// cancellation status and stops the bridge for good.
    pub fn collect(&mut self) -> (r: DeliverResult)
        requires
            old(self).wf(),
            old(self).phase() is Replied,
        ensures
            final(self).wf(),
            old(self).pending_reply() matches Some(d) && r == spec_decision_result(d),
            final(self).phase() == (if r is Ok {
                BridgePhase::Idle
            } else {
                BridgePhase::Stopped
            }),
            final(self).offered() == old(self).offered(),
            final(self).consumed() == old(self).consumed(),
            final(self).terminal() == old(self).terminal(),
    {
        let d = self.reply.take().unwrap();
        let r = decision_to_deliver_result(d);
        self.phase = if r.is_ok() {
            BridgePhase::Idle
        } else {
            BridgePhase::Stopped
        };
        r
    }

    /// The consumer side is dropped without an explicit stop.  Any event
    /// still in flight is discarded unread; every later offer is rejected as
    /// unexpected.
    pub fn disconnect(&mut self)
        requires
            old(self).wf(),
        ensures
            final(self).wf(),
            final(self).phase() is Disconnected,
            final(self).consumed() == old(self).consumed(),
            final(self).terminal() == old(self).terminal(),
            final(self).offered() == match old(self).in_flight() {
                Some(_) => old(self).consumed(),
                None => old(self).offered(),
            },
    {
        let dropped = self.slot.take();
        proof {
            if dropped is Some {
                self.offered@ = self.consumed@;
            }
        }
        self.reply = None;
        self.phase = BridgePhase::Disconnected;
    }

    /// The dispatch loop has completed: the producer deposits the terminal
    /// status, exactly once, so a consumer blocked waiting for the next event
    /// can observe session termination instead.
    pub fn complete(&mut self, status: TraceError)
        requires
            old(self).wf(),
            old(self).terminal() is None,
        ensures
            final(self).wf(),
            final(self).terminal() == Some(status),
            final(self).phase() == old(self).phase(),
            final(self).offered() == old(self).offered(),
            final(self).consumed() == old(self).consumed(),
    {
        self.terminal = Some(status);
    }

    /// The consumer observes the terminal status, if the session has
    /// completed.
    pub fn observe_terminal(&self) -> (r: Option<TraceError>)
        ensures
            r == self.terminal(),
    {
        self.terminal
    }

    /// Reads which step of the handoff the bridge is in.
    pub fn current_phase(&self) -> (r: BridgePhase)
        ensures
            r == self.phase(),
    {
        self.phase
    }
}

/// At most one event is ever in flight: between two acknowledged deliveries
/// the offered and consumed histories differ by at most the single slot.
pub proof fn lemma_at_most_one_in_flight(b: BridgeProtocol)
    requires
        b.wf(),
    ensures
        b.consumed().len() <= b.offered().len() <= b.consumed().len() + 1,
        b.offered().len() == b.consumed().len() + 1 ==> b.in_flight() is Some,
{
}

/// Order preservation: the consumed history is a prefix of the offered
/// history, so the consumer observes events in exactly the order the producer
/// offered them.
pub proof fn lemma_order_preservation(b: BridgeProtocol)
    requires
        b.wf(),
    ensures
        b.consumed() == b.offered().take(b.consumed().len() as int),
        forall|i: int| 0 <= i < b.consumed().len() ==> b.consumed()[i] == b.offered()[i],
{
    match b.in_flight() {
        Some(_) => {
            assert(b.offered().take(b.consumed().len() as int) =~= b.consumed());
        },
        None => {
            assert(b.offered().take(b.consumed().len() as int) =~= b.consumed());
        },
    }
}

/// Cancellation stops delivery: once the bridge is stopped, nothing is in
/// flight, and the `ensures` of [`BridgeProtocol::offer`] and
/// [`BridgeProtocol::take`] guarantee that every later offer is rejected with
/// the cancellation status and that the consumed history never grows again.
pub proof fn lemma_cancellation_stops_delivery(b: BridgeProtocol)
    requires
        b.wf(),
        b.phase() is Stopped,
    ensures
        b.in_flight() is None,
        b.offered() == b.consumed(),
{
}

} // verus!
