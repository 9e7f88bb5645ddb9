//! The rendezvous channel bridge.
//!
//! A zero-capacity channel hands each event from the dispatch thread to a
//! blocking consumer thread; a single-slot channel carries the consumer's
//! continue/stop decision back before the delivery call returns; and a third
//! single-slot channel carries the terminal status.  An expect call waits
//! with a two-way select over the event and terminal channels, so a consumer
//! blocked on the next event observes session termination instead of
//! hanging.
//!
//! The channels are the ones of `crossbeam_channel`, reached through the
//! trusted wrappers at the bottom of this module; everything above them —
//! which status each outcome maps to, when the stop decision is sent, how the
//! pull-style iterator acknowledges — is verified.  The abstract protocol the
//! mechanism implements, with its ordering and cancellation laws, is
//! [`crate::protocol::BridgeProtocol`].

use vstd::prelude::*;

use crate::event_record::{EventRecord, EventRecordOwned};
use crate::processtrace::EventConsumer;
use crate::status::{DeliverDecision, TraceError, decision_to_deliver_result, reply_decision,
    spec_reply_decision};

verus! {

/// The terminal status a consumer blocked on the next event observes once
/// the session has completed: a loop that ended cleanly reads as the
/// cancellation status, a loop that failed surfaces its error verbatim, and
/// a handoff channel found disconnected with no terminal status deposited is
/// the unexpected fault.
pub open spec fn spec_terminal_error(t: Option<Result<(), TraceError>>) -> TraceError {
    match t {
        None => TraceError::Unexpected,
        Some(Ok(())) => TraceError::Cancelled,
        Some(Err(e)) => e,
    }
}

/// Maps what the session-closed channel held to the error an expect call
/// returns; see [`spec_terminal_error`].
pub fn terminal_to_expect_error(t: Option<Result<(), TraceError>>) -> (e: TraceError)
    ensures
        e == spec_terminal_error(t),
{
    match t {
        None => TraceError::Unexpected,
        Some(Ok(())) => TraceError::Cancelled,
        Some(Err(err)) => err,
    }
}

/// The apply-decide step of an expect call: runs the decision function on
/// the event just received and forms the reply that is handed back to the
/// blocked producer — continue exactly when the function returned true on
/// that event.  [`crate::status::lemma_stop_decision_is_cancellation`] then
/// gives the producer's side: a stop reply makes its delivery report the
/// cancellation status, which tells the dispatch loop to tear down, so no
/// later event is delivered.
pub fn apply_decision<F: FnOnce(EventRecord<'static>) -> bool>(rec: EventRecordOwned, f: F) -> (d:
    DeliverDecision)
    requires
        forall|e: EventRecord<'static>| call_requires(f, (e,)),
    ensures
        exists|v: EventRecord<'static>, b: bool|
            (#[trigger] call_ensures(f, (v,), b)) && !v.is_serialized() && v.record_view() == rec@
                && d == spec_reply_decision(b),
{
    let view = EventRecord::Owned(rec);
    let ghost gv = view;
    let keep_going = f(view);
    proof {
        assert(call_ensures(f, (gv,), keep_going));
    }
    reply_decision(keep_going)
}

/// The producer half of the rendezvous bridge: what the dispatch thread
/// calls once per event.
pub struct CrossbeamChannelConsumer {
    tx: crossbeam_channel::Sender<EventRecordOwned>,
    callback_rx: crossbeam_channel::Receiver<DeliverDecision>,
    session_closed_tx: crossbeam_channel::Sender<Result<(), TraceError>>,
}

impl CrossbeamChannelConsumer {
    /// Delivers one event: hands an owned copy across the rendezvous channel
    /// — blocking until the consumer thread has taken responsibility for it —
    /// then blocks receiving the consumer's decision, which becomes this
    /// call's status: continue is success, stop is the cancellation status,
    /// and a disconnected channel on either leg is the unexpected fault.
    pub fn deliver(&self, evt: &EventRecordOwned) -> (r: Result<(), TraceError>)
        ensures
            r is Ok || r == Result::<(), TraceError>::Err(TraceError::Cancelled) || r
                == Result::<(), TraceError>::Err(TraceError::Unexpected),
    {
        let sent = channel_send(&self.tx, evt.deep_copy());
        if sent.is_err() {
            return Err(TraceError::Unexpected);
        }
        match channel_recv(&self.callback_rx) {
            Some(decision) => decision_to_deliver_result(decision),
            None => Err(TraceError::Unexpected),
        }
    }

    /// Deposits the dispatch loop's result in the session-closed channel, so
    /// a consumer blocked waiting for the next event observes termination.
    pub fn complete_with(&self, result: Result<(), TraceError>) {
        let _ = channel_send(&self.session_closed_tx, result);
    }
}

impl EventConsumer for CrossbeamChannelConsumer {
    fn on_event(&mut self, evt: &EventRecordOwned) -> Result<(), TraceError> {
        self.deliver(evt)
    }

    fn complete(&mut self, result: Result<(), TraceError>) {
        self.complete_with(result);
    }
}

/// The consumer half of the rendezvous bridge: a blocking expect-next-event
/// call and a pull-style iterator, both fed by the dispatch thread one event
/// at a time.
pub struct EtwEventWaiter {
    rx: crossbeam_channel::Receiver<EventRecordOwned>,
    callback_tx: crossbeam_channel::Sender<DeliverDecision>,
    session_closed_rx: crossbeam_channel::Receiver<Result<(), TraceError>>,
    consumer: Option<CrossbeamChannelConsumer>,
}

impl EtwEventWaiter {
    /// Whether the producer half has not been taken yet.
    pub closed spec fn has_consumer(self) -> bool {
        self.consumer is Some
    }

    /// Builds the bridge: a zero-capacity rendezvous channel for events, a
    /// single-slot channel for decisions, and a single-slot channel for the
    /// terminal status.
    pub fn new() -> (r: EtwEventWaiter)
        ensures
            r.has_consumer(),
    {
        let (tx, rx) = channel_bounded::<EventRecordOwned>(0);
        let (callback_tx, callback_rx) = channel_bounded::<DeliverDecision>(1);
        let (session_closed_tx, session_closed_rx) = channel_bounded::<Result<(), TraceError>>(1);
        EtwEventWaiter {
            rx,
            callback_tx,
            session_closed_rx,
            consumer: Some(CrossbeamChannelConsumer { tx, callback_rx, session_closed_tx }),
        }
    }

    /// Takes the producer half, to be bound to a trace as its consumer
    /// callback.  It exists exactly once; taking it twice is a programming
    /// error, excluded by precondition.
    pub fn get_consumer(&mut self) -> (r: CrossbeamChannelConsumer)
        requires
            old(self).has_consumer(),
        ensures
            !final(self).has_consumer(),
    {
        self.consumer.take().unwrap()
    }

    /// Waits — a two-way select — for either the next event or the session's
    /// terminal status.
    ///
    /// On an event, the decision function runs on it and the reply formed by
    /// [`apply_decision`] — continue exactly when the function returned true
    /// on that event — is handed back to the blocked producer; the consumer's
    /// own stop decision is not an error to the consumer, only to the
    /// producer's deliver call.  On termination, the terminal status is
    /// returned as this call's error; see [`spec_terminal_error`].
    pub fn expect_event<F: FnOnce(EventRecord<'static>) -> bool>(&self, f: F) -> (r: Result<
        (),
        TraceError,
    >)
        requires
            forall|e: EventRecord<'static>| call_requires(f, (e,)),
        ensures
            r is Ok ==> exists|v: EventRecord<'static>, b: bool|
                (#[trigger] call_ensures(f, (v,), b)) && !v.is_serialized(),
    {
        match select_event_or_closed(&self.rx, &self.session_closed_rx) {
            SelectOutcome::Event(rec) => {
                let decision = apply_decision(rec, f);
                match channel_send(&self.callback_tx, decision) {
                    Ok(()) => Ok(()),
                    Err(_) => Err(TraceError::Unexpected),
                }
            },
            SelectOutcome::Closed(status) => Err(terminal_to_expect_error(Some(status))),
            SelectOutcome::EventsDisconnected => {
                // The producer vanished: surface a terminal status it may
                // have deposited before going away.
                let terminal = channel_try_recv(&self.session_closed_rx);
                Err(terminal_to_expect_error(terminal))
            },
            SelectOutcome::ClosedDisconnected => {
                // The terminal channel is gone but events may still flow:
                // fall back to a plain blocking receive.
                match channel_recv(&self.rx) {
                    Some(rec) => {
                        let decision = apply_decision(rec, f);
                        match channel_send(&self.callback_tx, decision) {
                            Ok(()) => Ok(()),
                            Err(_) => Err(TraceError::Unexpected),
                        }
                    },
                    None => Err(TraceError::Unexpected),
                }
            },
        }
    }

    /// Turns the waiter into a pull-style iterator that automatically replies
    /// "continue" for every event pulled.
    pub fn into_iter(self) -> (r: EtwEventIter)
        ensures
            !r.ack_pending(),
    {
        EtwEventIter { rx: self.rx, callback_tx: self.callback_tx, next: false }
    }
}

impl Default for EtwEventWaiter {
    /// Builds the bridge; see [`EtwEventWaiter::new`].
    fn default() -> (r: EtwEventWaiter)
        ensures
            r.has_consumer(),
    {
        EtwEventWaiter::new()
    }
}

/// A pull-style sequence of events: each pull acknowledges the previous
/// event with "continue" — un-blocking the producer — and then waits for the
/// next one.  Dropping the iterator without a further pull is the consumer
/// vanishing, which the producer observes as a disconnection.
pub struct EtwEventIter {
    rx: crossbeam_channel::Receiver<EventRecordOwned>,
    callback_tx: crossbeam_channel::Sender<DeliverDecision>,
    next: bool,
}

impl EtwEventIter {
    /// Whether the previously pulled event still awaits its acknowledgement.
    pub closed spec fn ack_pending(self) -> bool {
        self.next
    }

    /// Pulls the next event: acknowledges the previous one — the
    /// acknowledgement is the continue reply, `spec_reply_decision(true)`,
    /// un-blocking that delivery as a success — then blocks for the next
    /// delivery.  `None` means the session has terminated.
    pub fn next_event(&mut self) -> (r: Option<EventRecordOwned>)
        ensures
            final(self).ack_pending() == (r is Some),
    {
        if self.next {
            let ack = reply_decision(true);
            let _ = channel_send(&self.callback_tx, ack);
            self.next = false;
        }
        match channel_recv(&self.rx) {
            Some(rec) => {
                self.next = true;
                Some(rec)
            },
            None => None,
        }
    }
}

/// What a two-way wait on the event and session-closed channels yielded.
enum SelectOutcome {
    /// The next event.
    Event(EventRecordOwned),
    /// The deposited terminal status.
    Closed(Result<(), TraceError>),
    /// The event channel is disconnected.
    EventsDisconnected,
    /// The session-closed channel is disconnected.
    ClosedDisconnected,
}

/// The sent half of a crossbeam channel.
#[verifier::external_type_specification]
#[verifier::external_body]
#[verifier::reject_recursive_types(T)]
pub struct ExSender<T>(crossbeam_channel::Sender<T>);

/// The receiving half of a crossbeam channel.
#[verifier::external_type_specification]
#[verifier::external_body]
#[verifier::reject_recursive_types(T)]
pub struct ExReceiver<T>(crossbeam_channel::Receiver<T>);

/// Relies on `crossbeam_channel::bounded`: a channel that can hold at most
/// the given number of messages; capacity zero makes every send a rendezvous
/// that blocks until a receive operation appears on the other side.
#[verifier::external_body]
fn channel_bounded<T>(cap: usize) -> (r: (
    crossbeam_channel::Sender<T>,
    crossbeam_channel::Receiver<T>,
))
{
    crossbeam_channel::bounded(cap)
}

/// Relies on `crossbeam_channel::Sender::send`: blocks until a receiver
/// accepts the message (for a zero-capacity channel, until a receive
/// operation appears on the other side) or every receiver is gone, in which
/// case the original message comes back as the error.
#[verifier::external_body]
fn channel_send<T>(tx: &crossbeam_channel::Sender<T>, value: T) -> (r: Result<(), T>)
    ensures
        r matches Err(v) ==> v == value,
{
    tx.send(value).map_err(|e| e.0)
}

/// Relies on `crossbeam_channel::Receiver::recv`: blocks until a message
/// arrives, or returns nothing once the channel is empty and every sender is
/// gone.
#[verifier::external_body]
fn channel_recv<T>(rx: &crossbeam_channel::Receiver<T>) -> (r: Option<T>)
{
    rx.recv().ok()
}

/// Relies on `crossbeam_channel::Receiver::try_recv`: takes a waiting
/// message if there is one, never blocking.
#[verifier::external_body]
fn channel_try_recv<T>(rx: &crossbeam_channel::Receiver<T>) -> (r: Option<T>)
{
    rx.try_recv().ok()
}

/// Relies on `crossbeam_channel::Select` (`Select::recv`, `Select::select`,
/// `SelectedOperation::recv`): blocks until one of the two channels can
/// deliver, then receives from the selected one; a selected channel found
/// disconnected is reported as such.
#[verifier::external_body]
fn select_event_or_closed(
    events: &crossbeam_channel::Receiver<EventRecordOwned>,
    closed: &crossbeam_channel::Receiver<Result<(), TraceError>>,
) -> (r: SelectOutcome)
{
    let mut sel = crossbeam_channel::Select::new();
    let events_index = sel.recv(events);
    sel.recv(closed);
    let op = sel.select();
    if op.index() == events_index {
        match op.recv(events) {
            Ok(evt) => SelectOutcome::Event(evt),
            Err(_) => SelectOutcome::EventsDisconnected,
        }
    } else {
        match op.recv(closed) {
            Ok(status) => SelectOutcome::Closed(status),
            Err(_) => SelectOutcome::ClosedDisconnected,
        }
    }
}

} // verus!
