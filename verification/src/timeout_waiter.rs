//! The direct timeout bridge.
//!
//! No channel at all: the consumer registers interest in exactly the next
//! event, and the producer's callback runs the consumer's decision function
//! directly against the transient view, inside the OS callback.  Both sides
//! wait with a bounded timeout — the producer for a registration to appear,
//! the consumer for the callback to complete — and an expired wait is a
//! distinct, fatal error rather than a hang.
//!
//! This module is the two-phase handshake as a state machine.  The mutex, the
//! two condition variables and the clock live with the embedding application
//! code; each bounded wait's outcome (signalled in time, or expired) enters
//! the machine as an argument.

use vstd::prelude::*;

use crate::event_record::{EventRecord, EventRecordOwned};
use crate::status::TraceError;

verus! {

/// What the producer's callback did with one event.
#[derive(Clone, Copy, Debug, PartialEq, Eq, Structural)]
pub enum DirectDeliverOutcome {
    /// The registered decision function ran and chose to continue.
    Continue,
    /// The registered decision function ran and chose to stop: the delivery
    /// reports the cancellation status.
    Cancelled,
    /// No registration appeared within the bounded wait: the delivery fails
    /// with the timeout status.
    TimedOut,
    /// No registration has appeared but the bound has not expired: the
    /// producer keeps waiting.  Nothing changed.
    NotReady,
}

/// The direct timeout bridge state machine.
///
/// Exactly one outstanding expect call is permitted at a time; registering a
/// second concurrently is a programming error, excluded here by the
/// precondition of [`EtwEventAsyncWaiterWithTimeout::register`].
pub struct EtwEventAsyncWaiterWithTimeout {
    ready_for_next_event: bool,
    callback_completed: bool,
}

impl EtwEventAsyncWaiterWithTimeout {
    /// Whether a consumer registration is outstanding.
    pub closed spec fn registered(self) -> bool {
        self.ready_for_next_event
    }

    /// Whether the producer has run the decision function and signalled
    /// completion, not yet observed by the consumer.
    pub closed spec fn completed(self) -> bool {
        self.callback_completed
    }

    /// Whether completion has been signalled; the embedding code tests this
    /// when its bounded wait wakes, so a spurious wakeup goes back to
    /// waiting instead of being misread as a timeout.
    pub fn has_completed(&self) -> (r: bool)
        ensures
            r == self.completed(),
    {
        self.callback_completed
    }

    /// A fresh bridge: no registration, no completion.
    pub fn new() -> (r: EtwEventAsyncWaiterWithTimeout)
        ensures
            !r.registered(),
            !r.completed(),
    {
        EtwEventAsyncWaiterWithTimeout { ready_for_next_event: false, callback_completed: false }
    }

    /// First phase of an expect call: the consumer registers interest in the
    /// next event and notifies the producer's condition variable.
    ///
    /// At most one expect call may be outstanding; a concurrent second
    /// registration is a programming error, excluded by precondition here.
    pub fn register(&mut self)
        requires
            !old(self).registered(),
        ensures
            final(self).registered(),
            final(self).completed() == old(self).completed(),
    {
        self.ready_for_next_event = true;
    }

    /// The producer's callback delivers one event.
    ///
    /// If a registration is outstanding, the decision function runs directly
    /// against the transient view and completion is signalled.  Otherwise the
    /// producer has been waiting for a registration: an expired bound is the
    /// timeout error, an unexpired one keeps it waiting.
    pub fn on_event<F: FnOnce(&EventRecord) -> bool>(
        &mut self,
        evt: &EventRecordOwned,
        f: F,
        wait_expired: bool,
    ) -> (r: DirectDeliverOutcome)
        requires
            forall|e: &EventRecord| call_requires(f, (e,)),
        ensures
            if old(self).registered() {
                &&& !final(self).registered()
                &&& final(self).completed()
                &&& (r is Continue || r is Cancelled)
                &&& exists|v: &EventRecord|
                    (#[trigger] call_ensures(f, (v,), r is Continue)) && !v.is_serialized()
                        && v.record_view() == evt@
            } else {
                &&& *final(self) == *old(self)
                &&& if wait_expired {
                    r is TimedOut
                } else {
                    r is NotReady
                }
            },
    {
        if self.ready_for_next_event {
            self.ready_for_next_event = false;
            let view = EventRecord::Transient(evt);
            let keep_going = f(&view);
            self.callback_completed = true;
            proof {
                assert(call_ensures(f, (&view,), keep_going));
            }
            if keep_going {
                DirectDeliverOutcome::Continue
            } else {
                DirectDeliverOutcome::Cancelled
            }
        } else if wait_expired {
            DirectDeliverOutcome::TimedOut
        } else {
            DirectDeliverOutcome::NotReady
        }
    }

    /// Second phase of an expect call: the consumer waits, with the same
    /// bounded timeout, for the producer to signal completion.
    ///
    /// The bounded wait ends either because completion was signalled — even
    /// if it was signalled before the consumer began waiting — or because the
    /// bound expired; an expired wait is the timeout error, not a hang.
    pub fn await_completion(&mut self, wait_expired: bool) -> (r: Result<(), TraceError>)
        requires
            wait_expired || old(self).completed(),
        ensures
            final(self).registered() == old(self).registered(),
            !final(self).completed(),
            if old(self).completed() {
                r is Ok
            } else {
                r == Result::<(), TraceError>::Err(TraceError::Timeout)
            },
    {
        if self.callback_completed {
            self.callback_completed = false;
            Ok(())
        } else {
            Err(TraceError::Timeout)
        }
    }

    /// The status the producer's deliver call reports for one callback
    /// outcome: a stop decision is the cancellation status, an expired
    /// registration wait is the timeout status, and an event that found no
    /// registration yet is simply accepted once the wait says to proceed.
    pub fn outcome_status(r: DirectDeliverOutcome) -> (s: Result<(), TraceError>)
        requires
            !(r is NotReady),
        ensures
            r is Continue ==> s is Ok,
            r is Cancelled ==> s == Result::<(), TraceError>::Err(TraceError::Cancelled),
            r is TimedOut ==> s == Result::<(), TraceError>::Err(TraceError::Timeout),
    {
        match r {
            DirectDeliverOutcome::Continue => Ok(()),
            DirectDeliverOutcome::Cancelled => Err(TraceError::Cancelled),
            DirectDeliverOutcome::TimedOut => Err(TraceError::Timeout),
            DirectDeliverOutcome::NotReady => Err(TraceError::Unexpected),
        }
    }
}

} // verus!
