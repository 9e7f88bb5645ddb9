//! The error and status taxonomy shared by every component.
//!
//! A consumer or the native dispatch loop reports its outcome as one of these
//! values.  The native status codes themselves are 32-bit values defined by
//! the operating system; they are carried verbatim in [`TraceError::Os`] and
//! never reinterpreted here.

use vstd::prelude::*;

verus! {

/// Why a delivery, a wait, or a whole session ended without a value.
#[derive(Clone, Copy, Debug, PartialEq, Eq, Structural)]
pub enum TraceError {
    /// The consumer explicitly declined to continue.  Expected termination,
    /// not a fault.
    Cancelled,
    /// A bounded wait (registration or completion) exceeded its deadline.
    Timeout,
    /// An internal handoff channel was found disconnected when it should not
    /// be.  Fatal to the session.
    Unexpected,
    /// The named session does not exist.
    NotFound,
    /// The native dispatch call itself failed; the 32-bit code is surfaced
    /// verbatim.
    Os(u32),
}

/// The consumer's verdict on one delivered event.
#[derive(Clone, Copy, Debug, PartialEq, Eq, Structural)]
pub enum DeliverDecision {
    /// Keep the session running and deliver the next event.
    Continue,
    /// Tear the session down; no further event may be delivered.
    Stop,
}

/// What the producer's `deliver` call reports back to the dispatch loop.
pub type DeliverResult = Result<(), TraceError>;

/// Translates the consumer's decision into the status that `deliver` returns
/// to the dispatch loop: a stop decision is a cancellation, not a fault.
pub fn decision_to_deliver_result(d: DeliverDecision) -> (r: DeliverResult)
    ensures
        r == spec_decision_result(d),
{
    match d {
        DeliverDecision::Continue => Ok(()),
        DeliverDecision::Stop => Err(TraceError::Cancelled),
    }
}

/// The mapping performed by [`decision_to_deliver_result`].
pub open spec fn spec_decision_result(d: DeliverDecision) -> DeliverResult {
    match d {
        DeliverDecision::Continue => Ok(()),
        DeliverDecision::Stop => Err(TraceError::Cancelled),
    }
}

/// The reply a consumer hands back for one verdict of its decision function:
/// continue on true, stop on false.
pub open spec fn spec_reply_decision(keep_going: bool) -> DeliverDecision {
    if keep_going {
        DeliverDecision::Continue
    } else {
        DeliverDecision::Stop
    }
}

/// Forms the reply for one verdict of the decision function; see
/// [`spec_reply_decision`].
pub fn reply_decision(keep_going: bool) -> (d: DeliverDecision)
    ensures
        d == spec_reply_decision(keep_going),
{
    if keep_going {
        DeliverDecision::Continue
    } else {
        DeliverDecision::Stop
    }
}

/// The consumer's verdict decides the producer's delivery status: a true
/// verdict replies continue and the delivery succeeds; a false verdict
/// replies stop and the delivery reports the cancellation status — so once a
/// decision function returns false on event `k`, the dispatch loop is told to
/// tear down and no event `k + 1` is delivered.
pub proof fn lemma_stop_decision_is_cancellation(keep_going: bool)
    ensures
        spec_decision_result(spec_reply_decision(keep_going)) == (if keep_going {
            Result::<(), TraceError>::Ok(())
        } else {
            Result::<(), TraceError>::Err(TraceError::Cancelled)
        }),
{
}

} // verus!
