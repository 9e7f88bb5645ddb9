//! The processing-thread lifecycle manager.
//!
//! A trace is processed by a dedicated thread running the OS's blocking
//! dispatch loop; each dispatched event flows through the bound
//! [`EventConsumer`].  This module is the manager's state machine — *Created*
//! → *Running* → *Stopping* → *Stopped* — with the teardown rules that make
//! it race free:
//!
//! - the stop flag is set before the native handle is relinquished, so an
//!   event racing in during the close window is no-op'd rather than delivered
//!   to a consumer that may already be gone;
//! - the handle is taken exactly once, making close idempotent;
//! - the callback context stays alive until the dispatch loop has actually
//!   returned — closing a realtime trace is asynchronous and buffered events
//!   still flow through the callback afterwards — and joining is possible
//!   only once the completion signal is set.
//!
//! The OS calls themselves (opening the trace, the blocking dispatch call,
//! the thread spawn and join) are performed by the embedding application
//! code, which hands their outcomes to this machine.

use vstd::prelude::*;

use crate::event_record::EventRecordOwned;
use crate::status::TraceError;

verus! {

/// The target of one trace's deliveries: the producer half of a bridge.
///
/// `on_event` is called once per event, synchronously and serially, from the
/// dispatch thread; its error return is the consumer's cancellation or a
/// fault, and tells the manager to begin teardown.  `complete` is called
/// exactly once, when the dispatch loop has returned, with the loop's result.
pub trait EventConsumer {
    /// Delivers one event; an error return requests teardown.
    fn on_event(&mut self, evt: &EventRecordOwned) -> Result<(), TraceError>;

    /// Observes the dispatch loop's result after the last delivery.
    fn complete(&mut self, result: Result<(), TraceError>);
}

/// Where the trace is in its lifecycle.
#[derive(Clone, Copy, Debug, PartialEq, Eq, Structural)]
pub enum TraceState {
    /// The handle is open but the dispatch loop has not started.
    Created,
    /// The dedicated thread is executing the blocking dispatch loop.
    Running,
    /// Stop was requested and the handle closed; the loop may still deliver
    /// buffered events, which the stop flag no-ops.
    Stopping,
    /// The dispatch loop has returned and the completion signal is set.
    Stopped,
}

/// The context of one open trace: the native handle, the stop flag, the
/// completion signal and the bound consumer.
pub struct ProcessTraceHandle<C: EventConsumer> {
    consumer: C,
    handle: Option<u64>,
    stop_flag: bool,
    completed: bool,
    context_live: bool,
    exit_status: Option<Result<(), TraceError>>,
    state: TraceState,
}

impl<C: EventConsumer> ProcessTraceHandle<C> {
    /// Where the trace is in its lifecycle.
    pub closed spec fn state(self) -> TraceState {
        self.state
    }

    /// Whether the stop flag is set: once it is, no further event reaches the
    /// consumer.
    pub closed spec fn stop_requested(self) -> bool {
        self.stop_flag
    }

    /// Whether the native handle is still held.
    pub closed spec fn handle_present(self) -> bool {
        self.handle is Some
    }

    /// Whether the completion signal is set: the dispatch loop has returned.
    pub closed spec fn completed(self) -> bool {
        self.completed
    }

    /// Whether the OS may still call back into this context.
    pub closed spec fn context_live(self) -> bool {
        self.context_live
    }

    /// The dispatch loop's result, once it has returned.
    pub closed spec fn exit_status(self) -> Option<Result<(), TraceError>> {
        self.exit_status
    }

    /// The bound consumer.
    pub closed spec fn consumer(self) -> C {
        self.consumer
    }

    /// The lifecycle invariant.
    pub closed spec fn wf(self) -> bool {
        &&& (self.state is Created || self.state is Running) ==> (self.handle is Some
            && !self.stop_flag)
        &&& self.state is Stopping ==> (self.stop_flag && self.handle is None)
        &&& (self.state is Stopped <==> self.completed)
        &&& (self.context_live <==> !self.completed)
        &&& (self.exit_status is Some <==> self.completed)
    }

    /// Binds a consumer to a trace opened against a named realtime session.
    ///
    /// The embedding code performs the native open and hands the resulting
    /// handle value here.  An empty or over-long name is a programming
    /// error, excluded by precondition.
    pub fn from_session(session_name: &str, consumer: C, handle: u64) -> (r: ProcessTraceHandle<
        C,
    >)
        requires
            0 < session_name@.len() < 1024,
        ensures
            r.wf(),
            r.state() is Created,
            r.handle_present(),
            !r.stop_requested(),
            !r.completed(),
            r.context_live(),
            r.consumer() == consumer,
    {
        Self::create(session_name, consumer, handle)
    }

    /// Binds a consumer to a trace opened against a log file.
    pub fn from_file(file_name: &str, consumer: C, handle: u64) -> (r: ProcessTraceHandle<C>)
        requires
            0 < file_name@.len() < 1024,
        ensures
            r.wf(),
            r.state() is Created,
            r.handle_present(),
            !r.stop_requested(),
            !r.completed(),
            r.context_live(),
            r.consumer() == consumer,
    {
        Self::create(file_name, consumer, handle)
    }

    fn create(name: &str, consumer: C, handle: u64) -> (r: ProcessTraceHandle<C>)
        requires
            0 < name@.len() < 1024,
        ensures
            r.wf(),
            r.state() is Created,
            r.handle_present(),
            !r.stop_requested(),
            !r.completed(),
            r.context_live(),
            r.consumer() == consumer,
    {
        ProcessTraceHandle {
            consumer,
            handle: Some(handle),
            stop_flag: false,
            completed: false,
            context_live: true,
            exit_status: None,
            state: TraceState::Created,
        }
    }

    /// Starts processing: the embedding code spawns the dedicated thread that
    /// runs the blocking dispatch loop, and the trace moves to *Running*.
    pub fn process_trace(self) -> (r: ProcessTraceThread<C>)
        requires
            self.wf(),
            self.state() is Created,
        ensures
            r.inner().wf(),
            r.inner().state() is Running,
            r.inner().consumer() == self.consumer(),
            !r.inner().completed(),
    {
        let mut inner = self;
        inner.state = TraceState::Running;
        ProcessTraceThread { inner }
    }

    /// One invocation of the OS event callback: the wrapper around the
    /// consumer that the dispatch loop calls once per event.
    ///
    /// The stop flag is read before dispatch: once set, the event is safely
    /// no-op'd and the consumer is not touched.  Otherwise the consumer
    /// decides; a non-continue result makes the manager close the handle and
    /// move to *Stopping* — teardown, not a process failure.
    pub fn dispatch_event(&mut self, evt: &EventRecordOwned) -> (r: Result<(), TraceError>)
        requires
            old(self).wf(),
            old(self).state() is Running || old(self).state() is Stopping,
            !old(self).completed(),
        ensures
            final(self).wf(),
            !final(self).completed(),
            final(self).exit_status() == old(self).exit_status(),
            if old(self).stop_requested() {
                &&& r is Ok
                &&& *final(self) == *old(self)
            } else {
                &&& (r is Ok ==> {
                    &&& final(self).state() == old(self).state()
                    &&& final(self).handle_present()
                    &&& !final(self).stop_requested()
                })
                &&& (r is Err ==> {
                    &&& final(self).state() is Stopping
                    &&& final(self).stop_requested()
                    &&& !final(self).handle_present()
                })
            },
    {
        if self.stop_flag {
            Ok(())
        } else {
            let result = self.consumer.on_event(evt);
            if result.is_err() {
                self.close_trace();
            }
            result
        }
    }

    /// Requests teardown: sets the stop flag, then relinquishes the native
    /// handle, exactly once.  Closing is idempotent; closing a trace whose
    /// loop already returned changes nothing of its terminal state.
    ///
    /// For a realtime session the native close is asynchronous: buffered
    /// events may still be dispatched afterwards, which the stop flag set
    /// here no-ops.
    pub fn close_trace(&mut self)
        requires
            old(self).wf(),
        ensures
            final(self).wf(),
            final(self).completed() == old(self).completed(),
            final(self).exit_status() == old(self).exit_status(),
            final(self).context_live() == old(self).context_live(),
            final(self).consumer() == old(self).consumer(),
            !final(self).handle_present(),
            if old(self).handle_present() {
                &&& final(self).stop_requested()
                &&& final(self).state() == (if old(self).state() is Stopped {
                    TraceState::Stopped
                } else {
                    TraceState::Stopping
                })
            } else {
                *final(self) == *old(self)
            },
    {
        if self.handle.is_some() {
            self.stop_flag = true;
            let _taken = self.handle.take();
            if !matches!(self.state, TraceState::Stopped) {
                self.state = TraceState::Stopping;
            }
        }
    }

    /// The blocking dispatch call has returned on the dedicated thread: the
    /// consumer observes the loop's result, the completion signal is set —
    /// exactly once per trace lifetime — and the callback context is released.
    pub fn finish_dispatch(&mut self, os_result: Result<(), TraceError>)
        requires
            old(self).wf(),
            old(self).state() is Running || old(self).state() is Stopping,
        ensures
            final(self).wf(),
            final(self).state() is Stopped,
            final(self).completed(),
            !final(self).context_live(),
            final(self).exit_status() == Some(os_result),
    {
        self.consumer.complete(os_result);
        self.completed = true;
        self.context_live = false;
        self.exit_status = Some(os_result);
        self.state = TraceState::Stopped;
    }

    /// Reads the current lifecycle state.
    pub fn current_state(&self) -> (r: TraceState)
        ensures
            r == self.state(),
    {
        self.state
    }

    /// Whether the completion signal is set.
    pub fn is_completed(&self) -> (r: bool)
        ensures
            r == self.completed(),
    {
        self.completed
    }
}

/// The handle to a trace whose dispatch loop is running on its dedicated
/// thread.  The embedding code owns the real thread; this machine owns the
/// shared context the OS is still calling back into.
pub struct ProcessTraceThread<C: EventConsumer> {
    inner: ProcessTraceHandle<C>,
}

impl<C: EventConsumer> ProcessTraceThread<C> {
    /// The shared callback context.
    pub closed spec fn inner(self) -> ProcessTraceHandle<C> {
        self.inner
    }

    /// One invocation of the OS event callback on the dispatch thread.
    pub fn dispatch_event(&mut self, evt: &EventRecordOwned) -> (r: Result<(), TraceError>)
        requires
            old(self).inner().wf(),
            old(self).inner().state() is Running || old(self).inner().state() is Stopping,
            !old(self).inner().completed(),
        ensures
            final(self).inner().wf(),
            !final(self).inner().completed(),
            if old(self).inner().stop_requested() {
                r is Ok && final(self).inner() == old(self).inner()
            } else {
                &&& (r is Ok ==> final(self).inner().state() == old(self).inner().state())
                &&& (r is Err ==> final(self).inner().state() is Stopping)
                &&& (r is Err ==> final(self).inner().stop_requested())
            },
    {
        self.inner.dispatch_event(evt)
    }

    /// The dispatch loop returned on the dedicated thread.
    pub fn finish_dispatch(&mut self, os_result: Result<(), TraceError>)
        requires
            old(self).inner().wf(),
            old(self).inner().state() is Running || old(self).inner().state() is Stopping,
        ensures
            final(self).inner().wf(),
            final(self).inner().state() is Stopped,
            final(self).inner().completed(),
            !final(self).inner().context_live(),
            final(self).inner().exit_status() == Some(os_result),
    {
        self.inner.finish_dispatch(os_result)
    }

    /// Requests teardown and relinquishes the right to further dispatch: the
    /// embedding code joins the real thread afterwards.
    pub fn stop_and_get_thread(&mut self)
        requires
            old(self).inner().wf(),
        ensures
            final(self).inner().wf(),
            !final(self).inner().handle_present(),
            final(self).inner().completed() == old(self).inner().completed(),
            final(self).inner().exit_status() == old(self).inner().exit_status(),
            if old(self).inner().handle_present() {
                &&& final(self).inner().stop_requested()
                &&& final(self).inner().state() == (if old(self).inner().state() is Stopped {
                    TraceState::Stopped
                } else {
                    TraceState::Stopping
                })
            } else {
                final(self).inner() == old(self).inner()
            },
    {
        self.inner.close_trace()
    }

    /// Joins the finished trace: permitted only once the completion signal is
    /// set — the dispatch thread has exited — and yields the loop's result.
    pub fn join(self) -> (r: Result<(), TraceError>)
        requires
            self.inner().wf(),
            self.inner().completed(),
        ensures
            Some(r) == self.inner().exit_status(),
    {
        self.inner.exit_status.unwrap()
    }

    /// Reads the current lifecycle state.
    pub fn current_state(&self) -> (r: TraceState)
        ensures
            r == self.inner().state(),
    {
        self.inner.current_state()
    }

    /// Whether the completion signal is set.
    pub fn is_completed(&self) -> (r: bool)
        ensures
            r == self.inner().completed(),
    {
        self.inner.is_completed()
    }
}

/// Teardown safety: while the callback context is live the dispatch loop has
/// not returned, and once the completion signal is set — the only moment a
/// join may return — the trace is terminal and the OS no longer holds the
/// context.  Together with the precondition of
/// [`ProcessTraceHandle::dispatch_event`], no use of the callback context
/// occurs after the thread has exited.
pub proof fn lemma_teardown_safety<C: EventConsumer>(m: ProcessTraceHandle<C>)
    requires
        m.wf(),
    ensures
        m.context_live() <==> !m.completed(),
        m.completed() ==> m.state() is Stopped,
        m.state() is Stopped ==> m.completed(),
{
}

/// The close-window guarantee: in every reachable state where the handle has
/// been relinquished but the loop still runs, the stop flag is already set,
/// so an event racing in between flag-check and close is no-op'd.
pub proof fn lemma_stop_flag_before_close<C: EventConsumer>(m: ProcessTraceHandle<C>)
    requires
        m.wf(),
        m.state() is Stopping,
    ensures
        m.stop_requested(),
        !m.handle_present(),
{
}

} // verus!
