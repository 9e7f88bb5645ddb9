use etw_helpers::event_record::{
    EtwBufferContext, EventDescriptor, EventHeader, EventRecordOwned,
};
use etw_helpers::processtrace::{EventConsumer, ProcessTraceHandle, TraceState};
use etw_helpers::status::TraceError;

fn tagged_event(tag: u64) -> EventRecordOwned {
    EventRecordOwned::new(
        EventHeader {
            size: 80,
            header_type: 1,
            flags: 0,
            event_property: 0,
            thread_id: 1,
            process_id: 1,
            time_stamp: 0,
            provider_id: 1,
            descriptor: EventDescriptor {
                id: 1,
                version: 0,
                channel: 0,
                level: 4,
                opcode: 0,
                task: 0,
                keyword: tag,
            },
            processor_time: 0,
            activity_id: 0,
        },
        EtwBufferContext { processor: 0, alignment: 0, logger_id: 1 },
        Vec::new(),
        Vec::new(),
    )
}

/// A consumer that records the tags it saw and stops on a chosen tag.
struct RecordingConsumer {
    seen: Vec<u64>,
    stop_on: u64,
    completed_with: Option<Result<(), TraceError>>,
}

impl EventConsumer for RecordingConsumer {
    fn on_event(&mut self, evt: &EventRecordOwned) -> Result<(), TraceError> {
        let tag = evt.header().descriptor.keyword;
        self.seen.push(tag);
        if tag == self.stop_on {
            Err(TraceError::Cancelled)
        } else {
            Ok(())
        }
    }

    fn complete(&mut self, result: Result<(), TraceError>) {
        self.completed_with = Some(result);
    }
}

#[test]
fn lifecycle_runs_created_running_stopping_stopped() {
    let consumer = RecordingConsumer { seen: Vec::new(), stop_on: u64::MAX, completed_with: None };
    let handle = ProcessTraceHandle::from_session("trace-session", consumer, 42);
    assert_eq!(handle.current_state(), TraceState::Created);

    let mut thread = handle.process_trace();
    assert_eq!(thread.current_state(), TraceState::Running);

    assert!(thread.dispatch_event(&tagged_event(1)).is_ok());
    assert!(thread.dispatch_event(&tagged_event(2)).is_ok());

    // An explicit stop request: the handle is relinquished, the stop flag is
    // set, and buffered events still racing in are no-op'd, never delivered.
    thread.stop_and_get_thread();
    assert_eq!(thread.current_state(), TraceState::Stopping);
    assert!(thread.dispatch_event(&tagged_event(3)).is_ok());

    // The dispatch loop returns; only then is the trace terminal.
    assert!(!thread.is_completed());
    thread.finish_dispatch(Ok(()));
    assert_eq!(thread.current_state(), TraceState::Stopped);
    assert!(thread.is_completed());
    assert_eq!(thread.join(), Ok(()));
}

#[test]
fn consumer_stop_begins_teardown_immediately() {
    let consumer = RecordingConsumer { seen: Vec::new(), stop_on: 2, completed_with: None };
    let handle = ProcessTraceHandle::from_session("trace-session", consumer, 7);
    let mut thread = handle.process_trace();

    assert!(thread.dispatch_event(&tagged_event(1)).is_ok());
    // The consumer declines on tag 2: the deliver status is the cancellation,
    // and the manager moves to Stopping at once.
    assert_eq!(thread.dispatch_event(&tagged_event(2)), Err(TraceError::Cancelled));
    assert_eq!(thread.current_state(), TraceState::Stopping);

    // A third event is no-op'd by the stop flag: the consumer never sees it.
    assert!(thread.dispatch_event(&tagged_event(3)).is_ok());
    thread.finish_dispatch(Ok(()));
    assert_eq!(thread.current_state(), TraceState::Stopped);
}

#[test]
fn os_failure_is_surfaced_verbatim() {
    let consumer = RecordingConsumer { seen: Vec::new(), stop_on: u64::MAX, completed_with: None };
    let handle = ProcessTraceHandle::from_file("trace-file", consumer, 9);
    let mut thread = handle.process_trace();
    thread.finish_dispatch(Err(TraceError::Os(0x1069)));
    assert_eq!(thread.join(), Err(TraceError::Os(0x1069)));
}

#[test]
fn missing_session_error_reaches_the_caller() {
    // A session torn down externally: the dispatch loop exits on its own
    // with the not-found status, which the join surfaces verbatim.
    let consumer = RecordingConsumer { seen: Vec::new(), stop_on: u64::MAX, completed_with: None };
    let handle = ProcessTraceHandle::from_session("gone-session", consumer, 3);
    let mut thread = handle.process_trace();
    thread.finish_dispatch(Err(TraceError::NotFound));
    assert_eq!(thread.current_state(), TraceState::Stopped);
    assert_eq!(thread.join(), Err(TraceError::NotFound));
}

#[test]
fn close_is_idempotent() {
    let consumer = RecordingConsumer { seen: Vec::new(), stop_on: u64::MAX, completed_with: None };
    let handle = ProcessTraceHandle::from_session("trace-session", consumer, 1);
    let mut thread = handle.process_trace();
    thread.stop_and_get_thread();
    assert_eq!(thread.current_state(), TraceState::Stopping);
    // A second close finds the handle already taken and changes nothing.
    thread.stop_and_get_thread();
    assert_eq!(thread.current_state(), TraceState::Stopping);
    thread.finish_dispatch(Ok(()));
    thread.stop_and_get_thread();
    assert_eq!(thread.current_state(), TraceState::Stopped);
}
