use etw_helpers::async_waiter::{EtwEventAsyncWaiter, SendOutcome};
use etw_helpers::event_record::{
    EtwBufferContext, EventDescriptor, EventHeader, EventRecord, EventRecordOwned,
};
use etw_helpers::status::TraceError;
use etw_helpers::stream_bridge::{DepositOutcome, EtwEventAsyncStream, StreamPoll};
use etw_helpers::timeout_waiter::{DirectDeliverOutcome, EtwEventAsyncWaiterWithTimeout};

fn tagged_event(tag: u64) -> EventRecordOwned {
    EventRecordOwned::new(
        EventHeader {
            size: 80,
            header_type: 1,
            flags: 0,
            event_property: 0,
            thread_id: 1,
            process_id: 1,
            time_stamp: 0,
            provider_id: 1,
            descriptor: EventDescriptor {
                id: 1,
                version: 0,
                channel: 0,
                level: 4,
                opcode: 0,
                task: 0,
                keyword: tag,
            },
            processor_time: 0,
            activity_id: 0,
        },
        EtwBufferContext { processor: 0, alignment: 0, logger_id: 1 },
        Vec::new(),
        Vec::new(),
    )
}

fn tag_of(rec: &EventRecordOwned) -> u64 {
    rec.header().descriptor.keyword
}

#[test]
fn stream_events() {
    let mut stream = EtwEventAsyncStream::new();

    // Nothing deposited yet: the poll is pending and the waker registered.
    assert!(matches!(stream.poll_next(), StreamPoll::Pending));

    // Deposit, poll, in order; the slot backpressures the producer.
    for tag in 0..100u64 {
        let (outcome, woke) = stream.on_event(&tagged_event(tag));
        assert!(matches!(outcome, DepositOutcome::Stored));
        assert!(woke);
        let (second, _) = stream.on_event(&tagged_event(tag + 1000));
        assert!(matches!(second, DepositOutcome::MustWait));
        match stream.poll_next() {
            StreamPoll::Item(rec) => assert_eq!(tag_of(&rec), tag),
            _ => panic!("expected an event"),
        }
    }

    // Termination: the end marker ends the stream for every later poll, and
    // no event can be deposited after it.
    assert!(matches!(stream.complete(), DepositOutcome::Stored));
    assert!(matches!(stream.poll_next(), StreamPoll::Done));
    assert!(matches!(stream.poll_next(), StreamPoll::Done));
    let (after_end, _) = stream.on_event(&tagged_event(1));
    assert!(matches!(after_end, DepositOutcome::MustWait));
}

#[test]
fn stream_end_waits_for_drain() {
    let mut stream = EtwEventAsyncStream::new();
    let (outcome, woke) = stream.on_event(&tagged_event(9));
    assert!(matches!(outcome, DepositOutcome::Stored));
    assert!(!woke);

    // The end marker cannot overwrite an undrained event.
    assert!(matches!(stream.complete(), DepositOutcome::MustWait));
    match stream.poll_next() {
        StreamPoll::Item(rec) => assert_eq!(tag_of(&rec), 9),
        _ => panic!("expected the undrained event"),
    }
    assert!(matches!(stream.complete(), DepositOutcome::Stored));
    assert!(matches!(stream.poll_next(), StreamPoll::Done));
}

#[test]
fn event_consumer_futures_consume_event() {
    let mut waiter = EtwEventAsyncWaiter::new();

    // First event: the consumer's decision function sees tag 1 and continues.
    assert!(matches!(waiter.on_event(&tagged_event(1)), SendOutcome::Accepted));
    let decision = waiter.expect_event_step(|evt: &EventRecord| {
        assert_eq!(evt.get_event_header().descriptor.keyword, 1);
        true
    });
    assert_eq!(decision, Some(true));

    // Second event: the decision function sees tag 2 and stops, which closes
    // the channel.
    assert!(matches!(waiter.on_event(&tagged_event(2)), SendOutcome::Accepted));
    let decision = waiter.expect_event_step(|evt: &EventRecord| {
        assert_eq!(evt.get_event_header().descriptor.keyword, 2);
        false
    });
    assert_eq!(decision, Some(false));

    // Third event: the delivery is cancelled; the consumer never sees it.
    let outcome = waiter.on_event(&tagged_event(3));
    assert!(matches!(outcome, SendOutcome::Closed));
    assert_eq!(
        EtwEventAsyncWaiter::send_outcome_status(outcome),
        Err(TraceError::Cancelled)
    );
    assert_eq!(waiter.expect_event_step(|_| true), None);
}

#[test]
fn event_consumer_futures_channel_consume_event() {
    let mut waiter = EtwEventAsyncWaiter::new();

    // The producer suspends while the previous event is undrained.
    assert!(matches!(waiter.on_event(&tagged_event(1)), SendOutcome::Accepted));
    assert!(matches!(waiter.on_event(&tagged_event(2)), SendOutcome::MustWait));

    let first = waiter.receive().expect("event in flight");
    assert_eq!(tag_of(&first), 1);
    assert!(matches!(waiter.on_event(&tagged_event(2)), SendOutcome::Accepted));
    let second = waiter.receive().expect("event in flight");
    assert_eq!(tag_of(&second), 2);

    // An explicit close cancels every later send.
    waiter.close();
    assert!(matches!(waiter.on_event(&tagged_event(3)), SendOutcome::Closed));
    assert!(waiter.receive().is_none());
}

#[test]
fn event_consumer_raw_consume_event() {
    let mut waiter = EtwEventAsyncWaiterWithTimeout::new();

    // First expect call: register, deliver, decide to continue, complete.
    waiter.register();
    let outcome = waiter.on_event(
        &tagged_event(1),
        |evt: &EventRecord| evt.get_event_header().descriptor.keyword == 1,
        false,
    );
    assert!(matches!(outcome, DirectDeliverOutcome::Continue));
    assert_eq!(
        EtwEventAsyncWaiterWithTimeout::outcome_status(outcome),
        Ok(())
    );
    assert_eq!(waiter.await_completion(false), Ok(()));

    // Second expect call: the decision function stops the session.
    waiter.register();
    let outcome = waiter.on_event(&tagged_event(2), |_evt: &EventRecord| false, false);
    assert!(matches!(outcome, DirectDeliverOutcome::Cancelled));
    assert_eq!(
        EtwEventAsyncWaiterWithTimeout::outcome_status(outcome),
        Err(TraceError::Cancelled)
    );
    assert_eq!(waiter.await_completion(false), Ok(()));
}

#[test]
fn timeout_fires() {
    let mut waiter = EtwEventAsyncWaiterWithTimeout::new();

    // The producer's bounded wait for a registration expires: the delivery
    // fails with the timeout status, not a hang.
    let outcome = waiter.on_event(&tagged_event(1), |_evt: &EventRecord| true, true);
    assert!(matches!(outcome, DirectDeliverOutcome::TimedOut));
    assert_eq!(
        EtwEventAsyncWaiterWithTimeout::outcome_status(outcome),
        Err(TraceError::Timeout)
    );

    // The consumer registers but no event arrives within the bound: the
    // expect call observes the timeout error.
    waiter.register();
    assert_eq!(waiter.await_completion(true), Err(TraceError::Timeout));
}
