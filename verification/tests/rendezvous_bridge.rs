use etw_helpers::event_record::{
    EtwBufferContext, EventDescriptor, EventHeader, EventRecord, EventRecordOwned,
};
use etw_helpers::processtrace::{ProcessTraceHandle, TraceState};
use etw_helpers::rendezvous::EtwEventWaiter;
use etw_helpers::status::TraceError;

fn tagged_event(tag: u64) -> EventRecordOwned {
    EventRecordOwned::new(
        EventHeader {
            size: 80,
            header_type: 1,
            flags: 0,
            event_property: 0,
            thread_id: 1,
            process_id: 1,
            time_stamp: 0,
            provider_id: 1,
            descriptor: EventDescriptor {
                id: 1,
                version: 0,
                channel: 0,
                level: 4,
                opcode: 0,
                task: 0,
                keyword: tag,
            },
            processor_time: 0,
            activity_id: 0,
        },
        EtwBufferContext { processor: 0, alignment: 0, logger_id: 1 },
        Vec::new(),
        Vec::new(),
    )
}

/// The concrete rendezvous scenario: three synthetic events pushed from the
/// dispatch thread; the consumer continues on the first, stops on the second,
/// and never observes the third.  Both expect calls succeed — the consumer's
/// own stop decision is not an error to the consumer — while the producer's
/// second delivery reports the cancellation and the manager moves to
/// Stopping immediately.
#[test]
fn event_consumer_crossbeam_consume_event() {
    let mut waiter = EtwEventWaiter::default();
    let consumer = waiter.get_consumer();
    let handle = ProcessTraceHandle::from_session("rendezvous-session", consumer, 11);

    crossbeam_utils::thread::scope(|s| {
        let producer = s.spawn(move |_| {
            let mut thread = handle.process_trace();
            let first = thread.dispatch_event(&tagged_event(1));
            assert_eq!(first, Ok(()));
            let second = thread.dispatch_event(&tagged_event(2));
            assert_eq!(second, Err(TraceError::Cancelled));
            let state_after_stop = thread.current_state();
            // The third event races in during teardown: the stop flag no-ops
            // it and the consumer never sees it.
            let third = thread.dispatch_event(&tagged_event(3));
            assert_eq!(third, Ok(()));
            thread.finish_dispatch(Ok(()));
            (state_after_stop, thread.join())
        });

        let first = waiter.expect_event(|evt: EventRecord| {
            assert_eq!(evt.get_event_header().descriptor.keyword, 1);
            true
        });
        assert!(first.is_ok());

        let second = waiter.expect_event(|evt: EventRecord| {
            assert_eq!(evt.get_event_header().descriptor.keyword, 2);
            false
        });
        assert!(second.is_ok());

        // No third event: the consumer observes session termination instead.
        let third = waiter.expect_event(|_evt: EventRecord| {
            panic!("no event may be delivered after the stop decision")
        });
        assert_eq!(third, Err(TraceError::Cancelled));

        let (state_after_stop, join_result) = producer.join().unwrap();
        assert_eq!(state_after_stop, TraceState::Stopping);
        assert_eq!(join_result, Ok(()));
    })
    .unwrap();
}

#[test]
fn iterate() {
    let mut waiter = EtwEventWaiter::default();
    let consumer = waiter.get_consumer();

    crossbeam_utils::thread::scope(|s| {
        s.spawn(move |_| {
            for tag in 0..5u64 {
                let _ = consumer.deliver(&tagged_event(tag));
            }
        });

        let mut iter = waiter.into_iter();
        let mut count: u64 = 0;
        while let Some(evt) = iter.next_event() {
            assert_eq!(evt.header().descriptor.keyword, count);
            count += 1;
            if count == 5 {
                break;
            }
        }
        assert_eq!(count, 5);
    })
    .unwrap();
}

#[test]
fn order_preserved_across_threads() {
    let mut waiter = EtwEventWaiter::default();
    let consumer = waiter.get_consumer();

    crossbeam_utils::thread::scope(|s| {
        s.spawn(move |_| {
            for tag in 0..1000u64 {
                let delivered = consumer.deliver(&tagged_event(tag));
                // Every delivery up to the last is acknowledged with
                // "continue"; the last one sees the iterator go away.
                if tag < 999 {
                    assert_eq!(delivered, Ok(()));
                }
            }
        });

        let mut iter = waiter.into_iter();
        let mut next_expected: u64 = 0;
        while next_expected < 1000 {
            let evt = iter.next_event().expect("events arrive in order");
            assert_eq!(evt.header().descriptor.keyword, next_expected);
            next_expected += 1;
        }
    })
    .unwrap();
}

/// A consumer blocked waiting for the next event observes session
/// termination through the two-way select: the terminal status wakes it even
/// though the producer half stays alive the whole time.
#[test]
fn session_termination_wakes_blocked_consumer() {
    let mut waiter = EtwEventWaiter::default();
    let consumer = waiter.get_consumer();

    crossbeam_utils::thread::scope(|s| {
        let worker = s.spawn(|_| {
            let first = waiter.expect_event(|evt: EventRecord| {
                assert_eq!(evt.get_event_header().descriptor.keyword, 1);
                true
            });
            assert!(first.is_ok());
            // No further event will come; the deposited terminal status must
            // end this wait rather than leaving it hanging.
            let second = waiter.expect_event(|_evt: EventRecord| {
                panic!("no event may be delivered after termination")
            });
            assert_eq!(second, Err(TraceError::Cancelled));
        });

        assert_eq!(consumer.deliver(&tagged_event(1)), Ok(()));
        consumer.complete_with(Ok(()));
        // The producer half is dropped only after the consumer thread has
        // observed termination.
        worker.join().unwrap();
        drop(consumer);
    })
    .unwrap();
}

#[test]
fn disconnected_consumer_is_unexpected() {
    let mut waiter = EtwEventWaiter::default();
    let consumer = waiter.get_consumer();
    // The consumer side vanishes without a stop decision.
    drop(waiter);
    assert_eq!(consumer.deliver(&tagged_event(1)), Err(TraceError::Unexpected));
}
