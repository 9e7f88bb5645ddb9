use etw_helpers::event_record::{
    EtwBufferContext, EventDescriptor, EventHeader, EventRecordOwned,
};
use etw_helpers::protocol::{BridgePhase, BridgeProtocol, OfferOutcome};
use etw_helpers::status::TraceError;

fn tagged_event(tag: u64) -> EventRecordOwned {
    EventRecordOwned::new(
        EventHeader {
            size: 80,
            header_type: 1,
            flags: 0,
            event_property: 0,
            thread_id: 1,
            process_id: 1,
            time_stamp: 0,
            provider_id: 1,
            descriptor: EventDescriptor {
                id: 1,
                version: 0,
                channel: 0,
                level: 4,
                opcode: 0,
                task: 0,
                keyword: tag,
            },
            processor_time: 0,
            activity_id: 0,
        },
        EtwBufferContext { processor: 0, alignment: 0, logger_id: 1 },
        Vec::new(),
        Vec::new(),
    )
}

#[test]
fn at_most_one_in_flight() {
    let mut bridge = BridgeProtocol::new();

    // First offer is accepted; a second one without consumer progress must
    // block (delivering nothing) until the first is acknowledged.
    assert!(matches!(bridge.offer(&tagged_event(1)), OfferOutcome::Accepted));
    assert!(matches!(bridge.offer(&tagged_event(2)), OfferOutcome::MustWait));
    assert!(matches!(bridge.offer(&tagged_event(2)), OfferOutcome::MustWait));

    // The consumer acknowledges; only then is the next offer accepted.
    let taken = bridge.take().expect("event in flight");
    assert_eq!(taken.header().descriptor.keyword, 1);
    assert!(matches!(bridge.offer(&tagged_event(2)), OfferOutcome::MustWait));
    bridge.decide(true);
    assert!(matches!(bridge.offer(&tagged_event(2)), OfferOutcome::MustWait));
    assert!(bridge.collect().is_ok());
    assert!(matches!(bridge.offer(&tagged_event(2)), OfferOutcome::Accepted));
}

#[test]
fn order_preserved_for_a_thousand_events() {
    let mut bridge = BridgeProtocol::new();
    let mut seen = Vec::new();
    for tag in 0..1000u64 {
        assert!(matches!(bridge.offer(&tagged_event(tag)), OfferOutcome::Accepted));
        let rec = bridge.take().expect("event in flight");
        seen.push(rec.header().descriptor.keyword);
        bridge.decide(true);
        assert!(bridge.collect().is_ok());
    }
    assert_eq!(seen.len(), 1000);
    for (i, tag) in seen.iter().enumerate() {
        assert_eq!(*tag, i as u64);
    }
}

#[test]
fn cancellation_stops_delivery() {
    let mut bridge = BridgeProtocol::new();

    // Event k: the consumer declines to continue.
    assert!(matches!(bridge.offer(&tagged_event(7)), OfferOutcome::Accepted));
    let _ = bridge.take().expect("event in flight");
    bridge.decide(false);
    let status = bridge.collect();
    assert_eq!(status, Err(TraceError::Cancelled));

    // Event k+1 is never delivered: the offer is rejected with the
    // cancellation status and the consumer can take nothing.
    assert_eq!(
        bridge.offer(&tagged_event(8)),
        OfferOutcome::Rejected(TraceError::Cancelled)
    );
    assert!(bridge.take().is_none());
    assert!(matches!(bridge.current_phase(), BridgePhase::Stopped));
}

#[test]
fn disconnection_is_unexpected() {
    let mut bridge = BridgeProtocol::new();
    assert!(matches!(bridge.offer(&tagged_event(1)), OfferOutcome::Accepted));
    bridge.disconnect();
    assert_eq!(
        bridge.offer(&tagged_event(2)),
        OfferOutcome::Rejected(TraceError::Unexpected)
    );
    assert!(bridge.take().is_none());
}

#[test]
fn terminal_status_is_observable() {
    let mut bridge = BridgeProtocol::new();
    assert!(bridge.observe_terminal().is_none());
    bridge.complete(TraceError::Os(5));
    assert_eq!(bridge.observe_terminal(), Some(TraceError::Os(5)));
}
