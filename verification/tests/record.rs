use etw_helpers::event_record::{
    EtwBufferContext, EventDescriptor, EventHeader, EventRecord, EventRecordOwned,
    ExtendedDataItem, EXTENDED_INFO_FLAG,
};

fn header_with(keyword: u64, flags: u16) -> EventHeader {
    EventHeader {
        size: 312,
        header_type: 1,
        flags,
        event_property: 0,
        thread_id: 4242,
        process_id: 977,
        time_stamp: 133_111_222_333,
        provider_id: 0x0123_4567_89ab_cdef_0011_2233_4455_6677,
        descriptor: EventDescriptor {
            id: 7,
            version: 1,
            channel: 11,
            level: 4,
            opcode: 2,
            task: 3,
            keyword,
        },
        processor_time: 555,
        activity_id: 42,
    }
}

fn context() -> EtwBufferContext {
    EtwBufferContext { processor: 2, alignment: 8, logger_id: 9 }
}

fn sample_record(keyword: u64) -> EventRecordOwned {
    let items = vec![
        ExtendedDataItem { ext_type: 1, flags: 0, data: vec![1, 2, 3] },
        ExtendedDataItem { ext_type: 2, flags: 1, data: vec![9, 8] },
    ];
    EventRecordOwned::new(header_with(keyword, 0), context(), items, vec![10, 20, 30, 40])
}

#[test]
fn owned_copy_is_independent_of_the_original() {
    // Capture every field's expected value before the original goes away.
    let original = sample_record(77);
    let view = EventRecord::new(&original);
    let copy = view.to_owned();

    // Invalidate the "OS-owned" buffer: drop the original entirely.
    drop(original);

    let header = copy.get_event_header();
    assert_eq!(header.size, 312);
    assert_eq!(header.thread_id, 4242);
    assert_eq!(header.process_id, 977);
    assert_eq!(header.time_stamp, 133_111_222_333);
    assert_eq!(header.provider_id, 0x0123_4567_89ab_cdef_0011_2233_4455_6677);
    assert_eq!(header.descriptor.keyword, 77);
    assert_eq!(header.flags & EXTENDED_INFO_FLAG, EXTENDED_INFO_FLAG);

    let ctx = copy.get_buffer_context();
    assert_eq!(ctx.processor, 2);
    assert_eq!(ctx.logger_id, 9);

    assert_eq!(copy.get_user_data(), &[10, 20, 30, 40]);

    let mut items = copy.get_extended_data_items();
    let first = items.next().expect("first item");
    assert_eq!(first.ext_type, 1);
    assert_eq!(first.data, vec![1, 2, 3]);
    let second = items.next().expect("second item");
    assert_eq!(second.ext_type, 2);
    assert_eq!(second.flags, 1);
    assert_eq!(second.data, vec![9, 8]);
    assert!(items.next().is_none());
}

#[test]
fn extended_data_flag_is_normalized() {
    // Constructed with items but without the flag bit: the bit is set.
    let with_items = sample_record(1);
    assert_eq!(with_items.header().flags & EXTENDED_INFO_FLAG, EXTENDED_INFO_FLAG);

    // Constructed without items but with the flag bit: the bit is cleared.
    let without_items = EventRecordOwned::new(
        header_with(1, 0xffff),
        context(),
        Vec::new(),
        vec![1],
    );
    assert_eq!(without_items.header().flags & EXTENDED_INFO_FLAG, 0);
    assert_eq!(without_items.header().flags, 0xfffe);
}

#[test]
fn extended_data_iteration_is_restartable() {
    let rec = sample_record(5);
    let view = EventRecord::new(&rec);

    // Two walks, each re-derived fresh from the record, see the same items.
    let mut first_walk = Vec::new();
    let mut it = view.get_extended_data_items();
    while let Some(item) = it.next() {
        first_walk.push((item.ext_type, item.flags, item.data.clone()));
    }

    let mut second_walk = Vec::new();
    let mut it = view.get_extended_data_items();
    while let Some(item) = it.next() {
        second_walk.push((item.ext_type, item.flags, item.data.clone()));
    }

    assert_eq!(first_walk.len(), 2);
    assert_eq!(first_walk, second_walk);
    assert_eq!(first_walk[0].0, 1);
    assert_eq!(first_walk[1].0, 2);
}

#[test]
fn transient_and_owned_views_agree() {
    let rec = sample_record(3);
    let transient = EventRecord::new(&rec);
    let owned = transient.to_owned();
    assert_eq!(
        transient.get_event_header().descriptor.keyword,
        owned.get_event_header().descriptor.keyword
    );
    assert_eq!(transient.get_user_data(), owned.get_user_data());
    assert_eq!(
        transient.get_buffer_context().logger_id,
        owned.get_buffer_context().logger_id
    );
}

#[test]
fn serialized_form_layout() {
    // A record with no extended data and a tiny payload: the encoding is the
    // 84-byte fixed part, a zero item count, then the length-prefixed payload.
    let rec = EventRecordOwned::new(header_with(2, 0), context(), Vec::new(), vec![0xaa, 0xbb]);
    let bytes = rec.serialize();
    assert_eq!(bytes.len(), 84 + 2 + 2 + 2);

    // Little-endian header prefix: size = 312 = 0x0138, header_type = 1.
    assert_eq!(&bytes[0..2], &[0x38, 0x01]);
    assert_eq!(&bytes[2..4], &[0x01, 0x00]);
    // Flags were normalized to clear the extended-data bit.
    assert_eq!(&bytes[4..6], &[0x00, 0x00]);
    // Item count is zero, payload length 2, then the payload itself.
    assert_eq!(&bytes[84..86], &[0x00, 0x00]);
    assert_eq!(&bytes[86..88], &[0x02, 0x00]);
    assert_eq!(&bytes[88..90], &[0xaa, 0xbb]);
}

#[test]
fn serialized_form_round_trips() {
    let rec = sample_record(77);
    let bytes = rec.serialize();
    let back = EventRecordOwned::deserialize(&bytes).expect("an encoding decodes");

    assert_eq!(back.header(), rec.header());
    assert_eq!(back.buffer_context(), rec.buffer_context());
    assert_eq!(back.user_data(), rec.user_data());
    assert_eq!(back.extended_data_len(), rec.extended_data_len());
    for i in 0..rec.extended_data_len() {
        assert_eq!(back.extended_data_item(i).ext_type, rec.extended_data_item(i).ext_type);
        assert_eq!(back.extended_data_item(i).flags, rec.extended_data_item(i).flags);
        assert_eq!(back.extended_data_item(i).data, rec.extended_data_item(i).data);
    }

    // And the reconstructed record encodes to exactly the same bytes.
    assert_eq!(back.serialize(), bytes);
}

#[test]
fn deserialize_rejects_malformed_input() {
    // Too short for even the fixed part.
    assert!(EventRecordOwned::deserialize(&[0u8; 20]).is_none());

    // A valid encoding with a truncated tail.
    let rec = sample_record(1);
    let bytes = rec.serialize();
    assert!(EventRecordOwned::deserialize(&bytes[..bytes.len() - 1]).is_none());

    // A valid encoding with trailing garbage.
    let mut padded = rec.serialize();
    padded.push(0);
    assert!(EventRecordOwned::deserialize(&padded).is_none());
}

#[test]
fn serialized_form_includes_extended_data() {
    let rec = sample_record(4);
    let bytes = rec.serialize();
    // Two items: (2 + 2 + 2 + 3) and (2 + 2 + 2 + 2) bytes, payload 4 bytes.
    assert_eq!(bytes.len(), 84 + 2 + 9 + 8 + 2 + 4);
    // Item count = 2.
    assert_eq!(&bytes[84..86], &[0x02, 0x00]);
    // First item: tag 1, flags 0, length 3, payload 1 2 3.
    assert_eq!(&bytes[86..92], &[0x01, 0x00, 0x00, 0x00, 0x03, 0x00]);
    assert_eq!(&bytes[92..95], &[1, 2, 3]);
}
