//! The event-record data model.
//!
//! One tracing event reaches this crate in one of three representations:
//!
//! - a *transient view*: a non-owning reference to memory that the operating
//!   system supplies for the duration of a single callback invocation;
//! - an *owned copy*: header, buffer context, extended-data items and payload
//!   deep-copied into independently-owned storage, created explicitly by
//!   [`EventRecord::to_owned`];
//! - a *serialized form*: a little-endian wire encoding for persistence or
//!   cross-process transfer.
//!
//! The extended-data-present bit of the header flags must always agree with
//! whether the extended-data collection is non-empty; the copy operation
//! normalizes it.

use vstd::prelude::*;

verus! {

/// The flag bit of [`EventHeader::flags`] that advertises extended data.
pub const EXTENDED_INFO_FLAG: u16 = 1;

/// The fixed-size descriptor identifying one event within its provider.
#[derive(Clone, Copy, Debug, PartialEq, Eq, Structural)]
pub struct EventDescriptor {
    /// Event identifier.
    pub id: u16,
    /// Version of the event definition.
    pub version: u8,
    /// Channel the event was written to.
    pub channel: u8,
    /// Severity level.
    pub level: u8,
    /// Opcode within the task.
    pub opcode: u8,
    /// Task grouping.
    pub task: u16,
    /// Keyword bitmask.
    pub keyword: u64,
}

/// The header of one event, mirroring the native record header field for
/// field; provider and activity identifiers are carried as their 128-bit
/// values.
#[derive(Clone, Copy, Debug, PartialEq, Eq, Structural)]
pub struct EventHeader {
    /// Total size of the native record, in bytes.
    pub size: u16,
    /// Native header type.
    pub header_type: u16,
    /// Flag bits; bit 0 advertises extended data.
    pub flags: u16,
    /// Event property bits.
    pub event_property: u16,
    /// Identifier of the thread that logged the event.
    pub thread_id: u32,
    /// Identifier of the process that logged the event.
    pub process_id: u32,
    /// Time the event was logged, in native ticks.
    pub time_stamp: i64,
    /// Identifier of the provider that logged the event.
    pub provider_id: u128,
    /// The event descriptor.
    pub descriptor: EventDescriptor,
    /// Processor time consumed, in native units.
    pub processor_time: u64,
    /// Identifier of the activity the event belongs to.
    pub activity_id: u128,
}

/// Where in the session's buffers the event was delivered from.
#[derive(Clone, Copy, Debug, PartialEq, Eq, Structural)]
pub struct EtwBufferContext {
    /// Processor the event was logged on.
    pub processor: u8,
    /// Alignment filler kept for wire compatibility.
    pub alignment: u8,
    /// Identifier of the logger session.
    pub logger_id: u16,
}

/// One extended-data item attached to an event: a type tag, flag bits and an
/// opaque payload.  Order as delivered by the OS is preserved.
#[derive(Clone, Debug)]
pub struct ExtendedDataItem {
    /// Type tag of the item.
    pub ext_type: u16,
    /// Flag bits; bit 0 is linkage, the rest are unused.
    pub flags: u16,
    /// Opaque payload bytes.
    pub data: Vec<u8>,
}

/// The mathematical value of one extended-data item.
#[verifier::ext_equal]
pub struct ExtendedDataItemView {
    /// Type tag of the item.
    pub ext_type: u16,
    /// Flag bits.
    pub flags: u16,
    /// Payload bytes.
    pub data: Seq<u8>,
}

impl View for ExtendedDataItem {
    type V = ExtendedDataItemView;

    open spec fn view(&self) -> ExtendedDataItemView {
        ExtendedDataItemView { ext_type: self.ext_type, flags: self.flags, data: self.data@ }
    }
}

/// An event record in independently-owned storage.  May outlive the callback
/// that delivered it and move freely across thread boundaries.
#[derive(Clone, Debug)]
pub struct EventRecordOwned {
    event_header: EventHeader,
    buffer_context: EtwBufferContext,
    extended_data_items: Vec<ExtendedDataItem>,
    user_data: Vec<u8>,
}

/// The mathematical value of one event record.
#[verifier::ext_equal]
pub struct EventRecordView {
    /// The header.
    pub header: EventHeader,
    /// The buffer context.
    pub buffer_context: EtwBufferContext,
    /// The extended-data items, in delivery order.
    pub extended_data_items: Seq<ExtendedDataItemView>,
    /// The payload bytes.
    pub user_data: Seq<u8>,
}

impl EventRecordView {
    /// The extended-data flag bit agrees with whether the extended-data
    /// collection is non-empty.
    pub open spec fn flag_consistent(self) -> bool {
        (self.header.flags & EXTENDED_INFO_FLAG == EXTENDED_INFO_FLAG) <==> self.extended_data_items.len() > 0
    }

    /// Every variable-length part fits the width of its native length field.
    pub open spec fn lengths_valid(self) -> bool {
        &&& self.extended_data_items.len() <= u16::MAX
        &&& self.user_data.len() <= u16::MAX
        &&& forall|i: int|
            0 <= i < self.extended_data_items.len() ==> (#[trigger] self.extended_data_items[i]).data.len()
                <= u16::MAX
    }

    /// The same view with the extended-data flag bit forced to agree with the
    /// extended-data collection.
    pub open spec fn with_normalized_flag(self) -> EventRecordView {
        EventRecordView {
            header: EventHeader {
                flags: if self.extended_data_items.len() == 0 {
                    self.header.flags & !EXTENDED_INFO_FLAG
                } else {
                    self.header.flags | EXTENDED_INFO_FLAG
                },
                ..self.header
            },
            ..self
        }
    }
}

impl View for EventRecordOwned {
    type V = EventRecordView;

    closed spec fn view(&self) -> EventRecordView {
        EventRecordView {
            header: self.event_header,
            buffer_context: self.buffer_context,
            extended_data_items: self.extended_data_items@.map_values(|it: ExtendedDataItem| it@),
            user_data: self.user_data@,
        }
    }
}

/// On a view whose flag already agrees with its extended-data collection,
/// normalizing the flag changes nothing.
pub proof fn lemma_consistent_flag_normalized(v: EventRecordView)
    requires
        v.flag_consistent(),
    ensures
        v.with_normalized_flag() == v,
{
    let f = v.header.flags;
    if v.extended_data_items.len() == 0 {
        assert(f & EXTENDED_INFO_FLAG != EXTENDED_INFO_FLAG ==> f & !EXTENDED_INFO_FLAG == f)
            by (bit_vector);
    } else {
        assert(f & EXTENDED_INFO_FLAG == EXTENDED_INFO_FLAG ==> f | EXTENDED_INFO_FLAG == f)
            by (bit_vector);
    }
}

/// Normalizing the flag establishes flag consistency and changes nothing
/// else.
pub proof fn lemma_normalized_flag_consistent(v: EventRecordView)
    ensures
        v.with_normalized_flag().flag_consistent(),
        v.with_normalized_flag().extended_data_items == v.extended_data_items,
        v.with_normalized_flag().user_data == v.user_data,
        v.with_normalized_flag().buffer_context == v.buffer_context,
{
    let f = v.header.flags;
    assert((f & !EXTENDED_INFO_FLAG) & EXTENDED_INFO_FLAG != EXTENDED_INFO_FLAG) by (bit_vector);
    assert((f | EXTENDED_INFO_FLAG) & EXTENDED_INFO_FLAG == EXTENDED_INFO_FLAG) by (bit_vector);
}

impl EventRecordOwned {
    /// Builds an owned record from its parts, normalizing the extended-data
    /// flag bit so the stored record always satisfies the flag invariant.
    pub fn new(
        event_header: EventHeader,
        buffer_context: EtwBufferContext,
        extended_data_items: Vec<ExtendedDataItem>,
        user_data: Vec<u8>,
    ) -> (r: EventRecordOwned)
        ensures
            r@ == (EventRecordView {
                header: event_header,
                buffer_context,
                extended_data_items: extended_data_items@.map_values(|it: ExtendedDataItem| it@),
                user_data: user_data@,
            }).with_normalized_flag(),
            r@.flag_consistent(),
    {
        let mut rec = EventRecordOwned { event_header, buffer_context, extended_data_items, user_data };
        if rec.extended_data_items.len() == 0 {
            rec.event_header.flags = rec.event_header.flags & !EXTENDED_INFO_FLAG;
        } else {
            rec.event_header.flags = rec.event_header.flags | EXTENDED_INFO_FLAG;
        }
        proof {
            lemma_normalized_flag_consistent(
                EventRecordView {
                    header: event_header,
                    buffer_context,
                    extended_data_items: rec.extended_data_items@.map_values(|it: ExtendedDataItem| it@),
                    user_data: rec.user_data@,
                },
            );
        }
        rec
    }

    /// The header, readable without copying.
    pub fn header(&self) -> (h: &EventHeader)
        ensures
            *h == self@.header,
    {
        &self.event_header
    }

    /// The buffer context, readable without copying.
    pub fn buffer_context(&self) -> (c: &EtwBufferContext)
        ensures
            *c == self@.buffer_context,
    {
        &self.buffer_context
    }

    /// The payload bytes.
    pub fn user_data(&self) -> (d: &[u8])
        ensures
            d@ == self@.user_data,
    {
        self.user_data.as_slice()
    }

    /// How many payload bytes the record carries.
    pub fn user_data_len(&self) -> (n: usize)
        ensures
            n == self@.user_data.len(),
    {
        self.user_data.len()
    }

    /// How many extended-data items are attached.
    pub fn extended_data_len(&self) -> (n: usize)
        ensures
            n == self@.extended_data_items.len(),
    {
        self.extended_data_items.len()
    }

    /// The extended-data item at `i`, in delivery order.
    pub fn extended_data_item(&self, i: usize) -> (it: &ExtendedDataItem)
        requires
            i < self@.extended_data_items.len(),
        ensures
            it@ == self@.extended_data_items[i as int],
    {
        &self.extended_data_items[i]
    }

    /// Deep-copies the record into fresh storage, normalizing the
    /// extended-data flag bit.  On a record whose flag is already consistent
    /// the copy has exactly the original's value.
    pub fn deep_copy(&self) -> (r: EventRecordOwned)
        ensures
            r@ == self@.with_normalized_flag(),
            r@.flag_consistent(),
    {
        let mut items: Vec<ExtendedDataItem> = Vec::new();
        let n = self.extended_data_len();
        let mut i: usize = 0;
        while i < n
            invariant
                n == self@.extended_data_items.len(),
                i <= n,
                items@.len() == i,
                forall|j: int|
                    0 <= j < i ==> (#[trigger] items@[j])@ == self@.extended_data_items[j],
            decreases n - i,
        {
            let item = self.extended_data_item(i);
            let copied = ExtendedDataItem {
                ext_type: item.ext_type,
                flags: item.flags,
                data: clone_bytes(&item.data),
            };
            items.push(copied);
            i += 1;
        }
        proof {
            assert(items@.map_values(|it: ExtendedDataItem| it@) =~= self@.extended_data_items);
        }
        EventRecordOwned::new(
            *self.header(),
            *self.buffer_context(),
            items,
            clone_bytes(self.user_data()),
        )
    }
}

/// One event record: a transient view of OS-owned memory, an owned deep copy,
/// or the serialized byte form.
///
/// A transient view is valid only within the dynamic extent of the callback
/// that delivered it; escaping it requires the explicit copy made by
/// [`EventRecord::to_owned`], never an implicit one.
pub enum EventRecord<'a> {
    /// An owned deep copy.
    Owned(EventRecordOwned),
    /// A non-owning view of memory supplied by the OS for one callback.
    Transient(&'a EventRecordOwned),
    /// The little-endian wire form.
    Serialized(Vec<u8>),
}

impl<'a> EventRecord<'a> {
    /// Whether this record is in the serialized byte form, whose fields
    /// cannot be read in place.
    pub open spec fn is_serialized(self) -> bool {
        self is Serialized
    }

    /// The mathematical value of a readable (transient or owned) record.
    pub open spec fn record_view(self) -> EventRecordView
        recommends
            !self.is_serialized(),
    {
        match self {
            EventRecord::Owned(rec) => rec@,
            EventRecord::Transient(rec) => rec@,
            EventRecord::Serialized(_) => arbitrary(),
        }
    }

    /// Wraps the record the OS handed to the callback as a transient view:
    /// the non-owning variant, copying no bytes.  Escaping it takes the
    /// explicit copy of [`EventRecord::to_owned`].
    pub fn new(evt: &'a EventRecordOwned) -> (r: EventRecord<'a>)
        ensures
            r is Transient,
            r.record_view() == evt@,
    {
        EventRecord::Transient(evt)
    }

    /// The header, readable without copying.
    pub fn get_event_header(&self) -> (h: &EventHeader)
        requires
            !self.is_serialized(),
        ensures
            *h == self.record_view().header,
    {
        match self {
            EventRecord::Owned(rec) => rec.header(),
            EventRecord::Transient(rec) => rec.header(),
            EventRecord::Serialized(_) => unreached(),
        }
    }

    /// The buffer context, readable without copying.
    pub fn get_buffer_context(&self) -> (c: &EtwBufferContext)
        requires
            !self.is_serialized(),
        ensures
            *c == self.record_view().buffer_context,
    {
        match self {
            EventRecord::Owned(rec) => rec.buffer_context(),
            EventRecord::Transient(rec) => rec.buffer_context(),
            EventRecord::Serialized(_) => unreached(),
        }
    }

    /// The payload bytes.
    pub fn get_user_data(&self) -> (d: &[u8])
        requires
            !self.is_serialized(),
        ensures
            d@ == self.record_view().user_data,
    {
        match self {
            EventRecord::Owned(rec) => rec.user_data(),
            EventRecord::Transient(rec) => rec.user_data(),
            EventRecord::Serialized(_) => unreached(),
        }
    }

    /// A fresh lazy iteration over the extended-data items.  Each call
    /// re-derives the sequence from the record; no cursor state is shared.
    pub fn get_extended_data_items(&'a self) -> (it: ExtendedDataItemIterator<'a>)
        requires
            !self.is_serialized(),
        ensures
            it.evt == self,
            it.index == 0,
    {
        ExtendedDataItemIterator { evt: self, index: 0 }
    }

    /// Materializes an owned deep copy: header, buffer context, every
    /// extended-data item's payload, and the main payload are copied into
    /// independently-owned storage, and the extended-data flag bit is
    /// normalized.
    pub fn to_owned(&self) -> (r: EventRecord<'static>)
        requires
            !self.is_serialized(),
        ensures
            !r.is_serialized(),
            r is Owned,
            r.record_view() == self.record_view().with_normalized_flag(),
            r.record_view().flag_consistent(),
    {
        let rec: &EventRecordOwned = match self {
            EventRecord::Owned(rec) => rec,
            EventRecord::Transient(rec) => rec,
            EventRecord::Serialized(_) => unreached(),
        };
        EventRecord::Owned(rec.deep_copy())
    }
}

/// Copies a byte slice into a fresh vector.
fn clone_bytes(b: &[u8]) -> (r: Vec<u8>)
    ensures
        r@ == b@,
{
    let mut out: Vec<u8> = Vec::new();
    let mut i: usize = 0;
    while i < b.len()
        invariant
            i <= b@.len(),
            out@ == b@.take(i as int),
        decreases b@.len() - i,
    {
        out.push(b[i]);
        proof {
            assert(out@ =~= b@.take(i as int + 1));
        }
        i += 1;
    }
    proof {
        assert(b@.take(b@.len() as int) =~= b@);
    }
    out
}

/// A lazy, finite, restartable walk over the extended-data items of one
/// record, re-derived fresh from the record each time.
pub struct ExtendedDataItemIterator<'a> {
    /// The record being walked.
    pub evt: &'a EventRecord<'a>,
    /// How many items have been yielded.
    pub index: usize,
}

impl<'a> ExtendedDataItemIterator<'a> {
    /// Yields the next extended-data item, in delivery order, or `None` once
    /// every item has been yielded.
    pub fn next(&mut self) -> (r: Option<&'a ExtendedDataItem>)
        requires
            !old(self).evt.is_serialized(),
            old(self).index <= old(self).evt.record_view().extended_data_items.len(),
        ensures
            final(self).evt == old(self).evt,
            ({
                let items = old(self).evt.record_view().extended_data_items;
                if old(self).index < items.len() {
                    &&& r matches Some(item) && item@ == items[old(self).index as int]
                    &&& final(self).index == old(self).index + 1
                } else {
                    &&& r is None
                    &&& final(self).index == old(self).index
                }
            }),
    {
        let rec: &EventRecordOwned = match self.evt {
            EventRecord::Owned(rec) => rec,
            EventRecord::Transient(rec) => rec,
            EventRecord::Serialized(_) => unreached(),
        };
        if self.index < rec.extended_data_len() {
            let item = rec.extended_data_item(self.index);
            self.index = self.index + 1;
            Some(item)
        } else {
            None
        }
    }
}

} // verus!
