//! The serialized form of an event record.
//!
//! The wire encoding is little-endian: the fixed-size header and buffer
//! context, then the extended-data items and the payload, each variable-length
//! part prefixed by a 16-bit length, matching the width of the corresponding
//! native field.  [`EventRecordOwned::serialize`] produces exactly
//! [`spec_serialize`] of the record's value, and
//! [`EventRecordOwned::deserialize`] accepts exactly such encodings, so the
//! two round-trip losslessly.

use vstd::arithmetic::div_mod::{lemma_fundamental_div_mod, lemma_fundamental_div_mod_converse};
use vstd::prelude::*;

use crate::event_record::{
    lemma_consistent_flag_normalized, EtwBufferContext, EventDescriptor, EventHeader,
    EventRecordOwned, EventRecordView, ExtendedDataItem, ExtendedDataItemView,
    EXTENDED_INFO_FLAG,
};

verus! {

/// The two little-endian bytes of a 16-bit value.
pub open spec fn spec_le16(x: u16) -> Seq<u8> {
    seq![(x % 0x100) as u8, (x / 0x100) as u8]
}

/// The four little-endian bytes of a 32-bit value.
pub open spec fn spec_le32(x: u32) -> Seq<u8> {
    spec_le16((x % 0x10000) as u16) + spec_le16((x / 0x10000) as u16)
}

/// The eight little-endian bytes of a 64-bit value.
pub open spec fn spec_le64(x: u64) -> Seq<u8> {
    spec_le32((x % 0x100000000) as u32) + spec_le32((x / 0x100000000) as u32)
}

/// The sixteen little-endian bytes of a 128-bit value.
pub open spec fn spec_le128(x: u128) -> Seq<u8> {
    spec_le64((x % 0x10000000000000000) as u64) + spec_le64((x / 0x10000000000000000) as u64)
}

/// The 16-bit value encoded by two little-endian bytes.
pub open spec fn spec_read16(b: Seq<u8>) -> u16
    recommends
        b.len() == 2,
{
    (b[0] + b[1] * 0x100) as u16
}

/// The 32-bit value encoded by four little-endian bytes.
pub open spec fn spec_read32(b: Seq<u8>) -> u32
    recommends
        b.len() == 4,
{
    (spec_read16(b.subrange(0, 2)) + spec_read16(b.subrange(2, 4)) * 0x10000) as u32
}

/// The 64-bit value encoded by eight little-endian bytes.
pub open spec fn spec_read64(b: Seq<u8>) -> u64
    recommends
        b.len() == 8,
{
    (spec_read32(b.subrange(0, 4)) + spec_read32(b.subrange(4, 8)) * 0x100000000) as u64
}

/// The 128-bit value encoded by sixteen little-endian bytes.
pub open spec fn spec_read128(b: Seq<u8>) -> u128
    recommends
        b.len() == 16,
{
    (spec_read64(b.subrange(0, 8)) + spec_read64(b.subrange(8, 16)) * 0x10000000000000000) as u128
}

/// Decoding inverts encoding for 16-bit values.
pub proof fn lemma_rt16(x: u16)
    ensures
        spec_le16(x).len() == 2,
        spec_read16(spec_le16(x)) == x,
{
    lemma_fundamental_div_mod(x as int, 0x100);
}

/// Decoding inverts encoding for 32-bit values.
pub proof fn lemma_rt32(x: u32)
    ensures
        spec_le32(x).len() == 4,
        spec_read32(spec_le32(x)) == x,
{
    let lo = (x % 0x10000) as u16;
    let hi = (x / 0x10000) as u16;
    lemma_rt16(lo);
    lemma_rt16(hi);
    assert(spec_le32(x).subrange(0, 2) =~= spec_le16(lo));
    assert(spec_le32(x).subrange(2, 4) =~= spec_le16(hi));
    lemma_fundamental_div_mod(x as int, 0x10000);
}

/// Decoding inverts encoding for 64-bit values.
pub proof fn lemma_rt64(x: u64)
    ensures
        spec_le64(x).len() == 8,
        spec_read64(spec_le64(x)) == x,
{
    let lo = (x % 0x100000000) as u32;
    let hi = (x / 0x100000000) as u32;
    lemma_rt32(lo);
    lemma_rt32(hi);
    assert(spec_le64(x).subrange(0, 4) =~= spec_le32(lo));
    assert(spec_le64(x).subrange(4, 8) =~= spec_le32(hi));
    lemma_fundamental_div_mod(x as int, 0x100000000);
}

/// Decoding inverts encoding for 128-bit values.
pub proof fn lemma_rt128(x: u128)
    ensures
        spec_le128(x).len() == 16,
        spec_read128(spec_le128(x)) == x,
{
    let lo = (x % 0x10000000000000000) as u64;
    let hi = (x / 0x10000000000000000) as u64;
    lemma_rt64(lo);
    lemma_rt64(hi);
    assert(spec_le128(x).subrange(0, 8) =~= spec_le64(lo));
    assert(spec_le128(x).subrange(8, 16) =~= spec_le64(hi));
    lemma_fundamental_div_mod(x as int, 0x10000000000000000);
}

/// Two little-endian bytes encode exactly the value they decode to.
pub proof fn lemma_surj16(b: Seq<u8>)
    requires
        b.len() == 2,
    ensures
        spec_le16(spec_read16(b)) == b,
{
    let x = spec_read16(b);
    lemma_fundamental_div_mod_converse(x as int, 0x100, b[1] as int, b[0] as int);
    assert(spec_le16(x) =~= b);
}

/// Four little-endian bytes encode exactly the value they decode to.
pub proof fn lemma_surj32(b: Seq<u8>)
    requires
        b.len() == 4,
    ensures
        spec_le32(spec_read32(b)) == b,
{
    let x = spec_read32(b);
    let lo = spec_read16(b.subrange(0, 2));
    let hi = spec_read16(b.subrange(2, 4));
    lemma_fundamental_div_mod_converse(x as int, 0x10000, hi as int, lo as int);
    lemma_surj16(b.subrange(0, 2));
    lemma_surj16(b.subrange(2, 4));
    assert(spec_le32(x) =~= b);
}

/// Eight little-endian bytes encode exactly the value they decode to.
pub proof fn lemma_surj64(b: Seq<u8>)
    requires
        b.len() == 8,
    ensures
        spec_le64(spec_read64(b)) == b,
{
    let x = spec_read64(b);
    let lo = spec_read32(b.subrange(0, 4));
    let hi = spec_read32(b.subrange(4, 8));
    lemma_fundamental_div_mod_converse(x as int, 0x100000000, hi as int, lo as int);
    lemma_surj32(b.subrange(0, 4));
    lemma_surj32(b.subrange(4, 8));
    assert(spec_le64(x) =~= b);
}

/// Sixteen little-endian bytes encode exactly the value they decode to.
pub proof fn lemma_surj128(b: Seq<u8>)
    requires
        b.len() == 16,
    ensures
        spec_le128(spec_read128(b)) == b,
{
    let x = spec_read128(b);
    let lo = spec_read64(b.subrange(0, 8));
    let hi = spec_read64(b.subrange(8, 16));
    lemma_fundamental_div_mod_converse(x as int, 0x10000000000000000, hi as int, lo as int);
    lemma_surj64(b.subrange(0, 8));
    lemma_surj64(b.subrange(8, 16));
    assert(spec_le128(x) =~= b);
}

/// Reads the 16-bit value at `i`.
fn read_le16(b: &[u8], i: usize) -> (x: u16)
    requires
        i + 2 <= b@.len(),
    ensures
        x == spec_read16(b@.subrange(i as int, i as int + 2)),
{
    let n = b.len();
    assert(i + 2 <= n);
    (b[i] as u16) + (b[i + 1] as u16) * 0x100
}

/// Reads the 32-bit value at `i`.
fn read_le32(b: &[u8], i: usize) -> (x: u32)
    requires
        i + 4 <= b@.len(),
    ensures
        x == spec_read32(b@.subrange(i as int, i as int + 4)),
{
    let n = b.len();
    assert(i + 4 <= n);
    let lo = read_le16(b, i);
    let hi = read_le16(b, i + 2);
    proof {
        let whole = b@.subrange(i as int, i as int + 4);
        assert(whole.subrange(0, 2) =~= b@.subrange(i as int, i as int + 2));
        assert(whole.subrange(2, 4) =~= b@.subrange(i as int + 2, i as int + 4));
    }
    (lo as u32) + (hi as u32) * 0x10000
}

/// Reads the 64-bit value at `i`.
fn read_le64(b: &[u8], i: usize) -> (x: u64)
    requires
        i + 8 <= b@.len(),
    ensures
        x == spec_read64(b@.subrange(i as int, i as int + 8)),
{
    let n = b.len();
    assert(i + 8 <= n);
    let lo = read_le32(b, i);
    let hi = read_le32(b, i + 4);
    proof {
        let whole = b@.subrange(i as int, i as int + 8);
        assert(whole.subrange(0, 4) =~= b@.subrange(i as int, i as int + 4));
        assert(whole.subrange(4, 8) =~= b@.subrange(i as int + 4, i as int + 8));
    }
    (lo as u64) + (hi as u64) * 0x100000000
}

/// Reads the 128-bit value at `i`.
fn read_le128(b: &[u8], i: usize) -> (x: u128)
    requires
        i + 16 <= b@.len(),
    ensures
        x == spec_read128(b@.subrange(i as int, i as int + 16)),
{
    let n = b.len();
    assert(i + 16 <= n);
    let lo = read_le64(b, i);
    let hi = read_le64(b, i + 8);
    proof {
        let whole = b@.subrange(i as int, i as int + 16);
        assert(whole.subrange(0, 8) =~= b@.subrange(i as int, i as int + 8));
        assert(whole.subrange(8, 16) =~= b@.subrange(i as int + 8, i as int + 16));
    }
    (lo as u128) + (hi as u128) * 0x10000000000000000
}

/// Copies `len` bytes starting at `start` into a fresh vector.
fn read_bytes(b: &[u8], start: usize, len: usize) -> (out: Vec<u8>)
    requires
        start + len <= b@.len(),
    ensures
        out@ == b@.subrange(start as int, start as int + len as int),
{
    let n = b.len();
    assert(start + len <= n);
    let mut out: Vec<u8> = Vec::new();
    let mut i: usize = 0;
    while i < len
        invariant
            start + len <= b@.len(),
            b@.len() <= usize::MAX,
            i <= len,
            out@ == b@.subrange(start as int, start as int + i as int),
        decreases len - i,
    {
        out.push(b[start + i]);
        proof {
            assert(out@ =~= b@.subrange(start as int, start as int + i as int + 1));
        }
        i += 1;
    }
    out
}

/// Appends the two little-endian bytes of `x`.
fn push_le16(out: &mut Vec<u8>, x: u16)
    ensures
        final(out)@ == old(out)@ + spec_le16(x),
{
    out.push((x % 0x100) as u8);
    out.push((x / 0x100) as u8);
    proof {
        assert(out@ =~= old(out)@ + spec_le16(x));
    }
}

/// Appends the four little-endian bytes of `x`.
fn push_le32(out: &mut Vec<u8>, x: u32)
    ensures
        final(out)@ == old(out)@ + spec_le32(x),
{
    push_le16(out, (x % 0x10000) as u16);
    push_le16(out, (x / 0x10000) as u16);
    proof {
        assert(out@ =~= old(out)@ + spec_le32(x));
    }
}

/// Appends the eight little-endian bytes of `x`.
fn push_le64(out: &mut Vec<u8>, x: u64)
    ensures
        final(out)@ == old(out)@ + spec_le64(x),
{
    push_le32(out, (x % 0x100000000) as u32);
    push_le32(out, (x / 0x100000000) as u32);
    proof {
        assert(out@ =~= old(out)@ + spec_le64(x));
    }
}

/// Appends the sixteen little-endian bytes of `x`.
fn push_le128(out: &mut Vec<u8>, x: u128)
    ensures
        final(out)@ == old(out)@ + spec_le128(x),
{
    push_le64(out, (x % 0x10000000000000000) as u64);
    push_le64(out, (x / 0x10000000000000000) as u64);
    proof {
        assert(out@ =~= old(out)@ + spec_le128(x));
    }
}

/// Appends a byte slice.
fn push_bytes(out: &mut Vec<u8>, b: &[u8])
    ensures
        final(out)@ == old(out)@ + b@,
{
    let mut i: usize = 0;
    while i < b.len()
        invariant
            i <= b@.len(),
            out@ == old(out)@ + b@.take(i as int),
        decreases b@.len() - i,
    {
        out.push(b[i]);
        proof {
            assert(old(out)@ + b@.take(i as int) + seq![b@[i as int]] =~= old(out)@ + b@.take(
                i as int + 1,
            ));
        }
        i += 1;
    }
    proof {
        assert(old(out)@ + b@.take(b@.len() as int) =~= old(out)@ + b@);
    }
}

/// The encoding of the fixed-size header: every field in declaration order,
/// the time stamp as its two's-complement bits.
#[verifier::opaque]
pub open spec fn spec_ser_header(h: EventHeader) -> Seq<u8> {
    spec_le16(h.size) + spec_le16(h.header_type) + spec_le16(h.flags) + spec_le16(h.event_property)
        + spec_le32(h.thread_id) + spec_le32(h.process_id) + spec_le64(h.time_stamp as u64) + spec_le128(
        h.provider_id,
    ) + spec_le16(h.descriptor.id) + seq![
        h.descriptor.version,
        h.descriptor.channel,
        h.descriptor.level,
        h.descriptor.opcode,
    ] + spec_le16(h.descriptor.task) + spec_le64(h.descriptor.keyword) + spec_le64(h.processor_time)
        + spec_le128(h.activity_id)
}

/// The encoding of the buffer context.
pub open spec fn spec_ser_ctx(c: EtwBufferContext) -> Seq<u8> {
    seq![c.processor, c.alignment] + spec_le16(c.logger_id)
}

/// The encoding of one extended-data item: tag, flags, then the
/// length-prefixed payload.
pub open spec fn spec_ser_item(it: ExtendedDataItemView) -> Seq<u8> {
    spec_le16(it.ext_type) + spec_le16(it.flags) + spec_le16(it.data.len() as u16) + it.data
}

/// The encoding of a run of extended-data items, in order.
pub open spec fn spec_ser_items(items: Seq<ExtendedDataItemView>) -> Seq<u8>
    decreases items.len(),
{
    if items.len() == 0 {
        Seq::empty()
    } else {
        spec_ser_item(items[0]) + spec_ser_items(items.drop_first())
    }
}

/// Encoding a run of items one longer appends the encoding of the new last
/// item.
pub proof fn lemma_ser_items_snoc(items: Seq<ExtendedDataItemView>, x: ExtendedDataItemView)
    ensures
        spec_ser_items(items.push(x)) == spec_ser_items(items) + spec_ser_item(x),
    decreases items.len(),
{
    if items.len() == 0 {
        assert(items.push(x).drop_first() =~= items);
        assert(spec_ser_items(items.push(x)) =~= spec_ser_items(items) + spec_ser_item(x));
    } else {
        assert(items.push(x).drop_first() =~= items.drop_first().push(x));
        lemma_ser_items_snoc(items.drop_first(), x);
        assert(spec_ser_items(items.push(x)) =~= spec_ser_items(items) + spec_ser_item(x));
    }
}

/// The encoding of a whole record: header, buffer context, the
/// 16-bit-counted extended-data items, then the 16-bit-length-prefixed
/// payload.
pub open spec fn spec_serialize(v: EventRecordView) -> Seq<u8> {
    spec_ser_header(v.header) + spec_ser_ctx(v.buffer_context) + spec_le16(
        v.extended_data_items.len() as u16,
    ) + spec_ser_items(v.extended_data_items) + spec_le16(v.user_data.len() as u16) + v.user_data
}

/// A signed 64-bit value survives the round trip through its bit pattern.
proof fn lemma_i64_bits_rt(t: i64)
    ensures
        (t as u64) as i64 == t,
{
    assert((t as u64) as i64 == t) by (bit_vector);
}

/// An unsigned 64-bit value survives the round trip through the signed view.
proof fn lemma_u64_bits_rt(y: u64)
    ensures
        ((y as i64) as u64) == y,
{
    assert(((y as i64) as u64) == y) by (bit_vector);
}

/// The header and buffer context encoded by the first 84 bytes.
pub open spec fn spec_parse_fixed(b: Seq<u8>) -> (EventHeader, EtwBufferContext)
    recommends
        b.len() == 84,
{
    (
        EventHeader {
            size: spec_read16(b.subrange(0, 2)),
            header_type: spec_read16(b.subrange(2, 4)),
            flags: spec_read16(b.subrange(4, 6)),
            event_property: spec_read16(b.subrange(6, 8)),
            thread_id: spec_read32(b.subrange(8, 12)),
            process_id: spec_read32(b.subrange(12, 16)),
            time_stamp: spec_read64(b.subrange(16, 24)) as i64,
            provider_id: spec_read128(b.subrange(24, 40)),
            descriptor: EventDescriptor {
                id: spec_read16(b.subrange(40, 42)),
                version: b[42],
                channel: b[43],
                level: b[44],
                opcode: b[45],
                task: spec_read16(b.subrange(46, 48)),
                keyword: spec_read64(b.subrange(48, 56)),
            },
            processor_time: spec_read64(b.subrange(56, 64)),
            activity_id: spec_read128(b.subrange(64, 80)),
        },
        EtwBufferContext { processor: b[80], alignment: b[81], logger_id: spec_read16(b.subrange(82, 84)) },
    )
}

/// First stage of [`lemma_fixed_rt`]: the fields up to the provider
/// identifier are recovered.
#[verifier::rlimit(100)]
#[verifier::spinoff_prover]
proof fn lemma_fixed_rt_a(h: EventHeader, c: EtwBufferContext)
    ensures
        ({
            let b = spec_ser_header(h) + spec_ser_ctx(c);
            let p = spec_parse_fixed(b).0;
            &&& b.len() == 84
            &&& p.size == h.size
            &&& p.header_type == h.header_type
            &&& p.flags == h.flags
            &&& p.event_property == h.event_property
            &&& p.thread_id == h.thread_id
            &&& p.process_id == h.process_id
            &&& p.time_stamp == h.time_stamp
            &&& p.provider_id == h.provider_id
        }),
{
    reveal(spec_ser_header);
    let b = spec_ser_header(h) + spec_ser_ctx(c);
    lemma_rt16(h.size);
    lemma_rt16(h.header_type);
    lemma_rt16(h.flags);
    lemma_rt16(h.event_property);
    lemma_rt32(h.thread_id);
    lemma_rt32(h.process_id);
    lemma_rt64(h.time_stamp as u64);
    lemma_rt128(h.provider_id);
    lemma_rt16(h.descriptor.id);
    lemma_rt16(h.descriptor.task);
    lemma_rt64(h.descriptor.keyword);
    lemma_rt64(h.processor_time);
    lemma_rt128(h.activity_id);
    lemma_rt16(c.logger_id);
    assert(b.subrange(0, 2) =~= spec_le16(h.size));
    assert(b.subrange(2, 4) =~= spec_le16(h.header_type));
    assert(b.subrange(4, 6) =~= spec_le16(h.flags));
    assert(b.subrange(6, 8) =~= spec_le16(h.event_property));
    assert(b.subrange(8, 12) =~= spec_le32(h.thread_id));
    assert(b.subrange(12, 16) =~= spec_le32(h.process_id));
    assert(b.subrange(16, 24) =~= spec_le64(h.time_stamp as u64));
    assert(b.subrange(24, 40) =~= spec_le128(h.provider_id));
    lemma_i64_bits_rt(h.time_stamp);
}

/// Second stage of [`lemma_fixed_rt`]: the descriptor and the remaining
/// fields are recovered.
#[verifier::rlimit(100)]
#[verifier::spinoff_prover]
proof fn lemma_fixed_rt_b(h: EventHeader, c: EtwBufferContext)
    ensures
        ({
            let b = spec_ser_header(h) + spec_ser_ctx(c);
            let (p, q) = spec_parse_fixed(b);
            &&& p.descriptor == h.descriptor
            &&& p.processor_time == h.processor_time
            &&& p.activity_id == h.activity_id
            &&& q == c
        }),
{
    reveal(spec_ser_header);
    let b = spec_ser_header(h) + spec_ser_ctx(c);
    lemma_rt16(h.size);
    lemma_rt16(h.header_type);
    lemma_rt16(h.flags);
    lemma_rt16(h.event_property);
    lemma_rt32(h.thread_id);
    lemma_rt32(h.process_id);
    lemma_rt64(h.time_stamp as u64);
    lemma_rt128(h.provider_id);
    lemma_rt16(h.descriptor.id);
    lemma_rt16(h.descriptor.task);
    lemma_rt64(h.descriptor.keyword);
    lemma_rt64(h.processor_time);
    lemma_rt128(h.activity_id);
    lemma_rt16(c.logger_id);
    assert(b.subrange(40, 42) =~= spec_le16(h.descriptor.id));
    assert(b[42] == h.descriptor.version);
    assert(b[43] == h.descriptor.channel);
    assert(b[44] == h.descriptor.level);
    assert(b[45] == h.descriptor.opcode);
    assert(b.subrange(46, 48) =~= spec_le16(h.descriptor.task));
    assert(b.subrange(48, 56) =~= spec_le64(h.descriptor.keyword));
    assert(b.subrange(56, 64) =~= spec_le64(h.processor_time));
    assert(b.subrange(64, 80) =~= spec_le128(h.activity_id));
    assert(b[80] == c.processor);
    assert(b[81] == c.alignment);
    assert(b.subrange(82, 84) =~= spec_le16(c.logger_id));
}

/// Parsing the fixed part inverts encoding it.
pub proof fn lemma_fixed_rt(h: EventHeader, c: EtwBufferContext)
    ensures
        (spec_ser_header(h) + spec_ser_ctx(c)).len() == 84,
        spec_parse_fixed(spec_ser_header(h) + spec_ser_ctx(c)) == (h, c),
{
    lemma_fixed_rt_a(h, c);
    lemma_fixed_rt_b(h, c);
}

/// Gluing the next segment of `b` onto a known prefix of `b` yields the
/// longer prefix.
proof fn lemma_glue_prefix(pre: Seq<u8>, piece: Seq<u8>, b: Seq<u8>, m: int)
    requires
        0 <= m,
        m + piece.len() <= b.len(),
        pre == b.subrange(0, m),
        piece == b.subrange(m, m + piece.len() as int),
    ensures
        pre + piece == b.subrange(0, m + piece.len() as int),
{
    assert(pre + piece =~= b.subrange(0, m + piece.len() as int));
}

/// First stage of [`lemma_fixed_surj`]: the fields up to the provider
/// identifier encode the first 40 bytes.
#[verifier::rlimit(100)]
#[verifier::spinoff_prover]
proof fn lemma_fixed_surj_a(b: Seq<u8>)
    requires
        b.len() == 84,
    ensures
        ({
            let (h, c) = spec_parse_fixed(b);
            spec_le16(h.size) + spec_le16(h.header_type) + spec_le16(h.flags) + spec_le16(
                h.event_property,
            ) + spec_le32(h.thread_id) + spec_le32(h.process_id) + spec_le64(h.time_stamp as u64)
                + spec_le128(h.provider_id) == b.subrange(0, 40)
        }),
{
    let (h, c) = spec_parse_fixed(b);
    lemma_surj16(b.subrange(0, 2));
    lemma_surj16(b.subrange(2, 4));
    lemma_surj16(b.subrange(4, 6));
    lemma_surj16(b.subrange(6, 8));
    lemma_surj32(b.subrange(8, 12));
    lemma_surj32(b.subrange(12, 16));
    lemma_surj64(b.subrange(16, 24));
    lemma_surj128(b.subrange(24, 40));
    lemma_u64_bits_rt(spec_read64(b.subrange(16, 24)));
    let p1 = spec_le16(h.size);
    assert(p1 =~= b.subrange(0, 2));
    let p2 = p1 + spec_le16(h.header_type);
    lemma_glue_prefix(p1, spec_le16(h.header_type), b, 2);
    let p3 = p2 + spec_le16(h.flags);
    lemma_glue_prefix(p2, spec_le16(h.flags), b, 4);
    let p4 = p3 + spec_le16(h.event_property);
    lemma_glue_prefix(p3, spec_le16(h.event_property), b, 6);
    let p5 = p4 + spec_le32(h.thread_id);
    lemma_glue_prefix(p4, spec_le32(h.thread_id), b, 8);
    let p6 = p5 + spec_le32(h.process_id);
    lemma_glue_prefix(p5, spec_le32(h.process_id), b, 12);
    let p7 = p6 + spec_le64(h.time_stamp as u64);
    assert(spec_le64(h.time_stamp as u64) == b.subrange(16, 24));
    lemma_glue_prefix(p6, spec_le64(h.time_stamp as u64), b, 16);
    let p8 = p7 + spec_le128(h.provider_id);
    lemma_glue_prefix(p7, spec_le128(h.provider_id), b, 24);
}

/// Second stage of [`lemma_fixed_surj`]: the fields up to the task encode
/// the first 48 bytes.
#[verifier::rlimit(100)]
#[verifier::spinoff_prover]
proof fn lemma_fixed_surj_b1(b: Seq<u8>)
    requires
        b.len() == 84,
    ensures
        ({
            let (h, c) = spec_parse_fixed(b);
            spec_le16(h.size) + spec_le16(h.header_type) + spec_le16(h.flags) + spec_le16(
                h.event_property,
            ) + spec_le32(h.thread_id) + spec_le32(h.process_id) + spec_le64(h.time_stamp as u64)
                + spec_le128(h.provider_id) + spec_le16(h.descriptor.id) + seq![
                h.descriptor.version,
                h.descriptor.channel,
                h.descriptor.level,
                h.descriptor.opcode,
            ] + spec_le16(h.descriptor.task) == b.subrange(0, 48)
        }),
{
    let (h, c) = spec_parse_fixed(b);
    lemma_fixed_surj_a(b);
    lemma_surj16(b.subrange(40, 42));
    lemma_surj16(b.subrange(46, 48));
    let p8 = spec_le16(h.size) + spec_le16(h.header_type) + spec_le16(h.flags) + spec_le16(
        h.event_property,
    ) + spec_le32(h.thread_id) + spec_le32(h.process_id) + spec_le64(h.time_stamp as u64)
        + spec_le128(h.provider_id);
    let p9 = p8 + spec_le16(h.descriptor.id);
    lemma_glue_prefix(p8, spec_le16(h.descriptor.id), b, 40);
    let mid = seq![
        h.descriptor.version,
        h.descriptor.channel,
        h.descriptor.level,
        h.descriptor.opcode,
    ];
    assert(mid =~= b.subrange(42, 46));
    let p10 = p9 + mid;
    lemma_glue_prefix(p9, mid, b, 42);
    lemma_glue_prefix(p10, spec_le16(h.descriptor.task), b, 46);
}

/// Second stage, continued: the fields up to the keyword encode the first 56
/// bytes.
#[verifier::rlimit(100)]
#[verifier::spinoff_prover]
proof fn lemma_fixed_surj_b(b: Seq<u8>)
    requires
        b.len() == 84,
    ensures
        ({
            let (h, c) = spec_parse_fixed(b);
            spec_le16(h.size) + spec_le16(h.header_type) + spec_le16(h.flags) + spec_le16(
                h.event_property,
            ) + spec_le32(h.thread_id) + spec_le32(h.process_id) + spec_le64(h.time_stamp as u64)
                + spec_le128(h.provider_id) + spec_le16(h.descriptor.id) + seq![
                h.descriptor.version,
                h.descriptor.channel,
                h.descriptor.level,
                h.descriptor.opcode,
            ] + spec_le16(h.descriptor.task) + spec_le64(h.descriptor.keyword) == b.subrange(0, 56)
        }),
{
    let (h, c) = spec_parse_fixed(b);
    lemma_fixed_surj_b1(b);
    lemma_surj64(b.subrange(48, 56));
    let p11 = spec_le16(h.size) + spec_le16(h.header_type) + spec_le16(h.flags) + spec_le16(
        h.event_property,
    ) + spec_le32(h.thread_id) + spec_le32(h.process_id) + spec_le64(h.time_stamp as u64)
        + spec_le128(h.provider_id) + spec_le16(h.descriptor.id) + seq![
        h.descriptor.version,
        h.descriptor.channel,
        h.descriptor.level,
        h.descriptor.opcode,
    ] + spec_le16(h.descriptor.task);
    lemma_glue_prefix(p11, spec_le64(h.descriptor.keyword), b, 48);
}

/// Third stage of [`lemma_fixed_surj`]: the whole header encodes the first
/// 80 bytes.
#[verifier::rlimit(100)]
#[verifier::spinoff_prover]
proof fn lemma_fixed_surj_c(b: Seq<u8>)
    requires
        b.len() == 84,
    ensures
        ({
            let (h, c) = spec_parse_fixed(b);
            spec_ser_header(h) == b.subrange(0, 80)
        }),
{
    reveal(spec_ser_header);
    let (h, c) = spec_parse_fixed(b);
    lemma_fixed_surj_b(b);
    lemma_surj64(b.subrange(56, 64));
    lemma_surj128(b.subrange(64, 80));
    let p12 = spec_le16(h.size) + spec_le16(h.header_type) + spec_le16(h.flags) + spec_le16(
        h.event_property,
    ) + spec_le32(h.thread_id) + spec_le32(h.process_id) + spec_le64(h.time_stamp as u64)
        + spec_le128(h.provider_id) + spec_le16(h.descriptor.id) + seq![
        h.descriptor.version,
        h.descriptor.channel,
        h.descriptor.level,
        h.descriptor.opcode,
    ] + spec_le16(h.descriptor.task) + spec_le64(h.descriptor.keyword);
    let p13 = p12 + spec_le64(h.processor_time);
    lemma_glue_prefix(p12, spec_le64(h.processor_time), b, 56);
    let p14 = p13 + spec_le128(h.activity_id);
    lemma_glue_prefix(p13, spec_le128(h.activity_id), b, 64);
    assert(p14 == spec_ser_header(h));
}

/// Fourth stage of [`lemma_fixed_surj`]: the buffer context encodes bytes 80
/// to 84.
#[verifier::rlimit(100)]
proof fn lemma_fixed_surj_ctx(b: Seq<u8>)
    requires
        b.len() == 84,
    ensures
        ({
            let (h, c) = spec_parse_fixed(b);
            spec_ser_ctx(c) == b.subrange(80, 84)
        }),
{
    let (h, c) = spec_parse_fixed(b);
    lemma_surj16(b.subrange(82, 84));
    let ctx_head = seq![c.processor, c.alignment];
    assert(ctx_head =~= b.subrange(80, 82));
    assert(spec_ser_ctx(c) =~= b.subrange(80, 84));
}

/// 84 bytes encode exactly the header and buffer context they parse to.
#[verifier::rlimit(100)]
#[verifier::spinoff_prover]
pub proof fn lemma_fixed_surj(b: Seq<u8>)
    requires
        b.len() == 84,
    ensures
        ({
            let (h, c) = spec_parse_fixed(b);
            spec_ser_header(h) + spec_ser_ctx(c) == b
        }),
{
    let (h, c) = spec_parse_fixed(b);
    lemma_fixed_surj_c(b);
    lemma_fixed_surj_ctx(b);
    lemma_glue_prefix(spec_ser_header(h), spec_ser_ctx(c), b, 80);
    assert(b.subrange(0, 84) =~= b);
}

/// A run of items is determined by its encoding: when the encoding of `ivs`
/// followed by anything coincides with the encoding of `vs` followed by
/// anything, `ivs` is exactly the first items of `vs` and the remainders line
/// up after them.
#[verifier::rlimit(100)]
pub proof fn lemma_ser_items_prefix(
    ivs: Seq<ExtendedDataItemView>,
    vs: Seq<ExtendedDataItemView>,
    rest1: Seq<u8>,
    rest2: Seq<u8>,
)
    requires
        ivs.len() <= vs.len(),
        forall|j: int| 0 <= j < ivs.len() ==> (#[trigger] ivs[j]).data.len() <= u16::MAX,
        forall|j: int| 0 <= j < vs.len() ==> (#[trigger] vs[j]).data.len() <= u16::MAX,
        spec_ser_items(ivs) + rest1 == spec_ser_items(vs) + rest2,
    ensures
        ivs == vs.take(ivs.len() as int),
        rest1 == spec_ser_items(vs.skip(ivs.len() as int)) + rest2,
    decreases ivs.len(),
{
    if ivs.len() == 0 {
        assert(ivs =~= vs.take(0));
        assert(vs.skip(0) =~= vs);
        assert(spec_ser_items(ivs) + rest1 =~= rest1);
        assert(rest1 =~= spec_ser_items(vs.skip(0)) + rest2);
    } else {
        let a = ivs[0];
        let b = vs[0];
        let whole = spec_ser_items(ivs) + rest1;
        let x1 = spec_ser_items(ivs.drop_first()) + rest1;
        let x2 = spec_ser_items(vs.drop_first()) + rest2;
        assert(whole =~= spec_ser_item(a) + x1);
        assert(whole =~= spec_ser_item(b) + x2);

        // The two leading items encode the same bytes, so they are equal.
        assert(whole.subrange(0, 2) =~= spec_le16(a.ext_type));
        assert(whole.subrange(0, 2) =~= spec_le16(b.ext_type));
        lemma_rt16(a.ext_type);
        lemma_rt16(b.ext_type);
        assert(a.ext_type == b.ext_type);

        assert(whole.subrange(2, 4) =~= spec_le16(a.flags));
        assert(whole.subrange(2, 4) =~= spec_le16(b.flags));
        lemma_rt16(a.flags);
        lemma_rt16(b.flags);
        assert(a.flags == b.flags);

        assert(whole.subrange(4, 6) =~= spec_le16(a.data.len() as u16));
        assert(whole.subrange(4, 6) =~= spec_le16(b.data.len() as u16));
        lemma_rt16(a.data.len() as u16);
        lemma_rt16(b.data.len() as u16);
        assert(a.data.len() as u16 == b.data.len() as u16);
        assert(a.data.len() == b.data.len());

        let dlen = a.data.len() as int;
        assert(whole.subrange(6, 6 + dlen) =~= a.data);
        assert(whole.subrange(6, 6 + dlen) =~= b.data);
        assert(a =~= b);

        // Peel the leading item and recurse on the tails.
        assert(whole.skip(6 + dlen) =~= x1);
        assert(whole.skip(6 + dlen) =~= x2);
        assert(x1 =~= x2);
        assert forall|j: int| 0 <= j < ivs.drop_first().len() implies (#[trigger] ivs.drop_first()[j]).data.len()
            <= u16::MAX by {
            assert(ivs.drop_first()[j] == ivs[j + 1]);
        };
        assert forall|j: int| 0 <= j < vs.drop_first().len() implies (#[trigger] vs.drop_first()[j]).data.len()
            <= u16::MAX by {
            assert(vs.drop_first()[j] == vs[j + 1]);
        };
        lemma_ser_items_prefix(ivs.drop_first(), vs.drop_first(), rest1, rest2);

        let k = ivs.len() as int;
        let tail = ivs.drop_first();
        assert forall|j: int| 0 <= j < k implies ivs[j] == vs.take(k)[j] by {
            if j == 0 {
                assert(ivs[0] == a);
                assert(a == b);
            } else {
                assert(ivs[j] == tail[j - 1]);
                assert(tail[j - 1] == vs.drop_first().take(k - 1)[j - 1]);
                assert(vs.drop_first().take(k - 1)[j - 1] == vs.drop_first()[j - 1]);
                assert(vs.drop_first()[j - 1] == vs[j]);
            }
        };
        assert(ivs =~= vs.take(k));
        assert(vs.drop_first().skip(k - 1) =~= vs.skip(k));
        assert(rest1 =~= spec_ser_items(vs.skip(k)) + rest2);
    }
}

/// The fixed part reads only the first 84 bytes.
#[verifier::rlimit(100)]
proof fn lemma_parse_prefix_eq(b: Seq<u8>)
    requires
        b.len() >= 84,
    ensures
        spec_parse_fixed(b) == spec_parse_fixed(b.subrange(0, 84)),
{
    let p = b.subrange(0, 84);
    assert(p.subrange(0, 2) =~= b.subrange(0, 2));
    assert(p.subrange(2, 4) =~= b.subrange(2, 4));
    assert(p.subrange(4, 6) =~= b.subrange(4, 6));
    assert(p.subrange(6, 8) =~= b.subrange(6, 8));
    assert(p.subrange(8, 12) =~= b.subrange(8, 12));
    assert(p.subrange(12, 16) =~= b.subrange(12, 16));
    assert(p.subrange(16, 24) =~= b.subrange(16, 24));
    assert(p.subrange(24, 40) =~= b.subrange(24, 40));
    assert(p.subrange(40, 42) =~= b.subrange(40, 42));
    assert(p.subrange(46, 48) =~= b.subrange(46, 48));
    assert(p.subrange(48, 56) =~= b.subrange(48, 56));
    assert(p.subrange(56, 64) =~= b.subrange(56, 64));
    assert(p.subrange(64, 80) =~= b.subrange(64, 80));
    assert(p.subrange(82, 84) =~= b.subrange(82, 84));
}

/// In an encoding of `v`, the parsed fixed part is `v`'s header and buffer
/// context and the parsed count is `v`'s item count.
#[verifier::rlimit(100)]
proof fn lemma_alignment_fixed(bytes: Seq<u8>, count: u16, v: EventRecordView)
    requires
        bytes.len() >= 86,
        bytes.subrange(84, 86) == spec_le16(count),
        v.lengths_valid(),
        bytes == spec_serialize(v),
    ensures
        spec_parse_fixed(bytes) == (v.header, v.buffer_context),
        count == v.extended_data_items.len(),
{
    lemma_fixed_rt(v.header, v.buffer_context);
    let fix = spec_ser_header(v.header) + spec_ser_ctx(v.buffer_context);
    let cnt = v.extended_data_items.len() as u16;
    assert(bytes.subrange(0, 84) =~= fix);
    lemma_parse_prefix_eq(bytes);
    assert(spec_parse_fixed(bytes) == (v.header, v.buffer_context));
    assert(bytes.subrange(84, 86) =~= spec_le16(cnt));
    lemma_rt16(count);
    lemma_rt16(cnt);
    assert(count == cnt);
    assert(v.extended_data_items.len() <= u16::MAX);
    assert(count == v.extended_data_items.len());
}

/// In an encoding of `v`, whatever run of items the parser has reconstructed
/// so far is the corresponding prefix of `v`'s items, with the remainder of
/// the input aligned after it.
#[verifier::rlimit(100)]
proof fn lemma_alignment_items(
    bytes: Seq<u8>,
    ivs: Seq<ExtendedDataItemView>,
    pos: int,
    v: EventRecordView,
)
    requires
        86 <= pos <= bytes.len(),
        bytes.subrange(86, pos) == spec_ser_items(ivs),
        ivs.len() <= v.extended_data_items.len(),
        forall|j: int| 0 <= j < ivs.len() ==> (#[trigger] ivs[j]).data.len() <= u16::MAX,
        v.lengths_valid(),
        bytes == spec_serialize(v),
    ensures
        ivs == v.extended_data_items.take(ivs.len() as int),
        bytes.skip(pos) == spec_ser_items(v.extended_data_items.skip(ivs.len() as int)) + (spec_le16(
            v.user_data.len() as u16,
        ) + v.user_data),
{
    lemma_fixed_rt(v.header, v.buffer_context);
    let udl = v.user_data.len() as u16;
    let tail = spec_le16(udl) + v.user_data;
    assert(spec_ser_items(ivs) + bytes.skip(pos) =~= bytes.skip(86));
    assert(bytes.skip(86) =~= spec_ser_items(v.extended_data_items) + tail);
    assert forall|j: int|
        0 <= j < v.extended_data_items.len() implies (#[trigger] v.extended_data_items[j]).data.len()
        <= u16::MAX by {}
    lemma_ser_items_prefix(ivs, v.extended_data_items, bytes.skip(pos), tail);
}

/// A run of items encodes at least six bytes per item, and the first item's
/// encoding declares its own length in bytes four and five.
proof fn lemma_ser_items_head(items: Seq<ExtendedDataItemView>)
    requires
        items.len() > 0,
        items[0].data.len() <= u16::MAX,
    ensures
        spec_ser_items(items).len() >= 6 + items[0].data.len(),
        spec_ser_items(items).subrange(4, 6) == spec_le16(items[0].data.len() as u16),
{
    lemma_rt16(items[0].ext_type);
    lemma_rt16(items[0].flags);
    lemma_rt16(items[0].data.len() as u16);
    assert(spec_ser_items(items) =~= spec_ser_item(items[0]) + spec_ser_items(items.drop_first()));
    assert(spec_ser_items(items).subrange(4, 6) =~= spec_le16(items[0].data.len() as u16));
}

/// Reassembles a fully parsed input: the encoded segments, glued in order,
/// are exactly the input bytes.
#[verifier::rlimit(100)]
#[verifier::spinoff_prover]
proof fn lemma_assemble(
    bytes: Seq<u8>,
    h: EventHeader,
    c: EtwBufferContext,
    count: u16,
    ivs: Seq<ExtendedDataItemView>,
    pos: int,
    udl: u16,
    ud: Seq<u8>,
)
    requires
        bytes.len() >= 88,
        spec_parse_fixed(bytes) == (h, c),
        count == spec_read16(bytes.subrange(84, 86)),
        86 <= pos,
        pos + 2 + udl <= bytes.len(),
        bytes.subrange(86, pos) == spec_ser_items(ivs),
        udl == spec_read16(bytes.subrange(pos, pos + 2)),
        ud == bytes.subrange(pos + 2, bytes.len() as int),
        pos + 2 + udl == bytes.len(),
    ensures
        spec_ser_header(h) + spec_ser_ctx(c) + spec_le16(count) + spec_ser_items(ivs) + spec_le16(
            udl,
        ) + ud == bytes,
{
    lemma_parse_prefix_eq(bytes);
    lemma_fixed_surj(bytes.subrange(0, 84));
    let fix = spec_ser_header(h) + spec_ser_ctx(c);
    assert(fix == bytes.subrange(0, 84));
    lemma_surj16(bytes.subrange(84, 86));
    lemma_glue_prefix(fix, spec_le16(count), bytes, 84);
    lemma_glue_prefix(fix + spec_le16(count), spec_ser_items(ivs), bytes, 86);
    lemma_surj16(bytes.subrange(pos, pos + 2));
    lemma_glue_prefix(fix + spec_le16(count) + spec_ser_items(ivs), spec_le16(udl), bytes, pos);
    lemma_glue_prefix(
        fix + spec_le16(count) + spec_ser_items(ivs) + spec_le16(udl),
        ud,
        bytes,
        pos + 2,
    );
    assert(bytes.subrange(0, bytes.len() as int) =~= bytes);
}

/// Whether `bytes` is the encoding of the length-valid, flag-consistent
/// record value `v`.
pub open spec fn spec_encodes(v: EventRecordView, bytes: Seq<u8>) -> bool {
    v.lengths_valid() && v.flag_consistent() && bytes == spec_serialize(v)
}

/// No record encodes to fewer than 88 bytes.
#[verifier::rlimit(100)]
proof fn lemma_no_valid_short(bytes: Seq<u8>)
    requires
        bytes.len() < 88,
    ensures
        forall|v: EventRecordView| !spec_encodes(v, bytes),
{
    assert forall|v: EventRecordView| !spec_encodes(v, bytes) by {
        if spec_encodes(v, bytes) {
            lemma_fixed_rt(v.header, v.buffer_context);
            assert(spec_serialize(v).len() >= 88);
        }
    };
}

/// No record encodes to an input whose next item is cut off: either fewer
/// than six bytes remain, or fewer than the item's own declared payload
/// length.
#[verifier::rlimit(100)]
#[verifier::spinoff_prover]
proof fn lemma_no_valid_item_cut(
    bytes: Seq<u8>,
    ivs: Seq<ExtendedDataItemView>,
    pos: int,
    count: u16,
)
    requires
        88 <= bytes.len(),
        86 <= pos <= bytes.len(),
        count == spec_read16(bytes.subrange(84, 86)),
        bytes.subrange(86, pos) == spec_ser_items(ivs),
        ivs.len() < count,
        forall|j: int| 0 <= j < ivs.len() ==> (#[trigger] ivs[j]).data.len() <= u16::MAX,
        bytes.len() - pos < 6 || bytes.len() - (pos + 6) < spec_read16(
            bytes.subrange(pos + 4, pos + 6),
        ),
    ensures
        forall|v: EventRecordView| !spec_encodes(v, bytes),
{
    assert forall|v: EventRecordView| !spec_encodes(v, bytes) by {
        if spec_encodes(v, bytes) {
            lemma_surj16(bytes.subrange(84, 86));
            lemma_alignment_fixed(bytes, count, v);
            lemma_alignment_items(bytes, ivs, pos, v);
            let i = ivs.len() as int;
            let rem = v.extended_data_items.skip(i);
            assert(rem[0] == v.extended_data_items[i]);
            lemma_ser_items_head(rem);
            let remb = bytes.skip(pos);
            assert(remb.len() >= 6 + rem[0].data.len());
            assert(remb.subrange(4, 6) =~= bytes.subrange(pos + 4, pos + 6));
            assert(remb.subrange(4, 6) =~= spec_ser_items(rem).subrange(4, 6));
            lemma_rt16(rem[0].data.len() as u16);
            assert(spec_read16(bytes.subrange(pos + 4, pos + 6)) == rem[0].data.len());
        }
    };
}

/// No record encodes to an input whose payload region is not exactly the
/// length its prefix declares.
#[verifier::rlimit(100)]
#[verifier::spinoff_prover]
proof fn lemma_no_valid_tail(bytes: Seq<u8>, ivs: Seq<ExtendedDataItemView>, pos: int, count: u16)
    requires
        88 <= bytes.len(),
        86 <= pos <= bytes.len(),
        count == spec_read16(bytes.subrange(84, 86)),
        bytes.subrange(86, pos) == spec_ser_items(ivs),
        ivs.len() == count,
        forall|j: int| 0 <= j < ivs.len() ==> (#[trigger] ivs[j]).data.len() <= u16::MAX,
        bytes.len() - pos < 2 || bytes.len() - (pos + 2) != spec_read16(
            bytes.subrange(pos, pos + 2),
        ),
    ensures
        forall|v: EventRecordView| !spec_encodes(v, bytes),
{
    assert forall|v: EventRecordView| !spec_encodes(v, bytes) by {
        if spec_encodes(v, bytes) {
            lemma_surj16(bytes.subrange(84, 86));
            lemma_alignment_fixed(bytes, count, v);
            lemma_alignment_items(bytes, ivs, pos, v);
            let i = ivs.len() as int;
            assert(v.extended_data_items.skip(i) =~= Seq::<ExtendedDataItemView>::empty());
            let remb = bytes.skip(pos);
            assert(remb =~= spec_le16(v.user_data.len() as u16) + v.user_data);
            assert(remb.len() == 2 + v.user_data.len());
            assert(remb.subrange(0, 2) =~= bytes.subrange(pos, pos + 2));
            assert(remb.subrange(0, 2) =~= spec_le16(v.user_data.len() as u16));
            lemma_rt16(v.user_data.len() as u16);
            assert(spec_read16(bytes.subrange(pos, pos + 2)) == v.user_data.len());
        }
    };
}

/// No flag-consistent record encodes to an input whose extended-data flag
/// bit disagrees with its item count.
#[verifier::rlimit(100)]
proof fn lemma_no_valid_flags(bytes: Seq<u8>, count: u16)
    requires
        88 <= bytes.len(),
        count == spec_read16(bytes.subrange(84, 86)),
        (spec_parse_fixed(bytes).0.flags & EXTENDED_INFO_FLAG == EXTENDED_INFO_FLAG) != (count
            > 0),
    ensures
        forall|v: EventRecordView| !spec_encodes(v, bytes),
{
    assert forall|v: EventRecordView| !spec_encodes(v, bytes) by {
        if spec_encodes(v, bytes) {
            lemma_surj16(bytes.subrange(84, 86));
            lemma_alignment_fixed(bytes, count, v);
        }
    };
}

/// A fully parsed input determines its record: any length-valid,
/// flag-consistent value encoding to it equals the parsed one.
#[verifier::rlimit(100)]
#[verifier::spinoff_prover]
proof fn lemma_unique_decode(
    bytes: Seq<u8>,
    rv: EventRecordView,
    count: u16,
    pos: int,
)
    requires
        88 <= bytes.len(),
        86 <= pos <= bytes.len(),
        count == spec_read16(bytes.subrange(84, 86)),
        rv.header == spec_parse_fixed(bytes).0,
        rv.buffer_context == spec_parse_fixed(bytes).1,
        bytes.subrange(86, pos) == spec_ser_items(rv.extended_data_items),
        rv.extended_data_items.len() == count,
        forall|j: int|
            0 <= j < rv.extended_data_items.len() ==> (#[trigger] rv.extended_data_items[j]).data.len()
                <= u16::MAX,
        rv.user_data == bytes.subrange(pos + 2, bytes.len() as int),
    ensures
        forall|v: EventRecordView| spec_encodes(v, bytes) ==> rv == v,
{
    assert forall|v: EventRecordView| spec_encodes(v, bytes) implies rv == v by {
        lemma_surj16(bytes.subrange(84, 86));
        lemma_alignment_fixed(bytes, count, v);
        lemma_alignment_items(bytes, rv.extended_data_items, pos, v);
        let i = rv.extended_data_items.len() as int;
        assert(v.extended_data_items.take(i) =~= v.extended_data_items);
        assert(rv.extended_data_items == v.extended_data_items);
        assert(v.extended_data_items.skip(i) =~= Seq::<ExtendedDataItemView>::empty());
        let remb = bytes.skip(pos);
        assert(remb =~= spec_le16(v.user_data.len() as u16) + v.user_data);
        assert(rv.user_data =~= remb.subrange(2, remb.len() as int));
        assert(rv.user_data =~= v.user_data);
        assert(rv =~= v);
    };
}

/// One parsed item extends the soundness invariant: the input up to the new
/// position is the encoding of the items parsed so far.
#[verifier::rlimit(100)]
proof fn lemma_extend_items(
    bytes: Seq<u8>,
    ivs: Seq<ExtendedDataItemView>,
    iv: ExtendedDataItemView,
    pos: int,
)
    requires
        86 <= pos,
        pos + 6 + iv.data.len() <= bytes.len(),
        bytes.subrange(86, pos) == spec_ser_items(ivs),
        iv.ext_type == spec_read16(bytes.subrange(pos, pos + 2)),
        iv.flags == spec_read16(bytes.subrange(pos + 2, pos + 4)),
        iv.data.len() == spec_read16(bytes.subrange(pos + 4, pos + 6)),
        iv.data == bytes.subrange(pos + 6, pos + 6 + iv.data.len() as int),
    ensures
        bytes.subrange(86, pos + 6 + iv.data.len() as int) == spec_ser_items(ivs.push(iv)),
{
    lemma_surj16(bytes.subrange(pos, pos + 2));
    lemma_surj16(bytes.subrange(pos + 2, pos + 4));
    lemma_surj16(bytes.subrange(pos + 4, pos + 6));
    assert(spec_le16(iv.data.len() as u16) == bytes.subrange(pos + 4, pos + 6));
    let dlen = iv.data.len() as int;
    assert(spec_ser_item(iv) =~= bytes.subrange(pos, pos + 6 + dlen));
    lemma_ser_items_snoc(ivs, iv);
    assert(bytes.subrange(86, pos + 6 + dlen) =~= bytes.subrange(86, pos) + bytes.subrange(
        pos,
        pos + 6 + dlen,
    ));
}

impl EventRecordOwned {
    /// Encodes this record into its wire form.
    ///
    /// The length bounds required here are those of the native record, whose
    /// count and length fields are 16 bits wide.
    pub fn serialize(&self) -> (out: Vec<u8>)
        requires
            self@.lengths_valid(),
        ensures
            out@ == spec_serialize(self@),
    {
        let h: EventHeader = *self.header();
        let c: EtwBufferContext = *self.buffer_context();
        let mut out: Vec<u8> = Vec::new();
        push_le16(&mut out, h.size);
        push_le16(&mut out, h.header_type);
        push_le16(&mut out, h.flags);
        push_le16(&mut out, h.event_property);
        push_le32(&mut out, h.thread_id);
        push_le32(&mut out, h.process_id);
        push_le64(&mut out, h.time_stamp as u64);
        push_le128(&mut out, h.provider_id);
        push_le16(&mut out, h.descriptor.id);
        out.push(h.descriptor.version);
        out.push(h.descriptor.channel);
        out.push(h.descriptor.level);
        out.push(h.descriptor.opcode);
        push_le16(&mut out, h.descriptor.task);
        push_le64(&mut out, h.descriptor.keyword);
        push_le64(&mut out, h.processor_time);
        push_le128(&mut out, h.activity_id);
        out.push(c.processor);
        out.push(c.alignment);
        push_le16(&mut out, c.logger_id);
        proof {
            reveal(spec_ser_header);
            assert(out@ =~= spec_ser_header(self@.header) + spec_ser_ctx(self@.buffer_context));
        }
        let ghost fixed: Seq<u8> = out@;
        let n = self.extended_data_len();
        push_le16(&mut out, n as u16);
        let mut i: usize = 0;
        while i < n
            invariant
                self@.lengths_valid(),
                n == self@.extended_data_items.len(),
                i <= n,
                out@ == fixed + spec_le16(n as u16) + spec_ser_items(
                    self@.extended_data_items.take(i as int),
                ),
            decreases n - i,
        {
            let it = self.extended_data_item(i);
            push_le16(&mut out, it.ext_type);
            push_le16(&mut out, it.flags);
            push_le16(&mut out, it.data.len() as u16);
            push_bytes(&mut out, it.data.as_slice());
            proof {
                let items = self@.extended_data_items;
                assert(items.take(i as int + 1) =~= items.take(i as int).push(items[i as int]));
                lemma_ser_items_snoc(items.take(i as int), items[i as int]);
                assert(out@ =~= fixed + spec_le16(n as u16) + spec_ser_items(
                    items.take(i as int + 1),
                ));
            }
            i += 1;
        }
        proof {
            assert(self@.extended_data_items.take(n as int) =~= self@.extended_data_items);
        }
        push_le16(&mut out, self.user_data_len() as u16);
        push_bytes(&mut out, self.user_data());
        proof {
            assert(out@ =~= spec_serialize(self@));
        }
        out
    }

    /// Decodes one record from its wire form.
    ///
    /// Exactly the encodings that [`EventRecordOwned::serialize`] produces
    /// from a flag-consistent record are accepted: on success the returned
    /// record's value encodes to exactly the input, and the encoding of every
    /// length-valid, flag-consistent record decodes back to that record, so
    /// the two forms round-trip losslessly.
    #[verifier::rlimit(100)]
    pub fn deserialize(bytes: &[u8]) -> (r: Option<EventRecordOwned>)
        ensures
            r matches Some(rec) ==> {
                &&& rec@.lengths_valid()
                &&& rec@.flag_consistent()
                &&& spec_serialize(rec@) == bytes@
            },
            forall|v: EventRecordView|
                spec_encodes(v, bytes@) ==> (r matches Some(rec) && rec@ == v),
    {
        let n = bytes.len();
        if n < 88 {
            proof {
                lemma_no_valid_short(bytes@);
            }
            return None;
        }
        let h = EventHeader {
            size: read_le16(bytes, 0),
            header_type: read_le16(bytes, 2),
            flags: read_le16(bytes, 4),
            event_property: read_le16(bytes, 6),
            thread_id: read_le32(bytes, 8),
            process_id: read_le32(bytes, 12),
            time_stamp: read_le64(bytes, 16) as i64,
            provider_id: read_le128(bytes, 24),
            descriptor: EventDescriptor {
                id: read_le16(bytes, 40),
                version: bytes[42],
                channel: bytes[43],
                level: bytes[44],
                opcode: bytes[45],
                task: read_le16(bytes, 46),
                keyword: read_le64(bytes, 48),
            },
            processor_time: read_le64(bytes, 56),
            activity_id: read_le128(bytes, 64),
        };
        let c = EtwBufferContext {
            processor: bytes[80],
            alignment: bytes[81],
            logger_id: read_le16(bytes, 82),
        };
        proof {
            assert(spec_parse_fixed(bytes@) == (h, c));
        }
        let count = read_le16(bytes, 84);
        let mut items: Vec<ExtendedDataItem> = Vec::new();
        let mut pos: usize = 86;
        let mut i: usize = 0;
        while i < count as usize
            invariant
                n == bytes@.len(),
                88 <= n,
                86 <= pos <= n,
                i <= count as usize,
                items@.len() == i,
                spec_parse_fixed(bytes@) == (h, c),
                count == spec_read16(bytes@.subrange(84, 86)),
                bytes@.subrange(86, pos as int) == spec_ser_items(
                    items@.map_values(|it: ExtendedDataItem| it@),
                ),
                forall|j: int|
                    0 <= j < items@.len() ==> (#[trigger] items@[j])@.data.len() <= u16::MAX,
            decreases count as usize - i,
        {
            let ghost ivs = items@.map_values(|it: ExtendedDataItem| it@);
            if n - pos < 6 {
                proof {
                    lemma_no_valid_item_cut(bytes@, ivs, pos as int, count);
                }
                return None;
            }
            let ext_type = read_le16(bytes, pos);
            let item_flags = read_le16(bytes, pos + 2);
            let dlen = read_le16(bytes, pos + 4) as usize;
            if n - (pos + 6) < dlen {
                proof {
                    lemma_no_valid_item_cut(bytes@, ivs, pos as int, count);
                }
                return None;
            }
            let data = read_bytes(bytes, pos + 6, dlen);
            let item = ExtendedDataItem { ext_type, flags: item_flags, data };
            items.push(item);
            proof {
                lemma_extend_items(bytes@, ivs, item@, pos as int);
                assert(items@.map_values(|it: ExtendedDataItem| it@) =~= ivs.push(item@));
            }
            pos = pos + 6 + dlen;
            i += 1;
        }
        let ghost ivs = items@.map_values(|it: ExtendedDataItem| it@);
        if n - pos < 2 {
            proof {
                lemma_no_valid_tail(bytes@, ivs, pos as int, count);
            }
            return None;
        }
        let udlen = read_le16(bytes, pos) as usize;
        if n - (pos + 2) != udlen {
            proof {
                lemma_no_valid_tail(bytes@, ivs, pos as int, count);
            }
            return None;
        }
        let user_data = read_bytes(bytes, pos + 2, udlen);
        let flag_set = h.flags & EXTENDED_INFO_FLAG == EXTENDED_INFO_FLAG;
        if flag_set != (count > 0) {
            proof {
                lemma_no_valid_flags(bytes@, count);
            }
            return None;
        }
        let ghost ud = user_data@;
        let rec = EventRecordOwned::new(h, c, items, user_data);
        proof {
            let bv = EventRecordView {
                header: h,
                buffer_context: c,
                extended_data_items: ivs,
                user_data: ud,
            };
            assert(bv.flag_consistent());
            lemma_consistent_flag_normalized(bv);
            assert(rec@ == bv);
            assert(bv.lengths_valid());
            lemma_surj16(bytes@.subrange(84, 86));
            lemma_assemble(bytes@, h, c, count, ivs, pos as int, udlen as u16, ud);
            assert(spec_le16(ivs.len() as u16) == spec_le16(count));
            assert(spec_le16(ud.len() as u16) == spec_le16(udlen as u16));
            assert(spec_serialize(bv) == bytes@);
            lemma_unique_decode(bytes@, bv, count, pos as int);
        }
        Some(rec)
    }
}

} // verus!

