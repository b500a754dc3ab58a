//! What the chunk layer guarantees: a message that was split into chunks is
//! assembled again as it was, and the rules at the edge of the protocol.

use crate::chunk::error::ChunkError;
use crate::chunk::{
    assembled, basic_byte, basic_header, chunk_header, chunk_step, chunks_from, extended_bytes,
    header_fields, lemma_chunks_from_unfold, message_header, message_header_size, perfer_cid,
    receipt, stream_at, timestamp_field, ChunkStep, ChunkStreamView, CodecView, HeaderStep,
    MessageHeader,
    Receipt, MAX_PAYLOAD_LENGTH, PERF_CHUNK_STREAM_CACHE, RTMP_EXTENDED_TIMESTAMP,
};
use crate::endian::{
    be_u24, be_u32, le_u32, lemma_be_u24_of_bytes, lemma_be_u32_of_bytes, lemma_le_u32_of_bytes,
    u24_be_bytes, u32_be_bytes, u32_le_bytes,
};
use crate::message::PayloadView;
use vstd::prelude::*;

verus! {

/// A chunk count one higher, unless it is at its limit.
pub open spec fn bump(n: u32) -> u32 {
    if n < u32::MAX {
        (n + 1) as u32
    } else {
        n
    }
}

/// Stream `s` holds the first `sent` bytes of `p`, and `p`'s header.
pub open spec fn carries(s: ChunkStreamView, p: PayloadView, sent: nat) -> bool {
    &&& s.csid == perfer_cid(p.message_type)
    &&& s.payload == p.raw_data.subrange(0, sent as int)
    &&& s.header.payload_length == p.raw_data.len()
    &&& s.header.message_type == p.message_type
    &&& s.header.stream_id == p.csid
    &&& s.header.timestamp == p.timestamp
    &&& s.extended_timestamp == (p.timestamp >= RTMP_EXTENDED_TIMESTAMP)
    &&& s.extended_timestamp ==> s.extended_value == p.timestamp
    &&& s.msg_count >= 1
}

/// `p` can be sent and told apart from what it was sent as: it has a payload
/// whose length fits 24 bits, and a timestamp of 31 bits.
pub open spec fn sendable(p: PayloadView) -> bool {
    &&& 1 <= p.raw_data.len() < MAX_PAYLOAD_LENGTH
    &&& p.timestamp < 0x8000_0000
}

proof fn lemma_basic_header(p: PayloadView, first: bool, tail: Seq<u8>)
    ensures
        basic_header(seq![basic_byte(p, first)] + tail) == Some(
            (
                if first {
                    0u8
                } else {
                    3u8
                },
                perfer_cid(p.message_type),
                1nat,
            ),
        ),
{
    let input = seq![basic_byte(p, first)] + tail;
    assert(input[0] == basic_byte(p, first));
    let cid = perfer_cid(p.message_type);
    assert(2 <= cid <= 7);
}

proof fn lemma_header_first(s: ChunkStreamView, p: PayloadView, tail: Seq<u8>)
    requires
        s.payload.len() == 0,
        sendable(p),
    ensures
        message_header(s, 0, header_fields(p, true) + tail) matches Ok(
            HeaderStep::Header { stream, used },
        ) && used == header_fields(p, true).len() && stream == (ChunkStreamView {
            csid: s.csid,
            header: MessageHeader {
                timestamp_delta: timestamp_field(p),
                payload_length: p.raw_data.len() as usize,
                message_type: p.message_type,
                stream_id: p.csid,
                timestamp: p.timestamp,
                perfer_cid: s.header.perfer_cid,
            },
            extended_timestamp: p.timestamp >= RTMP_EXTENDED_TIMESTAMP,
            extended_value: if p.timestamp >= RTMP_EXTENDED_TIMESTAMP {
                p.timestamp
            } else {
                s.extended_value
            },
            payload: s.payload,
            msg_count: bump(s.msg_count),
        }),
{
    reveal(message_header);
    let tsf = timestamp_field(p);
    let len = p.raw_data.len() as u32;
    let ext = extended_bytes(p);
    let input = header_fields(p, true) + tail;
    let after_ts = u24_be_bytes(len) + seq![p.message_type] + u32_le_bytes(p.csid) + ext + tail;
    assert(input =~= u24_be_bytes(tsf) + after_ts);
    lemma_be_u24_of_bytes(tsf, after_ts);
    assert(input.subrange(3, 6) =~= u24_be_bytes(len) + Seq::<u8>::empty());
    lemma_be_u24_of_bytes(len, Seq::empty());
    assert(input[6] == p.message_type);
    assert(input.subrange(7, 11) =~= u32_le_bytes(p.csid) + Seq::<u8>::empty());
    lemma_le_u32_of_bytes(p.csid, Seq::empty());
    if p.timestamp >= RTMP_EXTENDED_TIMESTAMP {
        assert(input.subrange(11, 15) =~= u32_be_bytes(p.timestamp) + Seq::<u8>::empty());
        lemma_be_u32_of_bytes(p.timestamp, Seq::empty());
    }
    assert(message_header_size(0) == 11);
}

proof fn lemma_header_next(s: ChunkStreamView, p: PayloadView, sent: nat, tail: Seq<u8>)
    requires
        carries(s, p, sent),
        0 < sent < p.raw_data.len(),
        sendable(p),
    ensures
        message_header(s, 3, header_fields(p, false) + tail) matches Ok(
            HeaderStep::Header { stream, used },
        ) && used == header_fields(p, false).len() && stream == (ChunkStreamView {
            msg_count: bump(s.msg_count),
            ..s
        }),
{
    reveal(message_header);
    let input = header_fields(p, false) + tail;
    assert(s.payload.len() == sent);
    if p.timestamp >= RTMP_EXTENDED_TIMESTAMP {
        assert(input.subrange(0, 4) =~= u32_be_bytes(p.timestamp) + Seq::<u8>::empty());
        lemma_be_u32_of_bytes(p.timestamp, Seq::empty());
    }
    assert(message_header_size(3) == 0);
}

/// The share of the payload that the chunk at offset `sent` carries.
pub open spec fn share(p: PayloadView, size: nat, sent: nat) -> nat {
    if p.raw_data.len() - sent < size {
        (p.raw_data.len() - sent) as nat
    } else {
        size
    }
}

/// What `lemma_chunk` says of the chunk at offset `sent`, once its headers
/// are read.
proof fn lemma_chunk_payload(
    streams: Seq<Option<ChunkStreamView>>,
    p: PayloadView,
    size: nat,
    sent: nat,
    after: Seq<u8>,
    fmt: u8,
    stream: ChunkStreamView,
)
    requires
        streams.len() == PERF_CHUNK_STREAM_CACHE,
        size >= 1,
        sendable(p),
        sent < p.raw_data.len(),
        fmt == (if sent == 0 {
            0u8
        } else {
            3u8
        }),
        message_header(
            stream_at(streams, perfer_cid(p.message_type)),
            fmt,
            header_fields(p, sent == 0) + (p.raw_data.subrange(
                sent as int,
                (sent + share(p, size, sent)) as int,
            ) + after),
        ) == Ok::<HeaderStep, ChunkError>(
            HeaderStep::Header { stream, used: header_fields(p, sent == 0).len() },
        ),
        carries(stream, p, sent),
    ensures
        ({
            let n = share(p, size, sent);
            let input = chunk_header(p, sent == 0) + p.raw_data.subrange(
                sent as int,
                (sent + n) as int,
            ) + after;
            &&& chunk_step(streams, size, input) matches Ok(
                ChunkStep::Chunk { consumed, stream: left, message },
            )
            &&& consumed == chunk_header(p, sent == 0).len() + n
            &&& consumed <= input.len()
            &&& if sent + n < p.raw_data.len() {
                message is None && carries(left, p, sent + n)
            } else {
                &&& message == Some((p.raw_data, left.header))
                &&& assembled(p.raw_data, left.header) == p
                &&& left.header.payload_length == p.raw_data.len()
                &&& left.payload.len() == 0
                &&& left.csid == perfer_cid(p.message_type)
            }
        }),
{
    reveal(chunk_step);
    let first = sent == 0;
    let n = share(p, size, sent);
    let data = p.raw_data.subrange(sent as int, (sent + n) as int);
    let fields = header_fields(p, first);
    let input = chunk_header(p, first) + data + after;
    let tail = fields + (data + after);
    assert(input =~= seq![basic_byte(p, first)] + tail);
    lemma_basic_header(p, first, tail);
    assert(input.subrange(1, input.len() as int) =~= tail);
    let start = 1 + fields.len();
    assert(stream.payload.len() == sent);
    assert(input.subrange(start as int, (start + n) as int) =~= data);
    assert(stream.payload + data =~= p.raw_data.subrange(0, (sent + n) as int));
    if sent + n >= p.raw_data.len() {
        assert(p.raw_data.subrange(0, (sent + n) as int) =~= p.raw_data);
    }
}

proof fn lemma_chunk(
    streams: Seq<Option<ChunkStreamView>>,
    p: PayloadView,
    size: nat,
    sent: nat,
    after: Seq<u8>,
)
    requires
        streams.len() == PERF_CHUNK_STREAM_CACHE,
        size >= 1,
        sendable(p),
        sent < p.raw_data.len(),
        sent == 0 ==> stream_at(streams, perfer_cid(p.message_type)).payload.len() == 0,
        sent == 0 ==> stream_at(streams, perfer_cid(p.message_type)).csid == perfer_cid(
            p.message_type,
        ),
        sent > 0 ==> carries(stream_at(streams, perfer_cid(p.message_type)), p, sent),
    ensures
        ({
            let n = share(p, size, sent);
            let input = chunk_header(p, sent == 0) + p.raw_data.subrange(
                sent as int,
                (sent + n) as int,
            ) + after;
            &&& chunk_step(streams, size, input) matches Ok(
                ChunkStep::Chunk { consumed, stream, message },
            )
            &&& consumed == chunk_header(p, sent == 0).len() + n
            &&& consumed <= input.len()
            &&& if sent + n < p.raw_data.len() {
                message is None && carries(stream, p, sent + n)
            } else {
                &&& message == Some((p.raw_data, stream.header))
                &&& assembled(p.raw_data, stream.header) == p
                &&& stream.header.payload_length == p.raw_data.len()
                &&& stream.payload.len() == 0
                &&& stream.csid == perfer_cid(p.message_type)
            }
        }),
{
    let cid = perfer_cid(p.message_type);
    let s = stream_at(streams, cid);
    let n = share(p, size, sent);
    let data = p.raw_data.subrange(sent as int, (sent + n) as int);
    if sent == 0 {
        lemma_header_first(s, p, data + after);
        let stream = message_header(s, 0, header_fields(p, true) + (data + after))->Ok_0->Header_stream;
        assert(stream.payload =~= p.raw_data.subrange(0, 0));
        lemma_chunk_payload(streams, p, size, sent, after, 0, stream);
    } else {
        lemma_header_next(s, p, sent, data + after);
        let stream = message_header(s, 3, header_fields(p, false) + (data + after))->Ok_0->Header_stream;
        lemma_chunk_payload(streams, p, size, sent, after, 3, stream);
    }
}

proof fn lemma_reassemble_from(
    streams: Seq<Option<ChunkStreamView>>,
    p: PayloadView,
    size: nat,
    sent: nat,
    rest: Seq<u8>,
)
    requires
        streams.len() == PERF_CHUNK_STREAM_CACHE,
        size >= 1,
        sendable(p),
        sent < p.raw_data.len(),
        sent == 0 ==> stream_at(streams, perfer_cid(p.message_type)).payload.len() == 0,
        sent == 0 ==> stream_at(streams, perfer_cid(p.message_type)).csid == perfer_cid(
            p.message_type,
        ),
        sent > 0 ==> carries(stream_at(streams, perfer_cid(p.message_type)), p, sent),
    ensures
        receipt(streams, size, chunks_from(p, size, sent) + rest) matches Receipt::Message {
            streams: table,
            consumed,
            payload,
            header,
        } && {
            &&& consumed == chunks_from(p, size, sent).len()
            &&& payload == p.raw_data
            &&& assembled(payload, header) == p
            &&& header.payload_length == p.raw_data.len()
            &&& table.len() == streams.len()
            &&& forall|i: int|
                0 <= i < streams.len() && i != perfer_cid(p.message_type) ==> table[i]
                    == streams[i]
            &&& stream_at(table, perfer_cid(p.message_type)).payload.len() == 0
        },
    decreases p.raw_data.len() - sent,
{
    let cid = perfer_cid(p.message_type);
    let n = share(p, size, sent);
    let head = chunk_header(p, sent == 0);
    let data = p.raw_data.subrange(sent as int, (sent + n) as int);
    let later = chunks_from(p, size, sent + n);
    lemma_chunks_from_unfold(p, size, sent);
    let input = chunks_from(p, size, sent) + rest;
    assert(input =~= head + data + (later + rest));
    lemma_chunk(streams, p, size, sent, later + rest);
    let step = chunk_step(streams, size, input)->Ok_0;
    let consumed = step->Chunk_consumed;
    let stream = step->Chunk_stream;
    let next = streams.update(stream.csid as int, Some(stream));
    if sent + n < p.raw_data.len() {
        assert(stream.csid == cid);
        assert(input.subrange(consumed as int, input.len() as int) =~= later + rest);
        assert(stream_at(next, cid) == stream);
        lemma_reassemble_from(next, p, size, sent + n, rest);
        assert(chunks_from(p, size, sent).len() == consumed + later.len());
    } else {
        assert(later =~= Seq::<u8>::empty());
        assert(stream_at(next, cid) == stream);
    }
}

/// Chunks reassemble to the message that was split.
///
/// Let `p` have a payload of 1 to 2^24 - 1 bytes and a timestamp below 2^31,
/// and let its chunk stream hold no partial message. Then receiving from the
/// chunks of `p`, split at any size and followed by anything, gives `p` back:
/// its type, timestamp, message stream id and payload. It reads the chunks of
/// `p` and no more, leaves the chunk stream without partial message again, and
/// every other chunk stream as it was.
pub proof fn lemma_chunks_reassemble(
    streams: Seq<Option<ChunkStreamView>>,
    p: PayloadView,
    size: nat,
    rest: Seq<u8>,
)
    requires
        streams.len() == PERF_CHUNK_STREAM_CACHE,
        size >= 1,
        sendable(p),
        stream_at(streams, perfer_cid(p.message_type)).payload.len() == 0,
        stream_at(streams, perfer_cid(p.message_type)).csid == perfer_cid(p.message_type),
    ensures
        receipt(streams, size, chunks_from(p, size, 0) + rest) matches Receipt::Message {
            streams: table,
            consumed,
            payload,
            header,
        } && {
            &&& consumed == chunks_from(p, size, 0).len()
            &&& assembled(payload, header) == p
            &&& header.payload_length == p.raw_data.len()
            &&& table.len() == streams.len()
            &&& forall|i: int|
                0 <= i < streams.len() && i != perfer_cid(p.message_type) ==> table[i]
                    == streams[i]
            &&& stream_at(table, perfer_cid(p.message_type)).payload.len() == 0
        },
{
    lemma_reassemble_from(streams, p, size, 0, rest);
}

/// A chunk stream id of 64 or more is refused with `LargeCsid`.
pub proof fn lemma_large_csid(
    streams: Seq<Option<ChunkStreamView>>,
    in_chunk_size: nat,
    input: Seq<u8>,
)
    requires
        basic_header(input) matches Some((_, csid, _)) && csid >= 64,
    ensures
        chunk_step(streams, in_chunk_size, input) == Err::<ChunkStep, ChunkError>(
            ChunkError::LargeCsid(basic_header(input)->Some_0.1),
        ),
{
    reveal(chunk_step);
}

/// A chunk stream id of 64 or more at the head of what has arrived makes
/// receiving fail with `LargeCsid`, and nothing is read or changed: the codec
/// is afterwards as it was before.
pub proof fn lemma_large_csid_changes_nothing(c: CodecView)
    requires
        basic_header(c.io.pending) matches Some((_, csid, _)) && csid >= 64,
    ensures
        receipt(c.streams, c.in_chunk_size, c.io.pending) matches Receipt::Failed {
            streams,
            consumed,
            error,
        } && {
            &&& error == ChunkError::LargeCsid(basic_header(c.io.pending)->Some_0.1)
            &&& consumed == 0
            &&& c.after_receipt(streams, consumed) == c
        },
{
    lemma_large_csid(c.streams, c.in_chunk_size, c.io.pending);
    assert(c.io.pending.subrange(0, c.io.pending.len() as int) =~= c.io.pending);
}

/// The first chunk ever on a chunk stream is refused with `InvalidFmtRule1`
/// where its format is 2 or 3, and is not where its format is 0 or 1.
pub proof fn lemma_first_chunk_format(s: ChunkStreamView, fmt: u8, input: Seq<u8>)
    requires
        s.msg_count == 0,
        s.payload.len() == 0,
        fmt <= 3,
    ensures
        fmt >= 2 ==> message_header(s, fmt, input) == Err::<HeaderStep, ChunkError>(
            ChunkError::InvalidFmtRule1(fmt, s.csid),
        ),
        fmt <= 1 ==> message_header(s, fmt, input) is Ok,
{
    reveal(message_header);
}

/// A timestamp field of `0xFFFFFF` makes the 32 bits behind the header the
/// message's time, cut to 31 bits.
pub proof fn lemma_extended_timestamp(s: ChunkStreamView, fmt: u8, input: Seq<u8>)
    requires
        fmt <= 2,
        input.len() >= message_header_size(fmt) + 4,
        be_u24(input) == RTMP_EXTENDED_TIMESTAMP,
        message_header(s, fmt, input) is Ok,
    ensures
        message_header(s, fmt, input) matches Ok(HeaderStep::Header { stream, used }) && {
            &&& used == message_header_size(fmt) + 4
            &&& stream.extended_timestamp
            &&& stream.extended_value == be_u32(
                input.subrange(
                    message_header_size(fmt) as int,
                    (message_header_size(fmt) + 4) as int,
                ),
            )
            &&& stream.header.timestamp == be_u32(
                input.subrange(
                    message_header_size(fmt) as int,
                    (message_header_size(fmt) + 4) as int,
                ),
            ) % 0x8000_0000
        },
{
    reveal(message_header);
}

/// A later chunk of a message that carries a 32-bit timestamp brings the 32
/// bits again. It is refused with `InvalidExTimestamp` exactly where they
/// differ from those of the message's first chunk, and else leaves the
/// message's time at their lower 31 bits.
pub proof fn lemma_extended_timestamp_again(s: ChunkStreamView, input: Seq<u8>)
    requires
        s.msg_count >= 1,
        s.payload.len() > 0,
        s.extended_timestamp,
        input.len() >= 4,
    ensures
        message_header(s, 3, input) == Err::<HeaderStep, ChunkError>(
            ChunkError::InvalidExTimestamp,
        ) <==> be_u32(input.subrange(0, 4)) != s.extended_value,
        be_u32(input.subrange(0, 4)) == s.extended_value ==> message_header(s, 3, input)
            == Ok::<HeaderStep, ChunkError>(
            HeaderStep::Header {
                stream: ChunkStreamView {
                    header: MessageHeader {
                        timestamp: s.extended_value % 0x8000_0000,
                        ..s.header
                    },
                    msg_count: bump(s.msg_count),
                    ..s
                },
                used: 4,
            },
        ),
{
    reveal(message_header);
    assert(message_header_size(3) == 0);
}

/// A chunk whose timestamp field is `0xFFFFFF` and which completes a
/// message gives the message the 32 bits behind its header as its time, cut
/// to 31 bits, and is read with those four bytes.
pub proof fn lemma_extended_timestamp_of_message(
    streams: Seq<Option<ChunkStreamView>>,
    size: nat,
    input: Seq<u8>,
)
    requires
        basic_header(input) matches Some((fmt, _, used)) && fmt <= 2 && input.len() >= used + 3
            && be_u24(input.subrange(used as int, input.len() as int))
            == RTMP_EXTENDED_TIMESTAMP,
        chunk_step(streams, size, input) matches Ok(ChunkStep::Chunk { message, .. })
            && message is Some,
    ensures
        ({
            let (fmt, _, used) = basic_header(input)->Some_0;
            let at = used + message_header_size(fmt);
            &&& chunk_step(streams, size, input) matches Ok(
                ChunkStep::Chunk { consumed, message: Some((payload, header)), .. },
            )
            &&& consumed >= at + 4
            &&& input.len() >= at + 4
            &&& header.timestamp == be_u32(input.subrange(at as int, (at + 4) as int)) % 0x8000_0000
        }),
{
    reveal(chunk_step);
    reveal(message_header);
    let (fmt, csid, used) = basic_header(input)->Some_0;
    let tail = input.subrange(used as int, input.len() as int);
    let size0 = message_header_size(fmt);
    assert(tail.len() >= size0 + 4);
    assert(tail.subrange(size0 as int, (size0 + 4) as int) =~= input.subrange(
        (used + size0) as int,
        (used + size0 + 4) as int,
    ));
}

/// The time of every message that is received has 31 bits.
pub proof fn lemma_timestamp_has_31_bits(
    streams: Seq<Option<ChunkStreamView>>,
    size: nat,
    input: Seq<u8>,
)
    ensures
        receipt(streams, size, input) matches Receipt::Message { header, .. }
            ==> header.timestamp < 0x8000_0000,
    decreases input.len(),
{
    reveal(chunk_step);
    reveal(message_header);
    if let Ok(ChunkStep::Chunk { consumed, stream, message }) = chunk_step(streams, size, input) {
        if message is None && 0 < consumed <= input.len() {
            lemma_timestamp_has_31_bits(
                streams.update(stream.csid as int, Some(stream)),
                size,
                input.subrange(consumed as int, input.len() as int),
            );
        }
    }
}

} // verus!
