//! Receiving from bytes that arrive in parts.
//!
//! The bytes of a message's chunks need not arrive together, and need not
//! fit into the buffer together. Reading from what has arrived, and then
//! from what was left unread followed by what arrived later, gives what
//! reading from all of it gives: for two parts, and for any number of them.

use crate::chunk::error::ChunkError;
use crate::chunk::laws::{lemma_chunks_reassemble, sendable};
use crate::chunk::{
    assembled, basic_header, chunk_step, chunks_from, message_header, message_header_size,
    perfer_cid, receipt, stream_at, ChunkStep, ChunkStreamView, HeaderStep, Receipt,
    PERF_CHUNK_STREAM_CACHE,
};
use crate::message::PayloadView;
use vstd::prelude::*;

verus! {

impl Receipt {
    /// This receipt where `n` bytes had been read before.
    pub open spec fn later(self, n: nat) -> Receipt {
        match self {
            Receipt::Pending { streams, consumed } => Receipt::Pending {
                streams,
                consumed: n + consumed,
            },
            Receipt::Message { streams, consumed, payload, header } => Receipt::Message {
                streams,
                consumed: n + consumed,
                payload,
                header,
            },
            Receipt::Failed { streams, consumed, error } => Receipt::Failed {
                streams,
                consumed: n + consumed,
                error,
            },
        }
    }
}

proof fn lemma_basic_header_grows(x: Seq<u8>, y: Seq<u8>)
    requires
        basic_header(x) is Some,
    ensures
        basic_header(x + y) == basic_header(x),
{
    let all = x + y;
    assert(all[0] == x[0]);
    if x.len() >= 2 {
        assert(all[1] == x[1]);
    }
    if x.len() >= 3 {
        assert(all[2] == x[2]);
    }
}

proof fn lemma_message_header_grows(s: ChunkStreamView, fmt: u8, x: Seq<u8>, y: Seq<u8>)
    requires
        fmt <= 3,
        message_header(s, fmt, x) != Ok::<HeaderStep, ChunkError>(HeaderStep::Incomplete),
    ensures
        message_header(s, fmt, x + y) == message_header(s, fmt, x),
{
    reveal(message_header);
    let all = x + y;
    let size = message_header_size(fmt);
    let first = s.payload.len() == 0;
    if !(s.msg_count == 0 && fmt >= 2) && !(!first && fmt == 0) {
        assert(x.len() >= size);
        if fmt <= 2 {
            assert(all[0] == x[0] && all[1] == x[1] && all[2] == x[2]);
        }
        if fmt <= 1 {
            assert(all.subrange(3, 6) =~= x.subrange(3, 6));
            assert(all[6] == x[6]);
        }
        if fmt == 0 {
            assert(all.subrange(7, 11) =~= x.subrange(7, 11));
        }
        if x.len() >= size + 4 {
            assert(all.subrange(size as int, (size + 4) as int) =~= x.subrange(
                size as int,
                (size + 4) as int,
            ));
        }
    }
}

/// A chunk that has arrived in full, or has broken a rule, is read the same
/// whatever arrives behind it.
pub proof fn lemma_chunk_step_grows(
    streams: Seq<Option<ChunkStreamView>>,
    size: nat,
    x: Seq<u8>,
    y: Seq<u8>,
)
    requires
        chunk_step(streams, size, x) != Ok::<ChunkStep, ChunkError>(ChunkStep::Incomplete),
    ensures
        chunk_step(streams, size, x + y) == chunk_step(streams, size, x),
{
    reveal(chunk_step);
    let all = x + y;
    lemma_basic_header_grows(x, y);
    let (fmt, csid, used0) = basic_header(x)->Some_0;
    if csid < PERF_CHUNK_STREAM_CACHE {
        let s = stream_at(streams, csid);
        let tail = x.subrange(used0 as int, x.len() as int);
        assert(all.subrange(used0 as int, all.len() as int) =~= tail + y);
        lemma_message_header_grows(s, fmt, tail, y);
        if let Ok(HeaderStep::Header { stream, used }) = message_header(s, fmt, tail) {
            let total = stream.header.payload_length as nat;
            let have = stream.payload.len();
            let need = if total <= have {
                0
            } else if total - have < size {
                (total - have) as nat
            } else {
                size
            };
            let start = used0 + used;
            assert(x.len() >= start + need);
            assert(all.subrange(start as int, (start + need) as int) =~= x.subrange(
                start as int,
                (start + need) as int,
            ));
        }
    }
}

/// Receiving from bytes that arrived in two parts.
///
/// Let `a` have arrived first and `b` behind it. Where reading from `a` ends
/// with a message or with a broken rule, `b` changes nothing. Where it ends
/// for want of bytes, having read `consumed` bytes and left the chunk streams
/// as `streams`, reading from all of `a + b` gives what reading on gives: from
/// what was left of `a` followed by `b`, with the chunk streams as they were
/// left.
pub proof fn lemma_receipt_joins(
    streams: Seq<Option<ChunkStreamView>>,
    size: nat,
    a: Seq<u8>,
    b: Seq<u8>,
)
    ensures
        match receipt(streams, size, a) {
            Receipt::Pending { streams: left, consumed } => {
                &&& consumed <= a.len()
                &&& receipt(streams, size, a + b) == receipt(
                    left,
                    size,
                    a.subrange(consumed as int, a.len() as int) + b,
                ).later(consumed)
            },
            done => receipt(streams, size, a + b) == done,
        },
    decreases a.len(),
{
    let all = a + b;
    match chunk_step(streams, size, a) {
        Err(e) => {
            lemma_chunk_step_grows(streams, size, a, b);
        },
        Ok(ChunkStep::Incomplete) => {
            assert(a.subrange(0, a.len() as int) + b =~= all);
            lemma_later_zero(receipt(streams, size, all));
        },
        Ok(ChunkStep::Chunk { consumed, stream, message }) => {
            lemma_chunk_step_grows(streams, size, a, b);
            let next = streams.update(stream.csid as int, Some(stream));
            if message is None {
                if 0 < consumed <= a.len() {
                    let rest = a.subrange(consumed as int, a.len() as int);
                    assert(all.subrange(consumed as int, all.len() as int) =~= rest + b);
                    lemma_receipt_joins(next, size, rest, b);
                    if let Receipt::Pending { streams: left, consumed: more } = receipt(
                        next,
                        size,
                        rest,
                    ) {
                        assert(rest.subrange(more as int, rest.len() as int) =~= a.subrange(
                            (consumed + more) as int,
                            a.len() as int,
                        ));
                        lemma_later_twice(
                            receipt(
                                left,
                                size,
                                a.subrange((consumed + more) as int, a.len() as int) + b,
                            ),
                            more,
                            consumed,
                        );
                    }
                } else {
                    lemma_chunk_consumes(streams, size, a);
                }
            }
        },
    }
}

proof fn lemma_later_zero(r: Receipt)
    ensures
        r.later(0) == r,
{
}

proof fn lemma_later_twice(r: Receipt, m: nat, n: nat)
    ensures
        r.later(m).later(n) == r.later(n + m),
{
}

/// A chunk that is read has at least one byte, and no more than have
/// arrived.
pub proof fn lemma_chunk_consumes(streams: Seq<Option<ChunkStreamView>>, size: nat, input: Seq<u8>)
    ensures
        chunk_step(streams, size, input) matches Ok(ChunkStep::Chunk { consumed, .. }) ==> 0
            < consumed <= input.len(),
{
    reveal(chunk_step);
    reveal(message_header);
}

/// Chunks reassemble to the message that was split, in however many parts
/// they arrive.
///
/// Let `p` have a payload of 1 to 2^24 - 1 bytes and a timestamp below 2^31,
/// and let its chunk stream hold no partial message. Let the first `k` bytes
/// of the chunks of `p` have arrived, and not all of them. Then reading from
/// them completes no message and breaks no rule. Reading on, from what was
/// left unread followed by the other bytes of the chunks and anything behind
/// them, gives `p` back, and has then read the chunks of `p` and no more.
pub proof fn lemma_chunks_reassemble_in_parts(
    streams: Seq<Option<ChunkStreamView>>,
    p: PayloadView,
    size: nat,
    k: nat,
    rest: Seq<u8>,
)
    requires
        streams.len() == PERF_CHUNK_STREAM_CACHE,
        size >= 1,
        sendable(p),
        stream_at(streams, perfer_cid(p.message_type)).payload.len() == 0,
        stream_at(streams, perfer_cid(p.message_type)).csid == perfer_cid(p.message_type),
        k < chunks_from(p, size, 0).len(),
    ensures
        ({
            let sent = chunks_from(p, size, 0);
            let a = sent.subrange(0, k as int);
            let b = sent.subrange(k as int, sent.len() as int) + rest;
            &&& receipt(streams, size, a) matches Receipt::Pending { streams: left, consumed }
            &&& consumed <= k
            &&& receipt(left, size, a.subrange(consumed as int, k as int) + b) matches Receipt::Message {
                streams: table,
                consumed: more,
                payload,
                header,
            }
            &&& consumed + more == sent.len()
            &&& assembled(payload, header) == p
            &&& table.len() == streams.len()
            &&& forall|i: int|
                0 <= i < streams.len() && i != perfer_cid(p.message_type) ==> table[i]
                    == streams[i]
            &&& stream_at(table, perfer_cid(p.message_type)).payload.len() == 0
        }),
{
    let sent = chunks_from(p, size, 0);
    let a = sent.subrange(0, k as int);
    let b = sent.subrange(k as int, sent.len() as int) + rest;
    assert(a + b =~= sent + rest);
    lemma_chunks_reassemble(streams, p, size, rest);
    lemma_receipt_joins(streams, size, a, b);
    lemma_receipt_bound(streams, size, a);
}

/// Receiving reads no more bytes than have arrived.
pub proof fn lemma_receipt_bound(streams: Seq<Option<ChunkStreamView>>, size: nat, input: Seq<u8>)
    ensures
        match receipt(streams, size, input) {
            Receipt::Pending { consumed, .. } => consumed <= input.len(),
            Receipt::Message { consumed, .. } => consumed <= input.len(),
            Receipt::Failed { consumed, .. } => consumed <= input.len(),
        },
    decreases input.len(),
{
    lemma_chunk_consumes(streams, size, input);
    if let Ok(ChunkStep::Chunk { consumed, stream, message }) = chunk_step(streams, size, input) {
        if message is None && 0 < consumed <= input.len() {
            lemma_receipt_bound(
                streams.update(stream.csid as int, Some(stream)),
                size,
                input.subrange(consumed as int, input.len() as int),
            );
        }
    }
}

/// The parts, one behind the other.
pub open spec fn joined(parts: Seq<Seq<u8>>) -> Seq<u8>
    decreases parts.len(),
{
    if parts.len() == 0 {
        Seq::empty()
    } else {
        parts[0] + joined(parts.drop_first())
    }
}

/// Receiving from bytes that arrive part after part: `left` is what was left
/// unread before. After each part, what has arrived is read; where that ends
/// for want of bytes, the next part is taken behind what was left unread; a
/// message or a broken rule ends it.
pub open spec fn receipt_in_parts(
    streams: Seq<Option<ChunkStreamView>>,
    size: nat,
    left: Seq<u8>,
    parts: Seq<Seq<u8>>,
) -> Receipt
    decreases parts.len(),
{
    if parts.len() == 0 {
        receipt(streams, size, left)
    } else {
        let arrived = left + parts[0];
        match receipt(streams, size, arrived) {
            Receipt::Pending { streams: next, consumed } => if consumed <= arrived.len() {
                receipt_in_parts(
                    next,
                    size,
                    arrived.subrange(consumed as int, arrived.len() as int),
                    parts.drop_first(),
                ).later(consumed)
            } else {
                Receipt::Pending { streams: next, consumed }
            },
            done => done,
        }
    }
}

/// Receiving part after part gives what receiving from all the bytes at
/// once gives, in however many parts they arrive and wherever they are
/// split: the same message or failure, the same chunk streams, and the same
/// number of bytes read.
pub proof fn lemma_receipt_in_parts(
    streams: Seq<Option<ChunkStreamView>>,
    size: nat,
    left: Seq<u8>,
    parts: Seq<Seq<u8>>,
)
    ensures
        receipt_in_parts(streams, size, left, parts) == receipt(
            streams,
            size,
            left + joined(parts),
        ),
    decreases parts.len(),
{
    if parts.len() == 0 {
        assert(left + joined(parts) =~= left);
    } else {
        let arrived = left + parts[0];
        let rest = parts.drop_first();
        assert(left + joined(parts) =~= arrived + joined(rest));
        lemma_receipt_joins(streams, size, arrived, joined(rest));
        if let Receipt::Pending { streams: next, consumed } = receipt(streams, size, arrived) {
            lemma_receipt_in_parts(
                next,
                size,
                arrived.subrange(consumed as int, arrived.len() as int),
                rest,
            );
        }
    }
}

/// Chunks reassemble to the message that was split, in however many parts
/// their bytes arrive.
///
/// Let `p` have a payload of 1 to 2^24 - 1 bytes and a timestamp below 2^31,
/// and let its chunk stream hold no partial message. Let the chunks of `p`,
/// split at any size and followed by anything, arrive in any number of
/// parts, split anywhere. Then receiving part after part gives `p` back, and
/// has read the chunks of `p` and no more.
pub proof fn lemma_chunks_reassemble_in_any_parts(
    streams: Seq<Option<ChunkStreamView>>,
    p: PayloadView,
    size: nat,
    rest: Seq<u8>,
    parts: Seq<Seq<u8>>,
)
    requires
        streams.len() == PERF_CHUNK_STREAM_CACHE,
        size >= 1,
        sendable(p),
        stream_at(streams, perfer_cid(p.message_type)).payload.len() == 0,
        stream_at(streams, perfer_cid(p.message_type)).csid == perfer_cid(p.message_type),
        joined(parts) == chunks_from(p, size, 0) + rest,
    ensures
        receipt_in_parts(streams, size, Seq::empty(), parts) matches Receipt::Message {
            streams: table,
            consumed,
            payload,
            header,
        } && {
            &&& consumed == chunks_from(p, size, 0).len()
            &&& assembled(payload, header) == p
            &&& table.len() == streams.len()
            &&& forall|i: int|
                0 <= i < streams.len() && i != perfer_cid(p.message_type) ==> table[i]
                    == streams[i]
            &&& stream_at(table, perfer_cid(p.message_type)).payload.len() == 0
        },
{
    lemma_receipt_in_parts(streams, size, Seq::empty(), parts);
    assert(Seq::<u8>::empty() + joined(parts) =~= chunks_from(p, size, 0) + rest);
    lemma_chunks_reassemble(streams, p, size, rest);
}

} // verus!
