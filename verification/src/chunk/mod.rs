//! The chunk layer: splitting messages into chunks and assembling chunks
//! into messages.
//!
//! A chunk is read only when all of it has arrived: its basic header, its
//! message header, the extended timestamp if there is one, and its share of
//! the payload. Until then the codec and the transport stay as they were.

use crate::buf::{bytes_mut_len, bytes_mut_seq, bytes_seq, take_frozen};
use crate::chunk::error::ChunkError;
use crate::chunk::transport::{Transport, TransportView};
use crate::endian::{
    be_u24, be_u32, le_u32, read_u24_be, read_u32_be, read_u32_le, u24_be_bytes, u32_be_bytes,
    u32_le_bytes, write_u24_be, write_u32_be, write_u32_le,
};
use crate::message::error::MessageEncodeError;
use crate::message::types::msg_type::{
    ABORT, ACK, AMF0_CMD, AMF0_DATA, AMF0_SHARED_OBJ, AMF3_CMD, AMF3_DATA, AMF3_SHARED_OBJ, AUDIO,
    SET_CHUNK_SIZE, SET_PEER_BW, USER_CONTROL, VIDEO, WIN_ACK_SIZE,
};
use crate::message::{decode, decoded, Decoded, DecodedView, PayloadView, RtmpPayload};
use bytes::{Bytes, BytesMut};
use vstd::prelude::*;
use vstd::slice::slice_subrange;

pub mod error;
pub mod fills;
pub mod laws;
pub mod transport;

verus! {

/// Number of chunk streams that a connection may use: ids below this.
pub const PERF_CHUNK_STREAM_CACHE: u32 = 64;

pub const RTMP_FMT_TYPE0: u8 = 0;

pub const RTMP_FMT_TYPE1: u8 = 1;

pub const RTMP_FMT_TYPE2: u8 = 2;

pub const RTMP_FMT_TYPE3: u8 = 3;

/// The 24-bit timestamp that announces a 32-bit one behind the header.
pub const RTMP_EXTENDED_TIMESTAMP: u32 = 0xFFFFFF;

/// Chunk stream of the protocol control messages.
pub const RTMP_CID_PROTOCOL_CONTROL: u32 = 0x02;

/// Chunk stream of AMF commands and data over the connection.
pub const RTMP_CID_OVER_CONNECTION: u32 = 0x03;

pub const RTMP_CID_OVER_CONNECTION2: u32 = 0x04;

pub const RTMP_CID_OVER_STREAM: u32 = 0x05;

pub const RTMP_CID_OVER_STREAM2: u32 = 0x08;

/// Chunk stream of video.
pub const RTMP_CID_VIDEO: u32 = 0x06;

/// Chunk stream of audio.
pub const RTMP_CID_AUDIO: u32 = 0x07;

/// Inbound chunk sizes that a peer may set: this and above.
pub const MIN_CHUNK_SIZE: usize = 128;

/// Inbound chunk sizes that a peer may set: this and below.
pub const MAX_CHUNK_SIZE: usize = 65536;

/// Payload lengths that a chunk header can declare: below this.
pub const MAX_PAYLOAD_LENGTH: usize = 0x100_0000;

/// Length of the longest chunk header: three bytes of basic header, eleven
/// of message header and four of extended timestamp.
pub const MAX_HEADER_SIZE: usize = 18;

#[derive(Debug, Clone, Copy, PartialEq, Eq, Structural)]
pub struct MessageHeader {
    pub timestamp_delta: u32,
    pub payload_length: usize,
    pub message_type: u8,
    pub stream_id: u32,
    pub timestamp: u32,
    pub perfer_cid: u32,
}

impl Default for MessageHeader {
    fn default() -> (r: Self)
        ensures
            r == (MessageHeader {
                timestamp_delta: 0,
                payload_length: 0,
                message_type: 0,
                stream_id: 0,
                timestamp: 0,
                perfer_cid: RTMP_CID_PROTOCOL_CONTROL,
            }),
    {
        MessageHeader {
            timestamp_delta: 0,
            payload_length: 0,
            message_type: 0,
            stream_id: 0,
            timestamp: 0,
            perfer_cid: RTMP_CID_PROTOCOL_CONTROL,
        }
    }
}

/// Assembly state of one chunk stream.
#[derive(Debug)]
pub struct ChunkStream {
    csid: u32,
    header: MessageHeader,
    extended_timestamp: bool,
    extended_value: u32,
    payload: BytesMut,
    msg_count: u32,
}

/// What a [`ChunkStream`] stands for.
pub struct ChunkStreamView {
    pub csid: u32,
    /// The running message header.
    pub header: MessageHeader,
    /// Whether the current message carries a 32-bit timestamp.
    pub extended_timestamp: bool,
    /// The 32-bit timestamp as the current message's chunks bring it, all 32
    /// bits of it; what an earlier message left where this one brings none.
    pub extended_value: u32,
    /// The part of the current message's payload that has arrived.
    pub payload: Seq<u8>,
    /// Number of chunks seen on this stream.
    pub msg_count: u32,
}

impl View for ChunkStream {
    type V = ChunkStreamView;

    closed spec fn view(&self) -> ChunkStreamView {
        ChunkStreamView {
            csid: self.csid,
            header: self.header,
            extended_timestamp: self.extended_timestamp,
            extended_value: self.extended_value,
            payload: bytes_mut_seq(&self.payload),
            msg_count: self.msg_count,
        }
    }
}

/// A chunk stream on which nothing has arrived.
pub open spec fn fresh_stream(csid: u32) -> ChunkStreamView {
    ChunkStreamView {
        csid,
        header: MessageHeader {
            timestamp_delta: 0,
            payload_length: 0,
            message_type: 0,
            stream_id: 0,
            timestamp: 0,
            perfer_cid: csid,
        },
        extended_timestamp: false,
        extended_value: 0,
        payload: Seq::empty(),
        msg_count: 0,
    }
}

impl ChunkStream {
    pub fn new(csid: u32) -> (r: Self)
        ensures
            r@ == fresh_stream(csid),
    {
        let mut mh = MessageHeader::default();
        mh.perfer_cid = csid;
        ChunkStream {
            csid,
            header: mh,
            extended_timestamp: false,
            extended_value: 0,
            payload: BytesMut::new(),
            msg_count: 0,
        }
    }
}

/// The chunk stream on which a message of this type is sent: 2 for protocol
/// control, 3 for AMF commands and data, 7 for audio, 6 for video, 2 for
/// every other type.
pub open spec fn perfer_cid(typ: u8) -> u32 {
    if typ == SET_CHUNK_SIZE || typ == ABORT || typ == ACK || typ == USER_CONTROL || typ
        == WIN_ACK_SIZE || typ == SET_PEER_BW {
        RTMP_CID_PROTOCOL_CONTROL
    } else if typ == AMF0_DATA || typ == AMF0_SHARED_OBJ || typ == AMF0_CMD || typ == AMF3_DATA
        || typ == AMF3_SHARED_OBJ || typ == AMF3_CMD {
        RTMP_CID_OVER_CONNECTION
    } else if typ == AUDIO {
        RTMP_CID_AUDIO
    } else if typ == VIDEO {
        RTMP_CID_VIDEO
    } else {
        RTMP_CID_PROTOCOL_CONTROL
    }
}

pub fn get_perfer_cid(typ: u8) -> (cid: u32)
    ensures
        cid == perfer_cid(typ),
        2 <= cid <= 7,
{
    if typ == SET_CHUNK_SIZE || typ == ABORT || typ == ACK || typ == USER_CONTROL || typ
        == WIN_ACK_SIZE || typ == SET_PEER_BW {
        RTMP_CID_PROTOCOL_CONTROL
    } else if typ == AMF0_DATA || typ == AMF0_SHARED_OBJ || typ == AMF0_CMD || typ == AMF3_DATA
        || typ == AMF3_SHARED_OBJ || typ == AMF3_CMD {
        RTMP_CID_OVER_CONNECTION
    } else if typ == AUDIO {
        RTMP_CID_AUDIO
    } else if typ == VIDEO {
        RTMP_CID_VIDEO
    } else {
        RTMP_CID_PROTOCOL_CONTROL
    }
}

/// Format, chunk stream id and length of the basic header that `input` starts
/// with; `None` where `input` ends before the header does.
///
/// The first byte holds the format in its two high bits and an id in the six
/// low ones. Id 0 stands for 64 plus the next byte, id 1 for 64 plus the next
/// two bytes, low byte first.
pub open spec fn basic_header(input: Seq<u8>) -> Option<(u8, u32, nat)> {
    if input.len() < 1 {
        None
    } else {
        let fmt = input[0] / 64;
        let low = input[0] % 64;
        if low > 1 {
            Some((fmt, low as u32, 1))
        } else if low == 0 {
            if input.len() < 2 {
                None
            } else {
                Some((fmt, (64 + input[1]) as u32, 2))
            }
        } else if input.len() < 3 {
            None
        } else {
            Some((fmt, (64 + input[1] + input[2] * 256) as u32, 3))
        }
    }
}

/// Length of the message header of a chunk of this format.
pub open spec fn message_header_size(fmt: u8) -> nat {
    if fmt == 0 {
        11
    } else if fmt == 1 {
        7
    } else if fmt == 2 {
        3
    } else {
        0
    }
}

/// What reading a message header gives.
pub enum HeaderStep {
    /// `input` ends before the header does.
    Incomplete,
    /// The stream with its header brought up to date, and the header's length
    /// with the extended timestamp.
    Header { stream: ChunkStreamView, used: nat },
}

/// Reads the message header of a chunk of format `fmt` on stream `s`.
///
/// A format of 2 or less brings a 24-bit timestamp field; `0xFFFFFF` there
/// announces a 32-bit timestamp behind the header, which then stands for the
/// message's time. Otherwise format 0 sets the time and formats 1 and 2 add
/// the field to it; format 3 adds the stream's last delta where it begins a
/// message. A format of 1 or less brings length and type, format 0 the
/// message stream id too. At the end the time is cut to 31 bits.
///
/// The 32-bit timestamp is kept as it was sent. A later chunk of a message
/// that carries one brings it again, and is refused with
/// `InvalidExTimestamp` exactly where the 32 bits differ from those kept.
#[verifier::opaque]
pub open spec fn message_header(s: ChunkStreamView, fmt: u8, input: Seq<u8>) -> Result<
    HeaderStep,
    ChunkError,
> {
    let first = s.payload.len() == 0;
    let size = message_header_size(fmt);
    if s.msg_count == 0 && fmt >= 2 {
        Err(ChunkError::InvalidFmtRule1(fmt, s.csid))
    } else if !first && fmt == 0 {
        Err(ChunkError::InvalidFmtRule2(fmt, s.csid))
    } else if input.len() < size {
        Ok(HeaderStep::Incomplete)
    } else {
        let delta = if fmt <= 2 {
            be_u24(input)
        } else {
            s.header.timestamp_delta
        };
        let extended = if fmt <= 2 {
            delta >= RTMP_EXTENDED_TIMESTAMP
        } else {
            s.extended_timestamp
        };
        let length = if fmt <= 1 {
            be_u24(input.subrange(3, 6)) as usize
        } else {
            s.header.payload_length
        };
        let repeated = extended && !first && s.extended_timestamp;
        let base = if extended {
            s.header.timestamp
        } else if fmt == 0 {
            delta
        } else if fmt <= 2 || first {
            s.header.timestamp.wrapping_add(delta)
        } else {
            s.header.timestamp
        };
        if fmt <= 1 && !first && s.header.payload_length != length {
            Err(ChunkError::InvalidMsgLengthRule1(s.header.payload_length, length))
        } else if extended && input.len() < size + 4 {
            Ok(HeaderStep::Incomplete)
        } else {
            let sent = be_u32(input.subrange(size as int, (size + 4) as int));
            if repeated && sent != s.extended_value {
                Err(ChunkError::InvalidExTimestamp)
            } else {
                Ok(
                    HeaderStep::Header {
                        stream: ChunkStreamView {
                            csid: s.csid,
                            header: MessageHeader {
                                timestamp_delta: delta,
                                payload_length: length,
                                message_type: if fmt <= 1 {
                                    input[6]
                                } else {
                                    s.header.message_type
                                },
                                stream_id: if fmt == 0 {
                                    le_u32(input.subrange(7, 11))
                                } else {
                                    s.header.stream_id
                                },
                                timestamp: if extended {
                                    sent % 0x8000_0000
                                } else {
                                    base % 0x8000_0000
                                },
                                perfer_cid: s.header.perfer_cid,
                            },
                            extended_timestamp: extended,
                            extended_value: if extended {
                                sent
                            } else {
                                s.extended_value
                            },
                            payload: s.payload,
                            msg_count: if s.msg_count < u32::MAX {
                                (s.msg_count + 1) as u32
                            } else {
                                s.msg_count
                            },
                        },
                        used: if extended {
                            size + 4
                        } else {
                            size
                        },
                    },
                )
            }
        }
    }
}

/// What reading one chunk gives.
pub enum ChunkStep {
    /// Not all of the chunk has arrived.
    Incomplete,
    /// The chunk's length, its stream after it, and the message that it
    /// completed: payload and header.
    Chunk { consumed: nat, stream: ChunkStreamView, message: Option<(Seq<u8>, MessageHeader)> },
}

/// The state of stream `csid`: what the table holds for it, or a fresh one.
pub open spec fn stream_at(streams: Seq<Option<ChunkStreamView>>, csid: u32) -> ChunkStreamView {
    match streams[csid as int] {
        Some(s) => s,
        None => fresh_stream(csid),
    }
}

/// Reads the chunk that `input` starts with.
///
/// A chunk carries what is left of its message's payload, but no more than
/// `in_chunk_size` bytes. The chunk that brings the last byte completes the
/// message and leaves its stream without payload.
#[verifier::opaque]
pub open spec fn chunk_step(
    streams: Seq<Option<ChunkStreamView>>,
    in_chunk_size: nat,
    input: Seq<u8>,
) -> Result<ChunkStep, ChunkError> {
    match basic_header(input) {
        None => Ok(ChunkStep::Incomplete),
        Some((fmt, csid, used0)) => {
            if csid >= PERF_CHUNK_STREAM_CACHE {
                Err(ChunkError::LargeCsid(csid))
            } else {
                match message_header(
                    stream_at(streams, csid),
                    fmt,
                    input.subrange(used0 as int, input.len() as int),
                ) {
                    Err(e) => Err(e),
                    Ok(HeaderStep::Incomplete) => Ok(ChunkStep::Incomplete),
                    Ok(HeaderStep::Header { stream, used }) => {
                        let total = stream.header.payload_length as nat;
                        let have = stream.payload.len();
                        let need = if total <= have {
                            0
                        } else if total - have < in_chunk_size {
                            (total - have) as nat
                        } else {
                            in_chunk_size
                        };
                        let start = used0 + used;
                        if input.len() < start + need {
                            Ok(ChunkStep::Incomplete)
                        } else {
                            let payload = stream.payload + input.subrange(
                                start as int,
                                (start + need) as int,
                            );
                            if payload.len() >= total {
                                Ok(
                                    ChunkStep::Chunk {
                                        consumed: start + need,
                                        stream: ChunkStreamView {
                                            payload: Seq::empty(),
                                            ..stream
                                        },
                                        message: Some((payload, stream.header)),
                                    },
                                )
                            } else {
                                Ok(
                                    ChunkStep::Chunk {
                                        consumed: start + need,
                                        stream: ChunkStreamView { payload, ..stream },
                                        message: None,
                                    },
                                )
                            }
                        }
                    },
                }
            }
        },
    }
}

/// The timestamp in full, where it does not fit the header's 24 bits.
pub open spec fn extended_bytes(p: PayloadView) -> Seq<u8> {
    if p.timestamp >= RTMP_EXTENDED_TIMESTAMP {
        u32_be_bytes(p.timestamp)
    } else {
        Seq::<u8>::empty()
    }
}

/// The timestamp as the header's 24 bits hold it.
pub open spec fn timestamp_field(p: PayloadView) -> u32 {
    if p.timestamp < RTMP_EXTENDED_TIMESTAMP {
        p.timestamp
    } else {
        RTMP_EXTENDED_TIMESTAMP
    }
}

/// The first byte of a chunk of `p`: format 0 or 3, and the chunk stream id.
pub open spec fn basic_byte(p: PayloadView, first: bool) -> u8 {
    if first {
        perfer_cid(p.message_type) as u8
    } else {
        (0xC0 + perfer_cid(p.message_type)) as u8
    }
}

/// What follows the first byte in the header of a chunk of `p`.
pub open spec fn header_fields(p: PayloadView, first: bool) -> Seq<u8> {
    if first {
        u24_be_bytes(timestamp_field(p)) + u24_be_bytes(p.raw_data.len() as u32)
            + seq![p.message_type] + u32_le_bytes(p.csid) + extended_bytes(p)
    } else {
        extended_bytes(p)
    }
}

/// The header of a chunk of `p`: of its first chunk (format 0), or of a later
/// one (format 3).
///
/// A timestamp of `0xFFFFFF` or more is sent as `0xFFFFFF` in the header and
/// in full behind it, in every chunk of the message.
pub open spec fn chunk_header(p: PayloadView, first: bool) -> Seq<u8> {
    seq![basic_byte(p, first)] + header_fields(p, first)
}

/// The chunks of `p` from payload offset `sent` on, each with at most `size`
/// bytes of payload.
pub open spec fn chunks_from(p: PayloadView, size: nat, sent: nat) -> Seq<u8>
    decreases p.raw_data.len() - sent,
{
    if size == 0 || sent >= p.raw_data.len() {
        Seq::<u8>::empty()
    } else {
        let n = if p.raw_data.len() - sent < size {
            (p.raw_data.len() - sent) as nat
        } else {
            size
        };
        chunk_header(p, sent == 0) + p.raw_data.subrange(sent as int, (sent + n) as int) + chunks_from(
            p,
            size,
            sent + n,
        )
    }
}

/// The chunks of the first `n` of `msgs`, one message after the other. A
/// message without payload is left out.
pub open spec fn chunks_of(msgs: Seq<PayloadView>, size: nat, n: nat) -> Seq<u8>
    decreases n,
{
    if n == 0 || n > msgs.len() {
        Seq::<u8>::empty()
    } else {
        chunks_of(msgs, size, (n - 1) as nat) + chunks_from(msgs[n - 1], size, 0)
    }
}

/// The views of a list of payloads, in order.
pub open spec fn payloads_view(msgs: Seq<RtmpPayload>) -> Seq<PayloadView> {
    Seq::new(msgs.len(), |i: int| msgs[i]@)
}

/// Chunk multiplexer and demultiplexer of one connection.
pub struct ChunkCodec {
    io: Transport,
    in_chunk_size: usize,
    out_chunk_size: usize,
    chunk_streams: Vec<Option<ChunkStream>>,
    chunk_header_cache: Vec<u8>,
}

/// What a [`ChunkCodec`] stands for.
pub struct CodecView {
    pub io: TransportView,
    pub in_chunk_size: nat,
    pub out_chunk_size: nat,
    pub streams: Seq<Option<ChunkStreamView>>,
}

/// The views of the entries of a table of chunk streams.
pub open spec fn streams_view(streams: Seq<Option<ChunkStream>>) -> Seq<Option<ChunkStreamView>> {
    Seq::new(
        streams.len(),
        |i: int|
            match streams[i] {
                Some(s) => Some(s@),
                None => None,
            },
    )
}

impl View for ChunkCodec {
    type V = CodecView;

    closed spec fn view(&self) -> CodecView {
        CodecView {
            io: self.io@,
            in_chunk_size: self.in_chunk_size as nat,
            out_chunk_size: self.out_chunk_size as nat,
            streams: streams_view(self.chunk_streams@),
        }
    }
}

/// A stream holds less payload than its header declares, unless it holds
/// none; and it sits in the table under its own id.
pub open spec fn stream_wf(s: ChunkStreamView, csid: int) -> bool {
    &&& s.csid == csid
    &&& s.payload.len() == 0 || s.payload.len() < s.header.payload_length
    &&& s.header.payload_length < MAX_PAYLOAD_LENGTH
}

impl CodecView {
    /// There is a slot for each chunk stream id, each stream in the table is
    /// well formed, both chunk sizes are positive, and the inbound one is no
    /// larger than a chunk size may be set to.
    pub open spec fn wf(self) -> bool {
        &&& self.streams.len() == PERF_CHUNK_STREAM_CACHE
        &&& forall|i: int|
            0 <= i < self.streams.len() ==> (#[trigger] self.streams[i] matches Some(s)
                ==> stream_wf(s, i))
        &&& 1 <= self.in_chunk_size <= MAX_CHUNK_SIZE
        &&& self.out_chunk_size >= 1
        &&& self.io.cursor <= self.io.pending.len()
    }
}

/// What receiving gives.
#[derive(Debug)]
pub enum Received {
    /// Not all of the next chunk has arrived. Nothing was read.
    Incomplete,
    /// A chunk was read, and its message is not complete.
    Partial,
    /// A chunk was read and completed a message: payload and header.
    Message(Bytes, MessageHeader),
}

/// Appends `bytes` to `out`.
pub fn append_bytes(out: &mut Vec<u8>, bytes: &[u8])
    ensures
        final(out)@ == old(out)@ + bytes@,
{
    let mut i: usize = 0;
    while i < bytes.len()
        invariant
            i <= bytes@.len(),
            out@ == old(out)@ + bytes@.subrange(0, i as int),
        decreases bytes@.len() - i,
    {
        out.push(bytes[i]);
        assert(out@ =~= old(out)@ + bytes@.subrange(0, i + 1));
        i += 1;
    }
    assert(bytes@.subrange(0, bytes@.len() as int) =~= bytes@);
}

/// Reads the basic header that `input` starts with.
fn read_basic_header(input: &[u8]) -> (r: Option<(u8, u32, usize)>)
    ensures
        match r {
            Some((fmt, csid, used)) => basic_header(input@) == Some((fmt, csid, used as nat))
                && used <= input@.len() && 1 <= used <= 3 && fmt <= 3,
            None => basic_header(input@) is None,
        },
{
    if input.len() < 1 {
        return None;
    }
    let head = input[0];
    let low = head % 64;
    let fmt = head / 64;
    if low > 1 {
        Some((fmt, low as u32, 1))
    } else if low == 0 {
        if input.len() < 2 {
            return None;
        }
        Some((fmt, 64 + input[1] as u32, 2))
    } else {
        if input.len() < 3 {
            return None;
        }
        Some((fmt, 64 + input[1] as u32 + input[2] as u32 * 256, 3))
    }
}

/// The running state of a chunk stream without its payload.
struct StreamHead {
    csid: u32,
    header: MessageHeader,
    extended_timestamp: bool,
    extended_value: u32,
    msg_count: u32,
    have: usize,
}

/// Reads the message header of a chunk of format `fmt`.
fn read_message_header(head: &StreamHead, fmt: u8, input: &[u8], Ghost(s): Ghost<
    ChunkStreamView,
>) -> (r: Result<Option<(StreamHead, usize)>, ChunkError>)
    requires
        fmt <= 3,
        head.csid == s.csid,
        head.header == s.header,
        head.extended_timestamp == s.extended_timestamp,
        head.extended_value == s.extended_value,
        head.msg_count == s.msg_count,
        head.have == s.payload.len(),
    ensures
        match r {
            Ok(Some((h, used))) => {
                &&& message_header(s, fmt, input@) matches Ok(
                    HeaderStep::Header { stream, used: u },
                )
                &&& u == used
                &&& used <= input@.len()
                &&& h.csid == stream.csid
                &&& h.header == stream.header
                &&& h.extended_timestamp == stream.extended_timestamp
                &&& h.extended_value == stream.extended_value
                &&& h.msg_count == stream.msg_count
                &&& h.have == head.have
                &&& stream.payload == s.payload
                &&& fmt <= 1 ==> h.header.payload_length < MAX_PAYLOAD_LENGTH
                &&& fmt >= 2 ==> h.header.payload_length == s.header.payload_length
            },
            Ok(None) => message_header(s, fmt, input@) == Ok::<HeaderStep, ChunkError>(
                HeaderStep::Incomplete,
            ),
            Err(e) => message_header(s, fmt, input@) == Err::<HeaderStep, ChunkError>(e),
        },
{
    reveal(message_header);
    let first = head.have == 0;
    if head.msg_count == 0 && fmt >= RTMP_FMT_TYPE2 {
        return Err(ChunkError::InvalidFmtRule1(fmt, head.csid));
    }
    if !first && fmt == RTMP_FMT_TYPE0 {
        return Err(ChunkError::InvalidFmtRule2(fmt, head.csid));
    }
    let size: usize = if fmt == 0 {
        11
    } else if fmt == 1 {
        7
    } else if fmt == 2 {
        3
    } else {
        0
    };
    if input.len() < size {
        return Ok(None);
    }
    let mut header = head.header;
    let mut extended = head.extended_timestamp;
    let mut extended_value = head.extended_value;
    if fmt <= RTMP_FMT_TYPE2 {
        header.timestamp_delta = read_u24_be(input);
        extended = header.timestamp_delta >= RTMP_EXTENDED_TIMESTAMP;
        if !extended {
            if fmt == RTMP_FMT_TYPE0 {
                header.timestamp = header.timestamp_delta;
            } else {
                header.timestamp = header.timestamp.wrapping_add(header.timestamp_delta);
            }
        }
        if fmt <= RTMP_FMT_TYPE1 {
            let payload_length = read_u24_be(slice_subrange(input, 3, 6)) as usize;
            if !first && header.payload_length != payload_length {
                return Err(
                    ChunkError::InvalidMsgLengthRule1(header.payload_length, payload_length),
                );
            }
            header.payload_length = payload_length;
            header.message_type = input[6];
            if fmt == RTMP_FMT_TYPE0 {
                header.stream_id = read_u32_le(slice_subrange(input, 7, 11));
            }
        }
    } else if first && !extended {
        header.timestamp = header.timestamp.wrapping_add(header.timestamp_delta);
    }
    let mut used = size;
    if extended {
        if input.len() < size + 4 {
            return Ok(None);
        }
        let timestamp = read_u32_be(slice_subrange(input, size, size + 4));
        if !first && head.extended_timestamp && timestamp != extended_value {
            return Err(ChunkError::InvalidExTimestamp);
        }
        extended_value = timestamp;
        header.timestamp = timestamp;
        used = size + 4;
    }
    header.timestamp = header.timestamp % 0x8000_0000;
    let msg_count = if head.msg_count < u32::MAX {
        head.msg_count + 1
    } else {
        head.msg_count
    };
    Ok(
        Some(
            (
                StreamHead {
                    csid: head.csid,
                    header,
                    extended_timestamp: extended,
                    extended_value,
                    msg_count,
                    have: head.have,
                },
                used,
            ),
        ),
    )
}

impl CodecView {
    /// The codec after a chunk of `consumed` bytes was read that left its
    /// stream as `stream`.
    pub open spec fn after_chunk(self, consumed: nat, stream: ChunkStreamView) -> CodecView {
        CodecView {
            io: TransportView {
                pending: self.io.pending.subrange(consumed as int, self.io.pending.len() as int),
                recv_bytes: crate::chunk::transport::saturating_u64(self.io.recv_bytes + consumed),
                ..self.io
            },
            streams: self.streams.update(stream.csid as int, Some(stream)),
            ..self
        }
    }
}

impl CodecView {
    /// The codec after chunks of `consumed` bytes in all were read that left
    /// the chunk streams as `streams`.
    pub open spec fn after_receipt(
        self,
        streams: Seq<Option<ChunkStreamView>>,
        consumed: nat,
    ) -> CodecView {
        CodecView {
            io: TransportView {
                pending: self.io.pending.subrange(consumed as int, self.io.pending.len() as int),
                recv_bytes: crate::chunk::transport::saturating_u64(self.io.recv_bytes + consumed),
                ..self.io
            },
            streams,
            ..self
        }
    }
}

/// What receiving a message gives.
pub enum Receipt {
    /// The chunks that had arrived in full were read, and none completed a
    /// message.
    Pending { streams: Seq<Option<ChunkStreamView>>, consumed: nat },
    /// A message was completed: its payload and header.
    Message {
        streams: Seq<Option<ChunkStreamView>>,
        consumed: nat,
        payload: Seq<u8>,
        header: MessageHeader,
    },
    /// A chunk broke a rule of the protocol. The chunks before it were read:
    /// `consumed` bytes, which left the chunk streams as `streams`. The chunk
    /// itself was not.
    Failed { streams: Seq<Option<ChunkStreamView>>, consumed: nat, error: ChunkError },
}

/// Reads chunks from `input` up to the first that completes a message.
pub open spec fn receipt(
    streams: Seq<Option<ChunkStreamView>>,
    in_chunk_size: nat,
    input: Seq<u8>,
) -> Receipt
    decreases input.len(),
{
    match chunk_step(streams, in_chunk_size, input) {
        Err(e) => Receipt::Failed { streams, consumed: 0, error: e },
        Ok(ChunkStep::Incomplete) => Receipt::Pending { streams, consumed: 0 },
        Ok(ChunkStep::Chunk { consumed, stream, message }) => {
            let next = streams.update(stream.csid as int, Some(stream));
            match message {
                Some((payload, header)) => Receipt::Message {
                    streams: next,
                    consumed,
                    payload,
                    header,
                },
                None => {
                    if 0 < consumed <= input.len() {
                        match receipt(
                            next,
                            in_chunk_size,
                            input.subrange(consumed as int, input.len() as int),
                        ) {
                            Receipt::Pending { streams, consumed: more } => Receipt::Pending {
                                streams,
                                consumed: consumed + more,
                            },
                            Receipt::Message {
                                streams,
                                consumed: more,
                                payload,
                                header,
                            } => Receipt::Message {
                                streams,
                                consumed: consumed + more,
                                payload,
                                header,
                            },
                            Receipt::Failed { streams, consumed: more, error } => Receipt::Failed {
                                streams,
                                consumed: consumed + more,
                                error,
                            },
                        }
                    } else {
                        Receipt::Pending { streams: next, consumed }
                    }
                },
            }
        },
    }
}

/// The payload that the chunk layer hands to the message codec.
pub open spec fn assembled(payload: Seq<u8>, header: MessageHeader) -> PayloadView {
    PayloadView {
        message_type: header.message_type,
        csid: header.stream_id,
        timestamp: header.timestamp,
        raw_data: payload,
    }
}

impl ChunkCodec {
    /// The codec and its transport are well formed, and no mark is set on the
    /// transport.
    pub closed spec fn wf(&self) -> bool {
        &&& self.io.wf()
        &&& self@.wf()
        &&& !self@.io.marked
        &&& self@.io.cursor == 0
        &&& self.chunk_streams@.len() == PERF_CHUNK_STREAM_CACHE
    }

    /// Well-formedness as the view shows it.
    pub proof fn lemma_wf_view(&self)
        requires
            self.wf(),
        ensures
            self@.wf(),
            !self@.io.marked,
            self@.io.cursor == 0,
    {
    }

    /// A codec over the transport `io`, with chunk sizes of 128 bytes each way
    /// and no chunk stream begun.
    pub fn new(io: Transport) -> (r: Self)
        requires
            io.wf(),
            !io@.marked,
        ensures
            r.wf(),
            r@ == (CodecView {
                io: io@,
                in_chunk_size: 128,
                out_chunk_size: 128,
                streams: Seq::new(PERF_CHUNK_STREAM_CACHE as nat, |i: int| None),
            }),
    {
        proof {
            io.lemma_wf_view();
        }
        let mut chunk_streams: Vec<Option<ChunkStream>> = Vec::new();
        let mut i: u32 = 0;
        while i < PERF_CHUNK_STREAM_CACHE
            invariant
                i <= PERF_CHUNK_STREAM_CACHE,
                chunk_streams@.len() == i,
                forall|j: int| 0 <= j < i ==> chunk_streams@[j] is None,
            decreases PERF_CHUNK_STREAM_CACHE - i,
        {
            chunk_streams.push(None);
            i += 1;
        }
        let r = ChunkCodec {
            io,
            in_chunk_size: 128,
            out_chunk_size: 128,
            chunk_streams,
            chunk_header_cache: Vec::new(),
        };
        assert(r@.streams =~= Seq::new(PERF_CHUNK_STREAM_CACHE as nat, |i: int| None));
        r
    }

    /// Sets the largest payload that an inbound chunk carries.
    pub fn set_in_chunk_size(&mut self, n: usize)
        requires
            old(self).wf(),
            MIN_CHUNK_SIZE <= n <= MAX_CHUNK_SIZE,
        ensures
            final(self).wf(),
            final(self)@ == (CodecView { in_chunk_size: n as nat, ..old(self)@ }),
    {
        self.in_chunk_size = n;
    }

    /// Sets the largest payload that an outbound chunk carries.
    pub fn set_out_chunk_size(&mut self, n: usize)
        requires
            old(self).wf(),
            n >= 1,
        ensures
            final(self).wf(),
            final(self)@ == (CodecView { out_chunk_size: n as nat, ..old(self)@ }),
    {
        self.out_chunk_size = n;
    }

    pub fn get_recv_bytes(&self) -> (n: u64)
        ensures
            n == self@.io.recv_bytes,
    {
        self.io.get_recv_bytes()
    }

    pub fn get_send_bytes(&self) -> (n: u64)
        ensures
            n == self@.io.send_bytes,
    {
        self.io.get_send_bytes()
    }

    /// Number of bytes that [`ChunkCodec::fill`] can take.
    pub fn room(&self) -> (n: usize)
        requires
            self.wf(),
        ensures
            n == crate::chunk::transport::BUFFER_SIZE - self@.io.pending.len(),
    {
        self.io.room()
    }

    /// Takes bytes that arrived from the peer.
    ///
    /// Fails with `TransportIO(BufNoSpace)`, and takes nothing, where they do
    /// not fit into the transport's buffer beside what is pending.
    pub fn fill(&mut self, data: &[u8]) -> (r: Result<(), ChunkError>)
        requires
            old(self).wf(),
        ensures
            final(self).wf(),
            match r {
                Ok(_) => final(self)@ == (CodecView {
                    io: TransportView {
                        pending: old(self)@.io.pending + data@,
                        ..old(self)@.io
                    },
                    ..old(self)@
                }),
                Err(e) => {
                    &&& e matches ChunkError::TransportIO(
                        crate::chunk::transport::TransportError::BufNoSpace,
                    )
                    &&& old(self)@.io.pending.len() + data@.len()
                        > crate::chunk::transport::BUFFER_SIZE
                    &&& final(self)@ == old(self)@
                },
            },
    {
        match self.io.fill(data) {
            Ok(_) => {
                Ok(())
            },
            Err(e) => Err(ChunkError::TransportIO(e)),
        }
    }

    /// Reads the next chunk, if all of it has arrived.
    fn recv_interlaced_message(&mut self) -> (r: Result<Received, ChunkError>)
        requires
            old(self).wf(),
        ensures
            final(self).wf(),
            match r {
                Ok(Received::Incomplete) => {
                    &&& chunk_step(
                        old(self)@.streams,
                        old(self)@.in_chunk_size,
                        old(self)@.io.pending,
                    ) == Ok::<ChunkStep, ChunkError>(ChunkStep::Incomplete)
                    &&& final(self)@ == old(self)@
                },
                Ok(Received::Partial) => {
                    &&& chunk_step(
                        old(self)@.streams,
                        old(self)@.in_chunk_size,
                        old(self)@.io.pending,
                    ) matches Ok(ChunkStep::Chunk { consumed, stream, message })
                    &&& message is None
                    &&& 0 < consumed <= old(self)@.io.pending.len()
                    &&& final(self)@ == old(self)@.after_chunk(consumed, stream)
                },
                Ok(Received::Message(payload, header)) => {
                    &&& chunk_step(
                        old(self)@.streams,
                        old(self)@.in_chunk_size,
                        old(self)@.io.pending,
                    ) matches Ok(ChunkStep::Chunk { consumed, stream, message })
                    &&& message == Some((bytes_seq(&payload), header))
                    &&& 0 < consumed <= old(self)@.io.pending.len()
                    &&& final(self)@ == old(self)@.after_chunk(consumed, stream)
                },
                Err(e) => {
                    &&& chunk_step(
                        old(self)@.streams,
                        old(self)@.in_chunk_size,
                        old(self)@.io.pending,
                    ) == Err::<ChunkStep, ChunkError>(e)
                    &&& final(self)@ == old(self)@
                },
            },
    {
        reveal(chunk_step);
        reveal(message_header);
        let ghost before = self@;
        self.io.safe_guard();
        proof {
            self.io.lemma_wf_view();
            assert(self.io@.unread() =~= before.io.pending);
        }
        let input = self.io.peek();
        let (fmt, csid, used0) = match read_basic_header(input) {
            Some(x) => x,
            None => {
                self.io.safe_flush();
                assert(self.io@.pending =~= before.io.pending);
                return Ok(Received::Incomplete);
            },
        };
        if csid >= PERF_CHUNK_STREAM_CACHE {
            self.io.safe_flush();
            assert(self.io@.pending =~= before.io.pending);
            return Err(ChunkError::LargeCsid(csid));
        }
        let ghost s0 = stream_at(before.streams, csid);
        let head = match &self.chunk_streams[csid as usize] {
            Some(s) => StreamHead {
                csid: s.csid,
                header: s.header,
                extended_timestamp: s.extended_timestamp,
                extended_value: s.extended_value,
                msg_count: s.msg_count,
                have: bytes_mut_len(&s.payload),
            },
            None => StreamHead {
                csid,
                header: MessageHeader {
                    timestamp_delta: 0,
                    payload_length: 0,
                    message_type: 0,
                    stream_id: 0,
                    timestamp: 0,
                    perfer_cid: csid,
                },
                extended_timestamp: false,
                extended_value: 0,
                msg_count: 0,
                have: 0,
            },
        };
        assert(before.streams[csid as int] == streams_view(self.chunk_streams@)[csid as int]);
        assert(stream_wf(s0, csid as int));
        let rest = slice_subrange(input, used0, input.len());
        let (h, used) = match read_message_header(&head, fmt, rest, Ghost(s0)) {
            Ok(Some(x)) => x,
            Ok(None) => {
                self.io.safe_flush();
                assert(self.io@.pending =~= before.io.pending);
                return Ok(Received::Incomplete);
            },
            Err(e) => {
                self.io.safe_flush();
                assert(self.io@.pending =~= before.io.pending);
                return Err(e);
            },
        };
        let ghost s1 = message_header(s0, fmt, rest@)->Ok_0->Header_stream;
        let total = h.header.payload_length;
        let need = if total <= h.have {
            0
        } else if total - h.have < self.in_chunk_size {
            total - h.have
        } else {
            self.in_chunk_size
        };
        let start = used0 + used;
        if input.len() - start < need {
            self.io.safe_flush();
            assert(self.io@.pending =~= before.io.pending);
            return Ok(Received::Incomplete);
        }
        let mut slot: Option<ChunkStream> = None;
        self.chunk_streams.set_and_swap(csid as usize, &mut slot);
        let mut stream = match slot {
            Some(s) => s,
            None => ChunkStream::new(csid),
        };
        assert(stream@ == s0);
        stream.header = h.header;
        stream.extended_timestamp = h.extended_timestamp;
        stream.extended_value = h.extended_value;
        stream.msg_count = h.msg_count;
        stream.payload.extend_from_slice(slice_subrange(input, start, start + need));
        let done = bytes_mut_len(&stream.payload) >= total;
        let message = if done {
            Some(take_frozen(&mut stream.payload))
        } else {
            None
        };
        let ghost s2 = stream@;
        self.chunk_streams.set(csid as usize, Some(stream));
        let consumed = start + need;
        let _ = self.io.read_exact(consumed);
        self.io.safe_flush();
        proof {
            assert(self.io@.pending =~= before.io.pending.subrange(
                consumed as int,
                before.io.pending.len() as int,
            ));
            assert(streams_view(self.chunk_streams@) =~= before.streams.update(
                csid as int,
                Some(s2),
            ));
            assert(self@ == before.after_chunk(consumed as nat, s2));
            assert forall|i: int| 0 <= i < self@.streams.len() implies (
            #[trigger] self@.streams[i] matches Some(s) ==> stream_wf(s, i)) by {
                if i != csid {
                    assert(self@.streams[i] == before.streams[i]);
                }
            }
        }
        match message {
            Some(payload) => Ok(Received::Message(payload, h.header)),
            None => Ok(Received::Partial),
        }
    }

    /// Reads chunks up to the first that completes a message, and decodes the
    /// message. `Ok(None)` says that no message is complete yet.
    ///
    /// Fails where a chunk breaks a rule of the protocol, with that rule's
    /// error, and where the message's body is too short for its type, with
    /// `DecodeMessageFailed(Io)`. Where no message is complete, what stays
    /// unread is less than a chunk, so that there is room for more to arrive.
    /// After a broken rule the chunks before the
    /// failing one are read and the failing one is not: it is still the next
    /// to be read. A message that does not decode is read and gone.
    pub fn recv_rtmp_message(&mut self) -> (r: Result<Option<Decoded>, ChunkError>)
        requires
            old(self).wf(),
        ensures
            final(self).wf(),
            match r {
                Ok(None) => {
                    &&& receipt(
                        old(self)@.streams,
                        old(self)@.in_chunk_size,
                        old(self)@.io.pending,
                    ) matches Receipt::Pending { streams, consumed }
                    &&& consumed <= old(self)@.io.pending.len()
                    &&& final(self)@ == old(self)@.after_receipt(streams, consumed)
                    &&& final(self)@.io.pending.len() < MAX_HEADER_SIZE
                        + final(self)@.in_chunk_size
                },
                Ok(Some(d)) => {
                    &&& receipt(
                        old(self)@.streams,
                        old(self)@.in_chunk_size,
                        old(self)@.io.pending,
                    ) matches Receipt::Message { streams, consumed, payload, header }
                    &&& decoded(assembled(payload, header)) == Some(d@)
                    &&& consumed <= old(self)@.io.pending.len()
                    &&& final(self)@ == old(self)@.after_receipt(streams, consumed)
                },
                Err(e) => match receipt(
                    old(self)@.streams,
                    old(self)@.in_chunk_size,
                    old(self)@.io.pending,
                ) {
                    Receipt::Failed { streams, consumed, error } => {
                        &&& e == error
                        &&& consumed <= old(self)@.io.pending.len()
                        &&& final(self)@ == old(self)@.after_receipt(streams, consumed)
                    },
                    Receipt::Message { streams, consumed, payload, header } => {
                        &&& decoded(assembled(payload, header)) is None
                        &&& e matches ChunkError::DecodeMessageFailed(
                            crate::message::error::MessageDecodeError::Io,
                        )
                        &&& consumed <= old(self)@.io.pending.len()
                        &&& final(self)@ == old(self)@.after_receipt(streams, consumed)
                    },
                    Receipt::Pending { .. } => false,
                },
            },
    {
        let ghost first = self@;
        let ghost mut done: nat = 0;
        assert(first.io.pending.subrange(0, first.io.pending.len() as int) =~= first.io.pending);
        loop
            invariant
                self.wf(),
                self@.in_chunk_size == first.in_chunk_size,
                self@.out_chunk_size == first.out_chunk_size,
                done <= first.io.pending.len(),
                self@ == first.after_receipt(self@.streams, done),
                old(self)@ == first,
                match receipt(self@.streams, self@.in_chunk_size, self@.io.pending) {
                    Receipt::Pending { streams, consumed } => receipt(
                        first.streams,
                        first.in_chunk_size,
                        first.io.pending,
                    ) == (Receipt::Pending { streams, consumed: done + consumed }),
                    Receipt::Message { streams, consumed, payload, header } => receipt(
                        first.streams,
                        first.in_chunk_size,
                        first.io.pending,
                    ) == (Receipt::Message { streams, consumed: done + consumed, payload, header }),
                    Receipt::Failed { streams, consumed, error } => receipt(
                        first.streams,
                        first.in_chunk_size,
                        first.io.pending,
                    ) == (Receipt::Failed { streams, consumed: done + consumed, error }),
                },
            decreases self@.io.pending.len(),
        {
            let ghost here = self@;
            match self.recv_interlaced_message() {
                Err(e) => {
                    return Err(e);
                },
                Ok(Received::Incomplete) => {
                    proof {
                        lemma_incomplete_is_short(here.streams, here.in_chunk_size, here.io.pending);
                    }
                    return Ok(None);
                },
                Ok(Received::Partial) => {
                    proof {
                        let consumed = chunk_step(
                            here.streams,
                            here.in_chunk_size,
                            here.io.pending,
                        )->Ok_0->Chunk_consumed;
                        assert(self@.io.pending =~= first.io.pending.subrange(
                            (done + consumed) as int,
                            first.io.pending.len() as int,
                        ));
                        assert(self@ == first.after_receipt(self@.streams, done + consumed));
                        done = done + consumed;
                    }
                },
                Ok(Received::Message(payload, header)) => {
                    proof {
                        let consumed = chunk_step(
                            here.streams,
                            here.in_chunk_size,
                            here.io.pending,
                        )->Ok_0->Chunk_consumed;
                        assert(self@.io.pending =~= first.io.pending.subrange(
                            (done + consumed) as int,
                            first.io.pending.len() as int,
                        ));
                        assert(self@ == first.after_receipt(self@.streams, done + consumed));
                    }
                    let data = RtmpPayload {
                        message_type: header.message_type,
                        csid: header.stream_id,
                        timestamp: header.timestamp,
                        raw_data: payload,
                    };
                    return match decode(data) {
                        Ok(d) => Ok(Some(d)),
                        Err(e) => Err(ChunkError::DecodeMessageFailed(e)),
                    };
                },
            }
        }
    }
}

/// A chunk that has not arrived in full is shorter than the longest header
/// and the largest payload of a chunk together.
pub proof fn lemma_incomplete_is_short(
    streams: Seq<Option<ChunkStreamView>>,
    size: nat,
    input: Seq<u8>,
)
    requires
        chunk_step(streams, size, input) == Ok::<ChunkStep, ChunkError>(ChunkStep::Incomplete),
    ensures
        input.len() < MAX_HEADER_SIZE + size,
{
    reveal(chunk_step);
    reveal(message_header);
}

/// The chunks from an offset on are the chunk at that offset and the chunks
/// behind it.
pub proof fn lemma_chunks_from_unfold(p: PayloadView, size: nat, sent: nat)
    requires
        size >= 1,
        sent < p.raw_data.len(),
    ensures
        ({
            let n = if p.raw_data.len() - sent < size {
                (p.raw_data.len() - sent) as nat
            } else {
                size
            };
            chunks_from(p, size, sent) == chunk_header(p, sent == 0) + p.raw_data.subrange(
                sent as int,
                (sent + n) as int,
            ) + chunks_from(p, size, sent + n)
        }),
{
}

proof fn lemma_append_shift(a: Seq<u8>, h: Seq<u8>, d: Seq<u8>, t: Seq<u8>)
    ensures
        (a + h + d) + t == a + (h + d + t),
{
    assert((a + h + d) + t =~= a + (h + d + t));
}

/// Every payload is short enough for a chunk header to declare its length.
pub open spec fn lengths_fit(msgs: Seq<PayloadView>) -> bool {
    forall|i: int| 0 <= i < msgs.len() ==> (#[trigger] msgs[i]).raw_data.len() < MAX_PAYLOAD_LENGTH
}

impl ChunkCodec {
    /// Writes the header of the next chunk of `msg` into the scratch buffer,
    /// behind what it holds or, with `need_clear`, in place of it. Returns
    /// where the header begins and ends there.
    fn add_chunk_header(&mut self, msg: &RtmpPayload, c0: bool, need_clear: bool) -> (r: (
        usize,
        usize,
    ))
        requires
            old(self).wf(),
            msg@.raw_data.len() < MAX_PAYLOAD_LENGTH,
        ensures
            final(self).wf(),
            final(self)@ == old(self)@,
            r.0 <= r.1 == final(self).chunk_header_cache@.len(),
            final(self).chunk_header_cache@.subrange(r.0 as int, r.1 as int) == chunk_header(
                msg@,
                c0,
            ),
    {
        if need_clear {
            self.chunk_header_cache.clear();
        }
        let start = self.chunk_header_cache.len();
        let ghost base = self.chunk_header_cache@;
        let perfer_cid = get_perfer_cid(msg.message_type) as u8;
        if c0 {
            self.chunk_header_cache.push(perfer_cid);
            if msg.timestamp < RTMP_EXTENDED_TIMESTAMP {
                write_u24_be(&mut self.chunk_header_cache, msg.timestamp);
            } else {
                write_u24_be(&mut self.chunk_header_cache, RTMP_EXTENDED_TIMESTAMP);
            }
            write_u24_be(
                &mut self.chunk_header_cache,
                crate::buf::bytes_len(&msg.raw_data) as u32,
            );
            self.chunk_header_cache.push(msg.message_type);
            write_u32_le(&mut self.chunk_header_cache, msg.csid);
            if msg.timestamp >= RTMP_EXTENDED_TIMESTAMP {
                write_u32_be(&mut self.chunk_header_cache, msg.timestamp);
            }
        } else {
            self.chunk_header_cache.push(0xC0 + perfer_cid);
            if msg.timestamp >= RTMP_EXTENDED_TIMESTAMP {
                write_u32_be(&mut self.chunk_header_cache, msg.timestamp);
            }
        }
        let end = self.chunk_header_cache.len();
        assert(self.chunk_header_cache@ =~= base + chunk_header(msg@, c0));
        assert(self.chunk_header_cache@.subrange(start as int, end as int) =~= chunk_header(
            msg@,
            c0,
        ));
        (start, end)
    }

    /// Splits the messages into chunks by the outbound chunk size and returns
    /// the bytes to write, which are counted as sent. A message without
    /// payload is left out.
    ///
    /// Fails with `EncodeMessageFailed(InvalidFormat)`, and changes nothing,
    /// where a payload is too long for a chunk header to declare.
    pub fn send_rtmp_messages(&mut self, msgs: &[RtmpPayload]) -> (r: Result<Vec<u8>, ChunkError>)
        requires
            old(self).wf(),
        ensures
            final(self).wf(),
            match r {
                Ok(bytes) => {
                    &&& lengths_fit(payloads_view(msgs@))
                    &&& bytes@ == chunks_of(
                        payloads_view(msgs@),
                        old(self)@.out_chunk_size,
                        msgs@.len(),
                    )
                    &&& final(self)@ == (CodecView {
                        io: TransportView {
                            send_bytes: crate::chunk::transport::saturating_u64(
                                old(self)@.io.send_bytes + bytes@.len(),
                            ),
                            ..old(self)@.io
                        },
                        ..old(self)@
                    })
                },
                Err(e) => {
                    &&& !lengths_fit(payloads_view(msgs@))
                    &&& e matches ChunkError::EncodeMessageFailed(MessageEncodeError::InvalidFormat)
                    &&& final(self)@ == old(self)@
                },
            },
    {
        let ghost views = payloads_view(msgs@);
        let mut k: usize = 0;
        while k < msgs.len()
            invariant
                k <= msgs@.len(),
                self.wf(),
                self@ == old(self)@,
                views == payloads_view(msgs@),
                forall|i: int| 0 <= i < k ==> (#[trigger] views[i]).raw_data.len() < MAX_PAYLOAD_LENGTH,
            decreases msgs@.len() - k,
        {
            if crate::buf::bytes_len(&msgs[k].raw_data) >= MAX_PAYLOAD_LENGTH {
                assert(views[k as int].raw_data.len() >= MAX_PAYLOAD_LENGTH);
                return Err(ChunkError::EncodeMessageFailed(MessageEncodeError::InvalidFormat));
            }
            k += 1;
        }
        assert(lengths_fit(views));
        let mut out: Vec<u8> = Vec::new();
        let mut m: usize = 0;
        while m < msgs.len()
            invariant
                m <= msgs@.len(),
                self.wf(),
                self@ == old(self)@,
                views == payloads_view(msgs@),
                lengths_fit(views),
                out@ == chunks_of(views, self@.out_chunk_size, m as nat),
            decreases msgs@.len() - m,
        {
            let msg = &msgs[m];
            let raw: &[u8] = msg.raw_data.as_ref();
            let total = raw.len();
            let ghost base = out@;
            let ghost p = msg@;
            assert(p == views[m as int]);
            proof {
                self.lemma_wf_view();
            }
            let mut init = true;
            let mut sent: usize = 0;
            while sent < total
                invariant
                    sent <= total,
                    total == p.raw_data.len(),
                    raw@ == p.raw_data,
                    p == msg@,
                    p.raw_data.len() < MAX_PAYLOAD_LENGTH,
                    self.wf(),
                    self@ == old(self)@,
                    self@.out_chunk_size >= 1,
                    init == (sent == 0),
                    out@ + chunks_from(p, self@.out_chunk_size, sent as nat) == base + chunks_from(
                        p,
                        self@.out_chunk_size,
                        0,
                    ),
                decreases total - sent,
            {
                let length = if total - sent < self.out_chunk_size {
                    total - sent
                } else {
                    self.out_chunk_size
                };
                let ghost before = out@;
                let (s, e) = self.add_chunk_header(msg, sent == 0, init);
                append_bytes(&mut out, slice_subrange(self.chunk_header_cache.as_slice(), s, e));
                append_bytes(&mut out, slice_subrange(raw, sent, sent + length));
                proof {
                    let size = self@.out_chunk_size;
                    let head = chunk_header(p, sent == 0);
                    let data = p.raw_data.subrange(sent as int, sent + length);
                    let tail = chunks_from(p, size, (sent + length) as nat);
                    lemma_chunks_from_unfold(p, size, sent as nat);
                    lemma_append_shift(before, head, data, tail);
                }
                init = false;
                sent += length;
            }
            proof {
                let size = self@.out_chunk_size;
                assert(chunks_from(p, size, total as nat) =~= Seq::<u8>::empty());
                assert(out@ =~= base + chunks_from(p, size, 0));
                assert(chunks_of(views, size, (m + 1) as nat) == chunks_of(views, size, m as nat)
                    + chunks_from(views[m as int], size, 0));
            }
            m += 1;
        }
        self.io.write_all(out.len());
        Ok(out)
    }

    /// Splits one message into chunks; see [`ChunkCodec::send_rtmp_messages`].
    pub fn send_rtmp_message(&mut self, msg: RtmpPayload) -> (r: Result<Vec<u8>, ChunkError>)
        requires
            old(self).wf(),
        ensures
            final(self).wf(),
            match r {
                Ok(bytes) => {
                    &&& msg@.raw_data.len() < MAX_PAYLOAD_LENGTH
                    &&& bytes@ == chunks_from(msg@, old(self)@.out_chunk_size, 0)
                    &&& final(self)@ == (CodecView {
                        io: TransportView {
                            send_bytes: crate::chunk::transport::saturating_u64(
                                old(self)@.io.send_bytes + bytes@.len(),
                            ),
                            ..old(self)@.io
                        },
                        ..old(self)@
                    })
                },
                Err(e) => {
                    &&& msg@.raw_data.len() >= MAX_PAYLOAD_LENGTH
                    &&& e matches ChunkError::EncodeMessageFailed(MessageEncodeError::InvalidFormat)
                    &&& final(self)@ == old(self)@
                },
            },
    {
        let mut msgs: Vec<RtmpPayload> = Vec::new();
        msgs.push(msg);
        let ghost views = payloads_view(msgs@);
        proof {
            assert(views.len() == 1 && views[0] == msg@);
            reveal_with_fuel(chunks_of, 2);
            assert(chunks_of(views, self@.out_chunk_size, 1) =~= chunks_from(
                msg@,
                self@.out_chunk_size,
                0,
            ));
            if msg@.raw_data.len() < MAX_PAYLOAD_LENGTH {
                assert(lengths_fit(views));
            } else {
                assert(!lengths_fit(views));
            }
        }
        self.send_rtmp_messages(msgs.as_slice())
    }
}

} // verus!
