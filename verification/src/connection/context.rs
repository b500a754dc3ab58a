//! What a connection keeps account of: the chunk sizes and acknowledgement
//! windows that the two sides set, the buffer length that the peer asked
//! for, and how many audio and video messages went each way.

use crate::amf::{values_view, Amf0Value};
use crate::buf::bytes_seq;
use crate::chunk::error::ChunkError;
use crate::chunk::transport::saturating_u64;
use crate::chunk::{
    assembled, lengths_fit, payloads_view, chunks_from, chunks_of, receipt, ChunkCodec, CodecView, Receipt,
    MAX_CHUNK_SIZE, MAX_PAYLOAD_LENGTH, MIN_CHUNK_SIZE,
};
use crate::chunk::transport::TransportView;
use crate::connection::error::ConnectionError;
use crate::message::error::{MessageDecodeError, MessageEncodeError};
use crate::message::types::user_ctrl_ev_type::{PING_REQUEST, PING_RESPONSE, SET_BUFFER_LENGTH};
use crate::message::{
    decode_amf, decoded, decoded_amf, encode, encoded, messages_view, AmfKind, Decoded,
    DecodedView, Encoded, EncodedView, MessageView, RtmpMessage, RtmpPayload,
};
use bytes::Bytes;
use vstd::prelude::*;

verus! {

struct AckWindowSize {
    window: u32,
    nb_recv_bytes: u64,
    sequence_number: u32,
}

pub struct Context {
    chunk_io: ChunkCodec,
    in_ack_size: AckWindowSize,
    out_ack_size: AckWindowSize,
    in_buffer_length: u32,
    in_auido_count: u64,
    in_video_count: u64,
    out_audio_count: u64,
    out_video_count: u64,
}

/// What a [`Context`] stands for.
pub struct ContextView {
    pub codec: CodecView,
    /// The acknowledgement window that the peer set.
    pub in_window: u32,
    /// The acknowledgement window that was set for the peer.
    pub out_window: u32,
    /// The buffer length that the peer asked for.
    pub in_buffer_length: u32,
    pub in_audio_count: u64,
    pub in_video_count: u64,
    pub out_audio_count: u64,
    pub out_video_count: u64,
}

impl View for Context {
    type V = ContextView;

    closed spec fn view(&self) -> ContextView {
        ContextView {
            codec: self.chunk_io@,
            in_window: self.in_ack_size.window,
            out_window: self.out_ack_size.window,
            in_buffer_length: self.in_buffer_length,
            in_audio_count: self.in_auido_count,
            in_video_count: self.in_video_count,
            out_audio_count: self.out_audio_count,
            out_video_count: self.out_video_count,
        }
    }
}

/// What a message that arrived does to the connection.
pub enum Arrival {
    /// The connection afterwards, and the message to answer with.
    Taken(ContextView, Option<MessageView>),
    /// The message sets a chunk size that may not be set.
    InvalidChunkSize(usize),
}

impl ContextView {
    /// The connection of a codec that has neither received nor sent.
    pub open spec fn fresh(codec: CodecView) -> ContextView {
        ContextView {
            codec,
            in_window: 0,
            out_window: 0,
            in_buffer_length: 0,
            in_audio_count: 0,
            in_video_count: 0,
            out_audio_count: 0,
            out_video_count: 0,
        }
    }

    /// What the message `msg`, having arrived, does to the connection.
    ///
    /// Audio and video are counted. A chunk size of 128 to 65536 becomes the
    /// inbound chunk size; any other is refused. A window acknowledgement
    /// size is recorded, and so is the buffer length of a `SetBufferLength`
    /// event. A ping request is answered with a ping response that carries
    /// its data.
    pub open spec fn received(self, msg: MessageView) -> Arrival {
        match msg {
            MessageView::AudioData { .. } => Arrival::Taken(
                ContextView { in_audio_count: saturating_u64(self.in_audio_count + 1), ..self },
                None,
            ),
            MessageView::VideoData { .. } => Arrival::Taken(
                ContextView { in_video_count: saturating_u64(self.in_video_count + 1), ..self },
                None,
            ),
            MessageView::SetChunkSize { chunk_size } => if chunk_size < MIN_CHUNK_SIZE
                || chunk_size > MAX_CHUNK_SIZE {
                Arrival::InvalidChunkSize(chunk_size as usize)
            } else {
                Arrival::Taken(
                    ContextView {
                        codec: CodecView { in_chunk_size: chunk_size as nat, ..self.codec },
                        ..self
                    },
                    None,
                )
            },
            MessageView::SetWindowAckSize { ack_window_size } => Arrival::Taken(
                ContextView { in_window: ack_window_size, ..self },
                None,
            ),
            MessageView::UserControl { event_type, event_data, extra_data } => if event_type
                == SET_BUFFER_LENGTH {
                Arrival::Taken(ContextView { in_buffer_length: extra_data, ..self }, None)
            } else if event_type == PING_REQUEST {
                Arrival::Taken(
                    self,
                    Some(
                        MessageView::UserControl {
                            event_type: PING_RESPONSE,
                            event_data,
                            extra_data: 0,
                        },
                    ),
                )
            } else {
                Arrival::Taken(self, None)
            },
            _ => Arrival::Taken(self, None),
        }
    }

    /// What sending the message `msg` does to the connection; `None` where
    /// `msg` sets a chunk size of 0, which cannot be sent with.
    ///
    /// Audio and video are counted, a chunk size becomes the outbound chunk
    /// size, and a window acknowledgement size is recorded.
    pub open spec fn sending(self, msg: MessageView) -> Option<ContextView> {
        match msg {
            MessageView::AudioData { .. } => Some(
                ContextView { out_audio_count: saturating_u64(self.out_audio_count + 1), ..self },
            ),
            MessageView::VideoData { .. } => Some(
                ContextView { out_video_count: saturating_u64(self.out_video_count + 1), ..self },
            ),
            MessageView::SetChunkSize { chunk_size } => if chunk_size == 0 {
                None
            } else {
                Some(
                    ContextView {
                        codec: CodecView { out_chunk_size: chunk_size as nat, ..self.codec },
                        ..self
                    },
                )
            },
            MessageView::SetWindowAckSize { ack_window_size } => Some(
                ContextView { out_window: ack_window_size, ..self },
            ),
            _ => Some(self),
        }
    }

    /// The connection after `count` bytes were handed out for writing.
    pub open spec fn written(self, count: nat) -> ContextView {
        ContextView {
            codec: CodecView {
                io: TransportView {
                    send_bytes: saturating_u64(self.codec.io.send_bytes + count),
                    ..self.codec.io
                },
                ..self.codec
            },
            ..self
        }
    }
}

/// A chunk size below 128 or above 65536 is refused with `InvalidChunkSize`.
pub proof fn lemma_invalid_chunk_size(c: ContextView, chunk_size: u32)
    requires
        chunk_size < 128 || chunk_size > 65536,
    ensures
        c.received(MessageView::SetChunkSize { chunk_size }) == Arrival::InvalidChunkSize(
            chunk_size as usize,
        ),
{
}

/// What receiving gives.
#[derive(Debug)]
pub enum Incoming {
    /// No message is complete yet.
    Pending,
    /// A message, and the message to answer it with.
    Message { msg: RtmpMessage, reply: Option<RtmpMessage> },
    /// The AMF0 body of a command or data message, for
    /// [`Context::recv_amf`] to go on from its values.
    Amf { kind: AmfKind, body: Bytes },
}

/// What sending gives.
#[derive(Debug)]
pub enum Outgoing {
    /// The bytes to write.
    Chunks(Vec<u8>),
    /// An AMF0 message: its header fields, and the values to serialize into
    /// the payload that [`Context::send_payload`] then takes.
    Amf { message_type: u8, csid: u32, timestamp: u32, values: Vec<Amf0Value> },
}

/// The view of a message that may be missing.
pub open spec fn optional_message(m: Option<RtmpMessage>) -> Option<MessageView> {
    match m {
        Some(x) => Some(x@),
        None => None,
    }
}

/// The views of a list of encoded messages, in order.
pub open spec fn encoded_view(list: Seq<Encoded>) -> Seq<EncodedView> {
    Seq::new(list.len(), |i: int| list[i]@)
}

impl ContextView {
    /// The connection after the first `n` of `msgs` were sent, one after the
    /// other; `None` where one of them cannot be sent.
    pub open spec fn sending_all(self, msgs: Seq<MessageView>, n: nat) -> Option<ContextView>
        decreases n,
    {
        if n == 0 || n > msgs.len() {
            Some(self)
        } else {
            match self.sending_all(msgs, (n - 1) as nat) {
                Some(c) => c.sending(msgs[n - 1]),
                None => None,
            }
        }
    }
}

impl Context {
    pub closed spec fn wf(&self) -> bool {
        self.chunk_io.wf()
    }

    /// Well-formedness as the view shows it.
    pub proof fn lemma_wf_view(&self)
        requires
            self.wf(),
        ensures
            self@.codec.wf(),
            !self@.codec.io.marked,
            self@.codec.io.cursor == 0,
    {
        self.chunk_io.lemma_wf_view();
    }

    pub fn new(chunk_io: ChunkCodec) -> (r: Self)
        requires
            chunk_io.wf(),
        ensures
            r.wf(),
            r@ == ContextView::fresh(chunk_io@),
    {
        Context {
            chunk_io,
            in_ack_size: AckWindowSize { window: 0, nb_recv_bytes: 0, sequence_number: 0 },
            out_ack_size: AckWindowSize { window: 0, nb_recv_bytes: 0, sequence_number: 0 },
            in_buffer_length: 0,
            in_auido_count: 0,
            in_video_count: 0,
            out_audio_count: 0,
            out_video_count: 0,
        }
    }

    pub fn get_recv_bytes(&self) -> (n: u64)
        ensures
            n == self@.codec.io.recv_bytes,
    {
        self.chunk_io.get_recv_bytes()
    }

    pub fn get_send_bytes(&self) -> (n: u64)
        ensures
            n == self@.codec.io.send_bytes,
    {
        self.chunk_io.get_send_bytes()
    }

    pub fn get_in_audio_count(&self) -> (n: u64)
        ensures
            n == self@.in_audio_count,
    {
        self.in_auido_count
    }

    pub fn get_in_video_count(&self) -> (n: u64)
        ensures
            n == self@.in_video_count,
    {
        self.in_video_count
    }

    pub fn get_out_audio_count(&self) -> (n: u64)
        ensures
            n == self@.out_audio_count,
    {
        self.out_audio_count
    }

    pub fn get_out_video_count(&self) -> (n: u64)
        ensures
            n == self@.out_video_count,
    {
        self.out_video_count
    }

    pub fn set_in_window_ack_size(&mut self, ack_size: u32)
        requires
            old(self).wf(),
        ensures
            final(self).wf(),
            final(self)@ == (ContextView { in_window: ack_size, ..old(self)@ }),
    {
        self.in_ack_size.window = ack_size;
    }

    /// Number of bytes that [`Context::fill`] can take.
    pub fn room(&self) -> (n: usize)
        requires
            self.wf(),
        ensures
            n == crate::chunk::transport::BUFFER_SIZE - self@.codec.io.pending.len(),
    {
        self.chunk_io.room()
    }

    /// Takes bytes that arrived from the peer.
    ///
    /// Fails with `ChunkIo(TransportIO(BufNoSpace))`, and takes nothing,
    /// where they do not fit beside what is pending.
    pub fn fill(&mut self, data: &[u8]) -> (r: Result<(), ConnectionError>)
        requires
            old(self).wf(),
        ensures
            final(self).wf(),
            match r {
                Ok(_) => final(self)@ == (ContextView {
                    codec: CodecView {
                        io: TransportView {
                            pending: old(self)@.codec.io.pending + data@,
                            ..old(self)@.codec.io
                        },
                        ..old(self)@.codec
                    },
                    ..old(self)@
                }),
                Err(e) => {
                    &&& e matches ConnectionError::ChunkIo(
                        ChunkError::TransportIO(
                            crate::chunk::transport::TransportError::BufNoSpace,
                        ),
                    )
                    &&& old(self)@.codec.io.pending.len() + data@.len()
                        > crate::chunk::transport::BUFFER_SIZE
                    &&& final(self)@ == old(self)@
                },
            },
    {
        match self.chunk_io.fill(data) {
            Ok(_) => Ok(()),
            Err(e) => Err(ConnectionError::ChunkIo(e)),
        }
    }

    /// Keeps account of a message that arrived; returns the message to
    /// answer it with.
    ///
    /// Fails with `InvalidChunkSize`, and changes nothing, where the message
    /// sets a chunk size below 128 or above 65536.
    pub fn on_recv_message(&mut self, msg: &RtmpMessage) -> (r: Result<
        Option<RtmpMessage>,
        ConnectionError,
    >)
        requires
            old(self).wf(),
        ensures
            final(self).wf(),
            match r {
                Ok(reply) => old(self)@.received(msg@) == Arrival::Taken(
                    final(self)@,
                    optional_message(reply),
                ),
                Err(e) => {
                    &&& e matches ConnectionError::InvalidChunkSize(n)
                    &&& old(self)@.received(msg@) == Arrival::InvalidChunkSize(n)
                    &&& final(self)@ == old(self)@
                },
            },
    {
        match msg {
            RtmpMessage::AudioData { .. } => {
                self.in_auido_count = self.in_auido_count.saturating_add(1);
                Ok(None)
            },
            RtmpMessage::VideoData { .. } => {
                self.in_video_count = self.in_video_count.saturating_add(1);
                Ok(None)
            },
            RtmpMessage::SetChunkSize { chunk_size } => {
                let chunk_size = *chunk_size as usize;
                if chunk_size < MIN_CHUNK_SIZE || chunk_size > MAX_CHUNK_SIZE {
                    return Err(ConnectionError::InvalidChunkSize(chunk_size));
                }
                self.chunk_io.set_in_chunk_size(chunk_size);
                Ok(None)
            },
            RtmpMessage::SetWindowAckSize { ack_window_size } => {
                self.in_ack_size.window = *ack_window_size;
                Ok(None)
            },
            RtmpMessage::UserControl { event_type, event_data, extra_data } => {
                if *event_type == SET_BUFFER_LENGTH {
                    self.in_buffer_length = *extra_data;
                    Ok(None)
                } else if *event_type == PING_REQUEST {
                    Ok(
                        Some(
                            RtmpMessage::UserControl {
                                event_type: PING_RESPONSE,
                                event_data: *event_data,
                                extra_data: 0,
                            },
                        ),
                    )
                } else {
                    Ok(None)
                }
            },
            _ => Ok(None),
        }
    }

    /// Receives the next message, if one is complete, and keeps account of
    /// it.
    ///
    /// Where no message is complete, what stays unread is less than a chunk,
    /// so that [`Context::fill`] has room for more.
    ///
    /// Fails as the chunk layer does, with its error in `ChunkIo`, and as
    /// [`Context::on_recv_message`] does. A failure leaves the connection as
    /// it was but for what was read: the chunks before the one that broke a
    /// rule, or the message that was refused.
    pub fn recv_message(&mut self) -> (r: Result<Incoming, ConnectionError>)
        requires
            old(self).wf(),
        ensures
            final(self).wf(),
            match receipt(
                old(self)@.codec.streams,
                old(self)@.codec.in_chunk_size,
                old(self)@.codec.io.pending,
            ) {
                Receipt::Failed { streams, consumed, error } => {
                    &&& r matches Err(ConnectionError::ChunkIo(e))
                    &&& e == error
                    &&& final(self)@ == (ContextView {
                        codec: old(self)@.codec.after_receipt(streams, consumed),
                        ..old(self)@
                    })
                },
                Receipt::Pending { streams, consumed } => {
                    &&& r matches Ok(Incoming::Pending)
                    &&& final(self)@ == (ContextView {
                        codec: old(self)@.codec.after_receipt(streams, consumed),
                        ..old(self)@
                    })
                    &&& final(self)@.codec.io.pending.len() < crate::chunk::MAX_HEADER_SIZE
                        + final(self)@.codec.in_chunk_size
                },
                Receipt::Message { streams, consumed, payload, header } => {
                    let read = ContextView {
                        codec: old(self)@.codec.after_receipt(streams, consumed),
                        ..old(self)@
                    };
                    match decoded(assembled(payload, header)) {
                        None => {
                            &&& r matches Err(
                                ConnectionError::ChunkIo(
                                    ChunkError::DecodeMessageFailed(MessageDecodeError::Io),
                                ),
                            )
                            &&& final(self)@ == read
                        },
                        Some(DecodedView::Amf { kind, body }) => {
                            &&& r matches Ok(Incoming::Amf { kind: k, body: b })
                            &&& k == kind
                            &&& bytes_seq(&b) == body
                            &&& final(self)@ == read
                        },
                        Some(DecodedView::Message(m)) => match read.received(m) {
                            Arrival::Taken(after, answer) => {
                                &&& r matches Ok(Incoming::Message { msg, reply })
                                &&& msg@ == m
                                &&& optional_message(reply) == answer
                                &&& final(self)@ == after
                            },
                            Arrival::InvalidChunkSize(n) => {
                                &&& r matches Err(ConnectionError::InvalidChunkSize(k))
                                &&& k == n
                                &&& final(self)@ == read
                            },
                        },
                    }
                },
            },
    {
        match self.chunk_io.recv_rtmp_message() {
            Err(e) => Err(ConnectionError::ChunkIo(e)),
            Ok(None) => Ok(Incoming::Pending),
            Ok(Some(Decoded::Amf { kind, body })) => Ok(Incoming::Amf { kind, body }),
            Ok(Some(Decoded::Message(msg))) => {
                match self.on_recv_message(&msg) {
                    Ok(reply) => Ok(Incoming::Message { msg, reply }),
                    Err(e) => Err(e),
                }
            },
        }
    }

    /// Makes the message from the values of an AMF0 body that
    /// [`Context::recv_message`] handed out, and keeps account of it.
    ///
    /// Fails with `ChunkIo(DecodeMessageFailed(InvalidFormat))` and the
    /// field's name, and only so, where a leading value is missing or of the
    /// wrong type.
    pub fn recv_amf(&mut self, kind: AmfKind, values: Vec<Amf0Value>) -> (r: Result<
        RtmpMessage,
        ConnectionError,
    >)
        requires
            old(self).wf(),
        ensures
            final(self).wf(),
            final(self)@ == old(self)@,
            match r {
                Ok(m) => decoded_amf(kind, values_view(values@)) == Ok::<MessageView, Seq<char>>(
                    m@,
                ),
                Err(e) => {
                    &&& e matches ConnectionError::ChunkIo(
                        ChunkError::DecodeMessageFailed(MessageDecodeError::InvalidFormat(field)),
                    )
                    &&& decoded_amf(kind, values_view(values@)) == Err::<MessageView, Seq<char>>(
                        field@,
                    )
                },
            },
    {
        match decode_amf(kind, values) {
            Ok(m) => Ok(m),
            Err(e) => Err(ConnectionError::ChunkIo(ChunkError::DecodeMessageFailed(e))),
        }
    }

    /// Keeps account of a message that is about to be sent.
    ///
    /// Fails with `InvalidChunkSize(0)`, and changes nothing, where the
    /// message sets a chunk size of 0.
    pub fn on_send_message(&mut self, msg: &RtmpMessage) -> (r: Result<(), ConnectionError>)
        requires
            old(self).wf(),
        ensures
            final(self).wf(),
            match r {
                Ok(_) => old(self)@.sending(msg@) == Some(final(self)@),
                Err(e) => {
                    &&& e matches ConnectionError::InvalidChunkSize(0)
                    &&& old(self)@.sending(msg@) is None
                    &&& final(self)@ == old(self)@
                },
            },
    {
        match msg {
            RtmpMessage::AudioData { .. } => {
                self.out_audio_count = self.out_audio_count.saturating_add(1);
            },
            RtmpMessage::VideoData { .. } => {
                self.out_video_count = self.out_video_count.saturating_add(1);
            },
            RtmpMessage::SetChunkSize { chunk_size } => {
                if *chunk_size == 0 {
                    return Err(ConnectionError::InvalidChunkSize(0));
                }
                self.chunk_io.set_out_chunk_size(*chunk_size as usize);
            },
            RtmpMessage::SetWindowAckSize { ack_window_size } => {
                self.out_ack_size.window = *ack_window_size;
            },
            _ => {},
        }
        Ok(())
    }

    /// Splits a payload into chunks and returns the bytes to write.
    ///
    /// Fails with `ChunkIo(EncodeMessageFailed(InvalidFormat))`, and changes
    /// nothing, where the payload has 2^24 bytes or more.
    pub fn send_payload(&mut self, payload: RtmpPayload) -> (r: Result<Vec<u8>, ConnectionError>)
        requires
            old(self).wf(),
        ensures
            final(self).wf(),
            match r {
                Ok(bytes) => {
                    &&& payload@.raw_data.len() < MAX_PAYLOAD_LENGTH
                    &&& bytes@ == chunks_from(payload@, old(self)@.codec.out_chunk_size, 0)
                    &&& final(self)@ == old(self)@.written(bytes@.len())
                },
                Err(e) => {
                    &&& payload@.raw_data.len() >= MAX_PAYLOAD_LENGTH
                    &&& e matches ConnectionError::ChunkIo(
                        ChunkError::EncodeMessageFailed(MessageEncodeError::InvalidFormat),
                    )
                    &&& final(self)@ == old(self)@
                },
            },
    {
        match self.chunk_io.send_rtmp_message(payload) {
            Ok(bytes) => Ok(bytes),
            Err(e) => Err(ConnectionError::ChunkIo(e)),
        }
    }

    /// Splits payloads into chunks and returns the bytes to write.
    ///
    /// Fails with `ChunkIo(EncodeMessageFailed(InvalidFormat))`, and changes
    /// nothing, where a payload has 2^24 bytes or more.
    pub fn send_payloads(&mut self, payloads: &[RtmpPayload]) -> (r: Result<
        Vec<u8>,
        ConnectionError,
    >)
        requires
            old(self).wf(),
        ensures
            final(self).wf(),
            match r {
                Ok(bytes) => {
                    &&& lengths_fit(payloads_view(payloads@))
                    &&& bytes@ == chunks_of(
                        payloads_view(payloads@),
                        old(self)@.codec.out_chunk_size,
                        payloads@.len(),
                    )
                    &&& final(self)@ == old(self)@.written(bytes@.len())
                },
                Err(e) => {
                    &&& !lengths_fit(payloads_view(payloads@))
                    &&& e matches ConnectionError::ChunkIo(
                        ChunkError::EncodeMessageFailed(MessageEncodeError::InvalidFormat),
                    )
                    &&& final(self)@ == old(self)@
                },
            },
    {
        match self.chunk_io.send_rtmp_messages(payloads) {
            Ok(bytes) => Ok(bytes),
            Err(e) => Err(ConnectionError::ChunkIo(e)),
        }
    }

    /// Sends a message at `timestamp` on stream `csid`: keeps account of it
    /// and encodes it. A message with a body of bytes is split into chunks;
    /// an AMF0 message is handed out as its values.
    ///
    /// Fails with `InvalidChunkSize(0)` where the message sets a chunk size
    /// of 0, and with `ChunkIo(EncodeMessageFailed(InvalidFormat))` where its
    /// payload has 2^24 bytes or more.
    pub fn send_message(&mut self, msg: RtmpMessage, timestamp: u32, csid: u32) -> (r: Result<
        Outgoing,
        ConnectionError,
    >)
        requires
            old(self).wf(),
        ensures
            final(self).wf(),
            match old(self)@.sending(msg@) {
                None => r matches Err(ConnectionError::InvalidChunkSize(0)) && final(self)@
                    == old(self)@,
                Some(counted) => match encoded(msg@, timestamp, csid) {
                    EncodedView::Amf { message_type, csid: c, timestamp: t, values } => {
                        &&& r matches Ok(
                            Outgoing::Amf { message_type: m2, csid: c2, timestamp: t2, values: v2 },
                        )
                        &&& m2 == message_type
                        &&& c2 == c
                        &&& t2 == t
                        &&& values_view(v2@) == values
                        &&& final(self)@ == counted
                    },
                    EncodedView::Payload(p) => if p.raw_data.len() < MAX_PAYLOAD_LENGTH {
                        &&& r matches Ok(Outgoing::Chunks(bytes))
                        &&& bytes@ == chunks_from(p, counted.codec.out_chunk_size, 0)
                        &&& final(self)@ == counted.written(bytes@.len())
                    } else {
                        &&& r matches Err(
                            ConnectionError::ChunkIo(
                                ChunkError::EncodeMessageFailed(MessageEncodeError::InvalidFormat),
                            ),
                        )
                        &&& final(self)@ == counted
                    },
                },
            },
    {
        match self.on_send_message(&msg) {
            Ok(_) => {},
            Err(e) => {
                return Err(e);
            },
        }
        match encode(msg, timestamp, csid) {
            Ok(Encoded::Amf { message_type, csid, timestamp, values }) => Ok(
                Outgoing::Amf { message_type, csid, timestamp, values },
            ),
            Ok(Encoded::Payload(payload)) => match self.send_payload(payload) {
                Ok(bytes) => Ok(Outgoing::Chunks(bytes)),
                Err(e) => Err(e),
            },
            Err(e) => Err(ConnectionError::RtmpMessageEncode(e)),
        }
    }

    /// Keeps account of each message and encodes it for sending at
    /// `timestamp` on stream `csid`; the payloads are then for
    /// [`Context::send_payloads`], once the AMF0 messages among them are
    /// serialized.
    ///
    /// Fails with `InvalidChunkSize(0)`, and only so, where a message sets a
    /// chunk size of 0. The messages before the first such message are then
    /// accounted for, that message and those behind it are not.
    pub fn send_messages(&mut self, msgs: &[RtmpMessage], timestamp: u32, csid: u32) -> (r: Result<
        Vec<Encoded>,
        ConnectionError,
    >)
        requires
            old(self).wf(),
        ensures
            final(self).wf(),
            match r {
                Ok(list) => {
                    &&& old(self)@.sending_all(messages_view(msgs@), msgs@.len()) == Some(
                        final(self)@,
                    )
                    &&& list@.len() == msgs@.len()
                    &&& forall|i: int|
                        0 <= i < msgs@.len() ==> (#[trigger] list@[i])@ == encoded(
                            msgs@[i]@,
                            timestamp,
                            csid,
                        )
                },
                Err(e) => {
                    &&& e matches ConnectionError::InvalidChunkSize(0)
                    &&& old(self)@.sending_all(messages_view(msgs@), msgs@.len()) is None
                    &&& exists|k: nat|
                        {
                            &&& k < msgs@.len()
                            &&& #[trigger] old(self)@.sending_all(messages_view(msgs@), k) == Some(
                                final(self)@,
                            )
                            &&& final(self)@.sending(msgs@[k as int]@) is None
                        }
                },
            },
    {
        let ghost views = messages_view(msgs@);
        let mut list: Vec<Encoded> = Vec::new();
        let mut i: usize = 0;
        while i < msgs.len()
            invariant
                i <= msgs@.len(),
                self.wf(),
                views == messages_view(msgs@),
                old(self)@.sending_all(views, i as nat) == Some(self@),
                list@.len() == i,
                forall|j: int|
                    0 <= j < i ==> (#[trigger] list@[j])@ == encoded(msgs@[j]@, timestamp, csid),
            decreases msgs@.len() - i,
        {
            assert(views[i as int] == msgs@[i as int]@);
            match self.on_send_message(&msgs[i]) {
                Ok(_) => {},
                Err(e) => {
                    proof {
                        lemma_sending_all_fails(old(self)@, views, (i + 1) as nat, msgs@.len());
                        assert(old(self)@.sending_all(views, i as nat) == Some(self@));
                    }
                    return Err(e);
                },
            }
            match encode(msgs[i].clone(), timestamp, csid) {
                Ok(e) => {
                    list.push(e);
                },
                Err(e) => {
                    // Encoding never fails.
                    assert(false);
                    return Err(ConnectionError::RtmpMessageEncode(e));
                },
            }
            i += 1;
        }
        Ok(list)
    }

    /// The message, if it is an AMF0 command of one of the given names; with
    /// no names given, if it is an AMF0 command at all.
    pub fn expect_amf_command(msg: RtmpMessage, specified_cmds: &[&str]) -> (r: Option<
        RtmpMessage,
    >)
        ensures
            match r {
                Some(m) => m == msg && msg@.expect_amf(crate::message::texts(specified_cmds@)),
                None => !msg@.expect_amf(crate::message::texts(specified_cmds@)),
            },
    {
        if msg.expect_amf(specified_cmds) {
            Some(msg)
        } else {
            None
        }
    }
}

/// Once a message cannot be sent, no longer list can.
pub proof fn lemma_sending_all_fails(c: ContextView, msgs: Seq<MessageView>, n: nat, m: nat)
    requires
        c.sending_all(msgs, n) is None,
        n <= m <= msgs.len(),
    ensures
        c.sending_all(msgs, m) is None,
    decreases m - n,
{
    if n < m {
        lemma_sending_all_fails(c, msgs, n, (m - 1) as nat);
    }
}

} // verus!
