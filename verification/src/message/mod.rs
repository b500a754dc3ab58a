//! RTMP messages and the codec between a message and its body bytes.
//!
//! AMF0 (de)serialization is not done here. Decoding stops at the AMF0 body of
//! a command or data message and goes on, in [`decode_amf`], from the values
//! that the body holds; encoding stops at the list of values.

use crate::amf::{clone_values, values_view, Amf0Value, Amf0View};
use crate::buf::{bytes_seq, bytes_tail};
use crate::codec::{
    audio_sequence_header, is_video_keyframe, video_keyframe, video_sequence_header,
};
use crate::endian::{
    be_u16, be_u32, lemma_be_u16_of_bytes, lemma_be_u32_of_bytes, read_u16_be, read_u32_be,
    u16_be_bytes, u32_be_bytes, write_u16_be, write_u32_be,
};
use crate::message::error::{MessageDecodeError, MessageEncodeError};
use crate::message::types::amf0_command_type::{DATA_ON_METADATA, DATA_SET_DATAFRAME};
use crate::message::types::msg_type::{
    ABORT, ACK, AMF0_CMD, AMF0_DATA, AMF3_CMD, AMF3_DATA, AUDIO, SET_CHUNK_SIZE, SET_PEER_BW,
    USER_CONTROL, VIDEO, WIN_ACK_SIZE,
};
use crate::message::types::user_ctrl_ev_type::SET_BUFFER_LENGTH;
use bytes::Bytes;
use vstd::prelude::*;
use vstd::slice::slice_subrange;


pub mod builders;
pub mod error;
pub mod request;

pub mod types;

verus! {

/// A message as the chunk layer carries it: type, stream, time and body.
#[derive(Debug)]
pub struct RtmpPayload {
    pub message_type: u8,
    pub csid: u32,
    pub timestamp: u32,
    pub raw_data: Bytes,
}

/// What an [`RtmpPayload`] stands for.
pub struct PayloadView {
    pub message_type: u8,
    pub csid: u32,
    pub timestamp: u32,
    pub raw_data: Seq<u8>,
}

impl View for RtmpPayload {
    type V = PayloadView;

    open spec fn view(&self) -> PayloadView {
        PayloadView {
            message_type: self.message_type,
            csid: self.csid,
            timestamp: self.timestamp,
            raw_data: bytes_seq(&self.raw_data),
        }
    }
}

#[derive(Debug)]
pub enum RtmpMessage {
    Amf0Command {
        command_name: String,
        /// A double, by its bits.
        transaction_id: u64,
        command_object: Amf0Value,
        additional_arguments: Vec<Amf0Value>,
    },
    Amf0Data { command_name: String, values: Vec<Amf0Value> },
    UserControl { event_type: u16, event_data: u32, extra_data: u32 },
    SetWindowAckSize { ack_window_size: u32 },
    Acknowledgement { sequence_number: u32 },
    SetChunkSize { chunk_size: u32 },
    AudioData { stream_id: u32, timestamp: u32, payload: Bytes },
    VideoData { stream_id: u32, timestamp: u32, payload: Bytes },
    Abort { stream_id: u32 },
    SetPeerBandwidth { size: u32, limit_type: u8 },
    Unknown { type_id: u8, data: Bytes },
}

/// What an [`RtmpMessage`] stands for.
pub enum MessageView {
    Amf0Command {
        command_name: Seq<char>,
        transaction_id: u64,
        command_object: Amf0View,
        additional_arguments: Seq<Amf0View>,
    },
    Amf0Data { command_name: Seq<char>, values: Seq<Amf0View> },
    UserControl { event_type: u16, event_data: u32, extra_data: u32 },
    SetWindowAckSize { ack_window_size: u32 },
    Acknowledgement { sequence_number: u32 },
    SetChunkSize { chunk_size: u32 },
    AudioData { stream_id: u32, timestamp: u32, payload: Seq<u8> },
    VideoData { stream_id: u32, timestamp: u32, payload: Seq<u8> },
    Abort { stream_id: u32 },
    SetPeerBandwidth { size: u32, limit_type: u8 },
    Unknown { type_id: u8, data: Seq<u8> },
}

impl View for RtmpMessage {
    type V = MessageView;

    open spec fn view(&self) -> MessageView {
        match self {
            RtmpMessage::Amf0Command {
                command_name,
                transaction_id,
                command_object,
                additional_arguments,
            } => MessageView::Amf0Command {
                command_name: command_name@,
                transaction_id: *transaction_id,
                command_object: command_object@,
                additional_arguments: values_view(additional_arguments@),
            },
            RtmpMessage::Amf0Data { command_name, values } => MessageView::Amf0Data {
                command_name: command_name@,
                values: values_view(values@),
            },
            RtmpMessage::UserControl { event_type, event_data, extra_data } => {
                MessageView::UserControl {
                    event_type: *event_type,
                    event_data: *event_data,
                    extra_data: *extra_data,
                }
            },
            RtmpMessage::SetWindowAckSize { ack_window_size } => MessageView::SetWindowAckSize {
                ack_window_size: *ack_window_size,
            },
            RtmpMessage::Acknowledgement { sequence_number } => MessageView::Acknowledgement {
                sequence_number: *sequence_number,
            },
            RtmpMessage::SetChunkSize { chunk_size } => MessageView::SetChunkSize {
                chunk_size: *chunk_size,
            },
            RtmpMessage::AudioData { stream_id, timestamp, payload } => MessageView::AudioData {
                stream_id: *stream_id,
                timestamp: *timestamp,
                payload: bytes_seq(payload),
            },
            RtmpMessage::VideoData { stream_id, timestamp, payload } => MessageView::VideoData {
                stream_id: *stream_id,
                timestamp: *timestamp,
                payload: bytes_seq(payload),
            },
            RtmpMessage::Abort { stream_id } => MessageView::Abort { stream_id: *stream_id },
            RtmpMessage::SetPeerBandwidth { size, limit_type } => MessageView::SetPeerBandwidth {
                size: *size,
                limit_type: *limit_type,
            },
            RtmpMessage::Unknown { type_id, data } => MessageView::Unknown {
                type_id: *type_id,
                data: bytes_seq(data),
            },
        }
    }
}

/// The views of a list of messages, in order.
pub open spec fn messages_view(msgs: Seq<RtmpMessage>) -> Seq<MessageView> {
    Seq::new(msgs.len(), |i: int| msgs[i]@)
}

impl MessageView {
    /// The message is an AMF0 command, and `names` is empty or holds its name.
    pub open spec fn expect_amf(self, names: Seq<Seq<char>>) -> bool {
        self matches MessageView::Amf0Command { command_name, .. } && (names.len() == 0
            || names.contains(command_name))
    }

    /// The message is the stream's metadata: an AMF0 data message named
    /// `onMetaData`.
    pub open spec fn is_metadata(self) -> bool {
        self matches MessageView::Amf0Data { command_name, .. } && command_name
            == DATA_ON_METADATA@
    }

    /// Payload length of an audio or video message.
    pub open spec fn len(self) -> Option<nat> {
        match self {
            MessageView::VideoData { payload, .. } => Some(payload.len()),
            MessageView::AudioData { payload, .. } => Some(payload.len()),
            _ => None,
        }
    }

    /// Timestamp of an audio or video message.
    pub open spec fn timestamp(self) -> Option<u32> {
        match self {
            MessageView::VideoData { timestamp, .. } => Some(timestamp),
            MessageView::AudioData { timestamp, .. } => Some(timestamp),
            _ => None,
        }
    }

    /// The message is a video keyframe (and no sequence header).
    pub open spec fn is_key_frame(self) -> bool {
        self matches MessageView::VideoData { payload, .. } && video_keyframe(payload)
    }

    /// The message is a video sequence header.
    pub open spec fn is_video_sequence_header(self) -> bool {
        self matches MessageView::VideoData { payload, .. } && video_sequence_header(payload)
    }

    /// The message is an audio sequence header.
    pub open spec fn is_audio_sequence_header(self) -> bool {
        self matches MessageView::AudioData { payload, .. } && audio_sequence_header(payload)
    }
}

impl Clone for RtmpMessage {
    fn clone(&self) -> (r: Self)
        ensures
            r@ == self@,
    {
        match self {
            RtmpMessage::Amf0Command {
                command_name,
                transaction_id,
                command_object,
                additional_arguments,
            } => RtmpMessage::Amf0Command {
                command_name: command_name.clone(),
                transaction_id: *transaction_id,
                command_object: command_object.clone(),
                additional_arguments: clone_values(additional_arguments),
            },
            RtmpMessage::Amf0Data { command_name, values } => RtmpMessage::Amf0Data {
                command_name: command_name.clone(),
                values: clone_values(values),
            },
            RtmpMessage::UserControl { event_type, event_data, extra_data } => {
                RtmpMessage::UserControl {
                    event_type: *event_type,
                    event_data: *event_data,
                    extra_data: *extra_data,
                }
            },
            RtmpMessage::SetWindowAckSize { ack_window_size } => RtmpMessage::SetWindowAckSize {
                ack_window_size: *ack_window_size,
            },
            RtmpMessage::Acknowledgement { sequence_number } => RtmpMessage::Acknowledgement {
                sequence_number: *sequence_number,
            },
            RtmpMessage::SetChunkSize { chunk_size } => RtmpMessage::SetChunkSize {
                chunk_size: *chunk_size,
            },
            RtmpMessage::AudioData { stream_id, timestamp, payload } => RtmpMessage::AudioData {
                stream_id: *stream_id,
                timestamp: *timestamp,
                payload: payload.clone(),
            },
            RtmpMessage::VideoData { stream_id, timestamp, payload } => RtmpMessage::VideoData {
                stream_id: *stream_id,
                timestamp: *timestamp,
                payload: payload.clone(),
            },
            RtmpMessage::Abort { stream_id } => RtmpMessage::Abort { stream_id: *stream_id },
            RtmpMessage::SetPeerBandwidth { size, limit_type } => RtmpMessage::SetPeerBandwidth {
                size: *size,
                limit_type: *limit_type,
            },
            RtmpMessage::Unknown { type_id, data } => RtmpMessage::Unknown {
                type_id: *type_id,
                data: data.clone(),
            },
        }
    }
}

/// A copy of a list of messages.
pub fn clone_messages(msgs: &Vec<RtmpMessage>) -> (r: Vec<RtmpMessage>)
    ensures
        messages_view(r@) == messages_view(msgs@),
{
    let mut out: Vec<RtmpMessage> = Vec::new();
    let mut i: usize = 0;
    while i < msgs.len()
        invariant
            i <= msgs.len(),
            out@.len() == i,
            forall|j: int| 0 <= j < i ==> out@[j]@ == msgs@[j]@,
        decreases msgs.len() - i,
    {
        out.push(msgs[i].clone());
        i += 1;
    }
    assert(messages_view(out@) =~= messages_view(msgs@));
    out
}

/// The texts of a list of string slices, in order.
pub open spec fn texts(names: Seq<&str>) -> Seq<Seq<char>> {
    Seq::new(names.len(), |i: int| names[i]@)
}

/// `a` and `b` hold the same text.
pub fn same_text(a: &str, b: &str) -> (r: bool)
    ensures
        r == (a@ == b@),
{
    let x = a.to_owned();
    let y = b.to_owned();
    x == y
}

impl RtmpMessage {
    /// Whether the message is an AMF0 command with one of the given names;
    /// with no names given, whether it is an AMF0 command at all.
    pub fn expect_amf(&self, specified_cmds: &[&str]) -> (r: bool)
        ensures
            r == self@.expect_amf(texts(specified_cmds@)),
    {
        let ghost names = texts(specified_cmds@);
        if let RtmpMessage::Amf0Command { command_name, .. } = self {
            if specified_cmds.len() == 0 {
                assert(names.len() == 0);
                return true;
            }
            let mut i: usize = 0;
            while i < specified_cmds.len()
                invariant
                    i <= specified_cmds@.len(),
                    names == texts(specified_cmds@),
                    *self is Amf0Command,
                    self->Amf0Command_command_name == *command_name,
                    forall|j: int| 0 <= j < i ==> names[j] != command_name@,
                decreases specified_cmds@.len() - i,
            {
                if same_text(command_name.as_str(), specified_cmds[i]) {
                    assert(names[i as int] == command_name@);
                    assert(names.contains(command_name@));
                    return true;
                }
                i += 1;
            }
            return false;
        }
        false
    }

    pub fn is_metadata(&self) -> (r: bool)
        ensures
            r == self@.is_metadata(),
    {
        if let RtmpMessage::Amf0Data { command_name, .. } = self {
            if same_text(command_name.as_str(), DATA_ON_METADATA) {
                return true;
            }
        }
        false
    }

    /// Payload length of an audio or video message.
    pub fn len(&self) -> (r: Option<usize>)
        ensures
            match r {
                Some(n) => self@.len() == Some(n as nat),
                None => self@.len() is None,
            },
    {
        match self {
            RtmpMessage::VideoData { payload, .. } => Some(crate::buf::bytes_len(payload)),
            RtmpMessage::AudioData { payload, .. } => Some(crate::buf::bytes_len(payload)),
            _ => None,
        }
    }

    /// Timestamp of an audio or video message.
    pub fn timestamp(&self) -> (r: Option<u32>)
        ensures
            r == self@.timestamp(),
    {
        match self {
            RtmpMessage::VideoData { timestamp, .. } => Some(*timestamp),
            RtmpMessage::AudioData { timestamp, .. } => Some(*timestamp),
            _ => None,
        }
    }

    pub fn is_key_frame(&self) -> (r: bool)
        ensures
            r == self@.is_key_frame(),
    {
        if let RtmpMessage::VideoData { payload, .. } = self {
            return is_video_keyframe(payload);
        }
        false
    }
}

/// Which kind of AMF0 message a body belongs to.
#[derive(Debug, Clone, Copy, PartialEq, Eq, Structural)]
pub enum AmfKind {
    Command,
    Data,
}

/// What [`decode`] made of a payload.
#[derive(Debug)]
pub enum Decoded {
    /// The message, complete.
    Message(RtmpMessage),
    /// The AMF0 body of a command or data message. [`decode_amf`] makes the
    /// message from the values that it holds.
    Amf { kind: AmfKind, body: Bytes },
}

/// What a [`Decoded`] stands for.
pub enum DecodedView {
    Message(MessageView),
    Amf { kind: AmfKind, body: Seq<u8> },
}

impl View for Decoded {
    type V = DecodedView;

    open spec fn view(&self) -> DecodedView {
        match self {
            Decoded::Message(m) => DecodedView::Message(m@),
            Decoded::Amf { kind, body } => DecodedView::Amf { kind: *kind, body: bytes_seq(body) },
        }
    }
}

/// What a payload decodes to; `None` where its body is too short for its type.
///
/// The four one-number control messages hold a big-endian `u32`; a peer
/// bandwidth holds one more byte; a user control event holds a `u16` type, a
/// `u32`, and a second `u32` where the type is `SetBufferLength`. Audio and
/// video keep their body as it is. An AMF3 command or data body is an AMF0
/// body after one byte. Every other type is kept whole as `Unknown`.
pub open spec fn decoded(p: PayloadView) -> Option<DecodedView> {
    let d = p.raw_data;
    let t = p.message_type;
    if t == SET_CHUNK_SIZE {
        if d.len() >= 4 {
            Some(DecodedView::Message(MessageView::SetChunkSize { chunk_size: be_u32(d) }))
        } else {
            None
        }
    } else if t == ABORT {
        if d.len() >= 4 {
            Some(DecodedView::Message(MessageView::Abort { stream_id: be_u32(d) }))
        } else {
            None
        }
    } else if t == ACK {
        if d.len() >= 4 {
            Some(DecodedView::Message(MessageView::Acknowledgement { sequence_number: be_u32(d) }))
        } else {
            None
        }
    } else if t == WIN_ACK_SIZE {
        if d.len() >= 4 {
            Some(
                DecodedView::Message(MessageView::SetWindowAckSize { ack_window_size: be_u32(d) }),
            )
        } else {
            None
        }
    } else if t == USER_CONTROL {
        if d.len() < 6 {
            None
        } else if be_u16(d) != SET_BUFFER_LENGTH {
            Some(
                DecodedView::Message(
                    MessageView::UserControl {
                        event_type: be_u16(d),
                        event_data: be_u32(d.subrange(2, 6)),
                        extra_data: 0,
                    },
                ),
            )
        } else if d.len() >= 10 {
            Some(
                DecodedView::Message(
                    MessageView::UserControl {
                        event_type: be_u16(d),
                        event_data: be_u32(d.subrange(2, 6)),
                        extra_data: be_u32(d.subrange(6, 10)),
                    },
                ),
            )
        } else {
            None
        }
    } else if t == SET_PEER_BW {
        if d.len() >= 5 {
            Some(
                DecodedView::Message(
                    MessageView::SetPeerBandwidth { size: be_u32(d), limit_type: d[4] },
                ),
            )
        } else {
            None
        }
    } else if t == AUDIO {
        Some(
            DecodedView::Message(
                MessageView::AudioData { stream_id: p.csid, timestamp: p.timestamp, payload: d },
            ),
        )
    } else if t == VIDEO {
        Some(
            DecodedView::Message(
                MessageView::VideoData { stream_id: p.csid, timestamp: p.timestamp, payload: d },
            ),
        )
    } else if t == AMF0_DATA {
        Some(DecodedView::Amf { kind: AmfKind::Data, body: d })
    } else if t == AMF0_CMD {
        Some(DecodedView::Amf { kind: AmfKind::Command, body: d })
    } else if t == AMF3_DATA {
        if d.len() >= 1 {
            Some(DecodedView::Amf { kind: AmfKind::Data, body: d.subrange(1, d.len() as int) })
        } else {
            None
        }
    } else if t == AMF3_CMD {
        if d.len() >= 1 {
            Some(DecodedView::Amf { kind: AmfKind::Command, body: d.subrange(1, d.len() as int) })
        } else {
            None
        }
    } else {
        Some(DecodedView::Message(MessageView::Unknown { type_id: t, data: d }))
    }
}

/// Decodes the body of a payload by its message type.
///
/// Fails with `Io`, and only so, where the body is too short for its type.
pub fn decode(payload: RtmpPayload) -> (r: Result<Decoded, MessageDecodeError>)
    ensures
        match r {
            Ok(d) => decoded(payload@) == Some(d@),
            Err(e) => decoded(payload@) is None && e is Io,
        },
{
    let t = payload.message_type;
    if t == SET_CHUNK_SIZE || t == ABORT || t == ACK || t == WIN_ACK_SIZE {
        let data: &[u8] = payload.raw_data.as_ref();
        if data.len() < 4 {
            return Err(MessageDecodeError::Io);
        }
        let n = read_u32_be(data);
        if t == SET_CHUNK_SIZE {
            Ok(Decoded::Message(RtmpMessage::SetChunkSize { chunk_size: n }))
        } else if t == ABORT {
            Ok(Decoded::Message(RtmpMessage::Abort { stream_id: n }))
        } else if t == ACK {
            Ok(Decoded::Message(RtmpMessage::Acknowledgement { sequence_number: n }))
        } else {
            Ok(Decoded::Message(RtmpMessage::SetWindowAckSize { ack_window_size: n }))
        }
    } else if t == USER_CONTROL {
        let data: &[u8] = payload.raw_data.as_ref();
        if data.len() < 6 {
            return Err(MessageDecodeError::Io);
        }
        let event_type = read_u16_be(data);
        let event_data = read_u32_be(slice_subrange(data, 2, 6));
        let mut extra_data: u32 = 0;
        if event_type == SET_BUFFER_LENGTH {
            if data.len() < 10 {
                return Err(MessageDecodeError::Io);
            }
            extra_data = read_u32_be(slice_subrange(data, 6, 10));
        }
        Ok(Decoded::Message(RtmpMessage::UserControl { event_type, event_data, extra_data }))
    } else if t == SET_PEER_BW {
        let data: &[u8] = payload.raw_data.as_ref();
        if data.len() < 5 {
            return Err(MessageDecodeError::Io);
        }
        let size = read_u32_be(data);
        let limit_type = data[4];
        Ok(Decoded::Message(RtmpMessage::SetPeerBandwidth { size, limit_type }))
    } else if t == AUDIO {
        Ok(
            Decoded::Message(
                RtmpMessage::AudioData {
                    stream_id: payload.csid,
                    timestamp: payload.timestamp,
                    payload: payload.raw_data,
                },
            ),
        )
    } else if t == VIDEO {
        Ok(
            Decoded::Message(
                RtmpMessage::VideoData {
                    stream_id: payload.csid,
                    timestamp: payload.timestamp,
                    payload: payload.raw_data,
                },
            ),
        )
    } else if t == AMF0_DATA {
        Ok(Decoded::Amf { kind: AmfKind::Data, body: payload.raw_data })
    } else if t == AMF0_CMD {
        Ok(Decoded::Amf { kind: AmfKind::Command, body: payload.raw_data })
    } else if t == AMF3_DATA || t == AMF3_CMD {
        if crate::buf::bytes_len(&payload.raw_data) < 1 {
            return Err(MessageDecodeError::Io);
        }
        let body = bytes_tail(&payload.raw_data, 1);
        if t == AMF3_DATA {
            Ok(Decoded::Amf { kind: AmfKind::Data, body })
        } else {
            Ok(Decoded::Amf { kind: AmfKind::Command, body })
        }
    } else {
        Ok(Decoded::Message(RtmpMessage::Unknown { type_id: t, data: payload.raw_data }))
    }
}

/// The message that the values of an AMF0 body make, or the name of the field
/// that is missing or of the wrong type.
///
/// A data message is a name and its values; under the name `@setDataFrame` the
/// name proper comes second. A command is a name, a number (the transaction
/// id), a command object, and its further arguments.
pub open spec fn decoded_amf(kind: AmfKind, v: Seq<Amf0View>) -> Result<MessageView, Seq<char>> {
    match kind {
        AmfKind::Data => {
            if v.len() >= 1 && v[0] is Utf8String {
                let first = v[0]->Utf8String_0;
                if first != DATA_SET_DATAFRAME@ {
                    Ok(
                        MessageView::Amf0Data {
                            command_name: first,
                            values: v.subrange(1, v.len() as int),
                        },
                    )
                } else if v.len() >= 2 && v[1] is Utf8String {
                    Ok(
                        MessageView::Amf0Data {
                            command_name: v[1]->Utf8String_0,
                            values: v.subrange(2, v.len() as int),
                        },
                    )
                } else {
                    Err("command"@)
                }
            } else {
                Err("command"@)
            }
        },
        AmfKind::Command => {
            if !(v.len() >= 1 && v[0] is Utf8String) {
                Err("command"@)
            } else if !(v.len() >= 2 && v[1] is Number) {
                Err("transcation_id"@)
            } else if v.len() < 3 {
                Err("command_obj"@)
            } else {
                Ok(
                    MessageView::Amf0Command {
                        command_name: v[0]->Utf8String_0,
                        transaction_id: v[1]->Number_0,
                        command_object: v[2],
                        additional_arguments: v.subrange(3, v.len() as int),
                    },
                )
            }
        },
    }
}

/// Takes the first value out of a list.
fn take_first(values: &mut Vec<Amf0Value>) -> (r: Amf0Value)
    requires
        old(values)@.len() >= 1,
    ensures
        r@ == values_view(old(values)@)[0],
        values_view(final(values)@) == values_view(old(values)@).subrange(
            1,
            old(values)@.len() as int,
        ),
{
    let r = values.remove(0);
    assert(values_view(values@) =~= values_view(old(values)@).subrange(
        1,
        old(values)@.len() as int,
    ));
    r
}

/// Makes the message from the values of an AMF0 body.
///
/// Fails with `InvalidFormat` and the field's name, and only so, where a
/// leading value is missing or of the wrong type.
pub fn decode_amf(kind: AmfKind, values: Vec<Amf0Value>) -> (r: Result<
    RtmpMessage,
    MessageDecodeError,
>)
    ensures
        match r {
            Ok(m) => decoded_amf(kind, values_view(values@)) == Ok::<MessageView, Seq<char>>(m@),
            Err(e) => e matches MessageDecodeError::InvalidFormat(field) && decoded_amf(
                kind,
                values_view(values@),
            ) == Err::<MessageView, Seq<char>>(field@),
        },
{
    let ghost all = values_view(values@);
    let mut rest = values;
    if rest.len() < 1 {
        return Err(MessageDecodeError::InvalidFormat("command".to_owned()));
    }
    let first = take_first(&mut rest);
    assert(values_view(rest@).len() == rest@.len());
    assert(all.len() == rest@.len() + 1);
    assert(forall|j: int| 0 <= j < rest@.len() ==> values_view(rest@)[j] == all[j + 1]);
    let name = match first {
        Amf0Value::Utf8String(s) => s,
        _ => {
            return Err(MessageDecodeError::InvalidFormat("command".to_owned()));
        },
    };
    match kind {
        AmfKind::Data => {
            if !same_text(name.as_str(), DATA_SET_DATAFRAME) {
                return Ok(RtmpMessage::Amf0Data { command_name: name, values: rest });
            }
            if rest.len() < 1 {
                return Err(MessageDecodeError::InvalidFormat("command".to_owned()));
            }
            let second = take_first(&mut rest);
            assert(values_view(rest@).len() == rest@.len());
            assert(values_view(rest@) =~= all.subrange(2, all.len() as int));
            match second {
                Amf0Value::Utf8String(s) => Ok(
                    RtmpMessage::Amf0Data { command_name: s, values: rest },
                ),
                _ => Err(MessageDecodeError::InvalidFormat("command".to_owned())),
            }
        },
        AmfKind::Command => {
            if rest.len() < 1 {
                return Err(MessageDecodeError::InvalidFormat("transcation_id".to_owned()));
            }
            let second = take_first(&mut rest);
            assert(values_view(rest@).len() == rest@.len());
            assert(all.len() == rest@.len() + 2);
            assert(forall|j: int| 0 <= j < rest@.len() ==> values_view(rest@)[j] == all[j + 2]);
            let transaction_id = match second {
                Amf0Value::Number(n) => n,
                _ => {
                    return Err(MessageDecodeError::InvalidFormat("transcation_id".to_owned()));
                },
            };
            if rest.len() < 1 {
                return Err(MessageDecodeError::InvalidFormat("command_obj".to_owned()));
            }
            let command_object = take_first(&mut rest);
            assert(values_view(rest@).len() == rest@.len());
            assert(values_view(rest@) =~= all.subrange(3, all.len() as int));
            Ok(
                RtmpMessage::Amf0Command {
                    command_name: name,
                    transaction_id,
                    command_object,
                    additional_arguments: rest,
                },
            )
        },
    }
}

/// What [`encode`] made of a message.
#[derive(Debug)]
pub enum Encoded {
    /// The payload, complete.
    Payload(RtmpPayload),
    /// An AMF0 message: its header fields, and the values whose AMF0
    /// serialization is its body.
    Amf { message_type: u8, csid: u32, timestamp: u32, values: Vec<Amf0Value> },
}

/// What an [`Encoded`] stands for.
pub enum EncodedView {
    Payload(PayloadView),
    Amf { message_type: u8, csid: u32, timestamp: u32, values: Seq<Amf0View> },
}

impl View for Encoded {
    type V = EncodedView;

    open spec fn view(&self) -> EncodedView {
        match self {
            Encoded::Payload(p) => EncodedView::Payload(p@),
            Encoded::Amf { message_type, csid, timestamp, values } => EncodedView::Amf {
                message_type: *message_type,
                csid: *csid,
                timestamp: *timestamp,
                values: values_view(values@),
            },
        }
    }
}

/// The first value of an AMF0 body: the name, or `Null` for an empty name.
pub open spec fn name_value(name: Seq<char>) -> Amf0View {
    if name.len() == 0 {
        Amf0View::Null
    } else {
        Amf0View::Utf8String(name)
    }
}

/// What a message encodes to, sent at `timestamp` on stream `csid`.
///
/// Audio and video carry their own timestamp and stream id and ignore the two
/// given. A user control event holds its extra number only where its type is
/// `SetBufferLength`.
pub open spec fn encoded(m: MessageView, timestamp: u32, csid: u32) -> EncodedView {
    match m {
        MessageView::Amf0Command {
            command_name,
            transaction_id,
            command_object,
            additional_arguments,
        } => EncodedView::Amf {
            message_type: AMF0_CMD,
            csid,
            timestamp,
            values: seq![name_value(command_name), Amf0View::Number(transaction_id), command_object]
                + additional_arguments,
        },
        MessageView::Amf0Data { command_name, values } => EncodedView::Amf {
            message_type: AMF0_DATA,
            csid,
            timestamp,
            values: seq![name_value(command_name)] + values,
        },
        MessageView::UserControl { event_type, event_data, extra_data } => EncodedView::Payload(
            PayloadView {
                message_type: USER_CONTROL,
                csid,
                timestamp,
                raw_data: if event_type == SET_BUFFER_LENGTH {
                    u16_be_bytes(event_type) + u32_be_bytes(event_data) + u32_be_bytes(extra_data)
                } else {
                    u16_be_bytes(event_type) + u32_be_bytes(event_data)
                },
            },
        ),
        MessageView::SetWindowAckSize { ack_window_size } => EncodedView::Payload(
            PayloadView {
                message_type: WIN_ACK_SIZE,
                csid,
                timestamp,
                raw_data: u32_be_bytes(ack_window_size),
            },
        ),
        MessageView::Acknowledgement { sequence_number } => EncodedView::Payload(
            PayloadView {
                message_type: ACK,
                csid,
                timestamp,
                raw_data: u32_be_bytes(sequence_number),
            },
        ),
        MessageView::SetChunkSize { chunk_size } => EncodedView::Payload(
            PayloadView {
                message_type: SET_CHUNK_SIZE,
                csid,
                timestamp,
                raw_data: u32_be_bytes(chunk_size),
            },
        ),
        MessageView::AudioData { stream_id, timestamp: own, payload } => EncodedView::Payload(
            PayloadView { message_type: AUDIO, csid: stream_id, timestamp: own, raw_data: payload },
        ),
        MessageView::VideoData { stream_id, timestamp: own, payload } => EncodedView::Payload(
            PayloadView { message_type: VIDEO, csid: stream_id, timestamp: own, raw_data: payload },
        ),
        MessageView::Abort { stream_id } => EncodedView::Payload(
            PayloadView {
                message_type: ABORT,
                csid,
                timestamp,
                raw_data: u32_be_bytes(stream_id),
            },
        ),
        MessageView::SetPeerBandwidth { size, limit_type } => EncodedView::Payload(
            PayloadView {
                message_type: SET_PEER_BW,
                csid,
                timestamp,
                raw_data: u32_be_bytes(size).push(limit_type),
            },
        ),
        MessageView::Unknown { type_id, data } => EncodedView::Payload(
            PayloadView { message_type: type_id, csid, timestamp, raw_data: data },
        ),
    }
}

/// The four bytes of `value`, big-endian, as a body.
fn fast_u32_encode(value: u32) -> (r: Bytes)
    ensures
        bytes_seq(&r) == u32_be_bytes(value),
{
    let mut out: Vec<u8> = Vec::new();
    write_u32_be(&mut out, value);
    assert(out@ =~= u32_be_bytes(value));
    Bytes::from(out)
}

/// The first value of an AMF0 body for a message of this name.
fn name_to_value(name: String) -> (r: Amf0Value)
    ensures
        r@ == name_value(name@),
{
    if name.as_str().unicode_len() == 0 {
        Amf0Value::Null
    } else {
        Amf0Value::Utf8String(name)
    }
}

/// Encodes a message for sending at `timestamp` on stream `csid`. Never fails.
pub fn encode(msg: RtmpMessage, timestamp: u32, csid: u32) -> (r: Result<
    Encoded,
    MessageEncodeError,
>)
    ensures
        r matches Ok(e) && e@ == encoded(msg@, timestamp, csid),
{
    match msg {
        RtmpMessage::Amf0Command {
            command_name,
            transaction_id,
            command_object,
            additional_arguments,
        } => {
            let ghost args = values_view(additional_arguments@);
            let ghost head = seq![
                name_value(command_name@),
                Amf0View::Number(transaction_id),
                command_object@,
            ];
            let mut additional_arguments = additional_arguments;
            let mut values: Vec<Amf0Value> = Vec::new();
            values.push(name_to_value(command_name));
            values.push(Amf0Value::Number(transaction_id));
            values.push(command_object);
            values.append(&mut additional_arguments);
            assert(values_view(values@) =~= head + args);
            Ok(Encoded::Amf { message_type: AMF0_CMD, csid, timestamp, values })
        },
        RtmpMessage::Amf0Data { command_name, values } => {
            let ghost tail = values_view(values@);
            let ghost head = seq![name_value(command_name@)];
            let mut values = values;
            let mut array: Vec<Amf0Value> = Vec::new();
            array.push(name_to_value(command_name));
            array.append(&mut values);
            assert(values_view(array@) =~= head + tail);
            Ok(Encoded::Amf { message_type: AMF0_DATA, csid, timestamp, values: array })
        },
        RtmpMessage::UserControl { event_type, event_data, extra_data } => {
            let mut out: Vec<u8> = Vec::new();
            write_u16_be(&mut out, event_type);
            write_u32_be(&mut out, event_data);
            if event_type == SET_BUFFER_LENGTH {
                write_u32_be(&mut out, extra_data);
                assert(out@ =~= u16_be_bytes(event_type) + u32_be_bytes(event_data)
                    + u32_be_bytes(extra_data));
            } else {
                assert(out@ =~= u16_be_bytes(event_type) + u32_be_bytes(event_data));
            }
            Ok(
                Encoded::Payload(
                    RtmpPayload {
                        message_type: USER_CONTROL,
                        csid,
                        timestamp,
                        raw_data: Bytes::from(out),
                    },
                ),
            )
        },
        RtmpMessage::SetWindowAckSize { ack_window_size } => Ok(
            Encoded::Payload(
                RtmpPayload {
                    message_type: WIN_ACK_SIZE,
                    csid,
                    timestamp,
                    raw_data: fast_u32_encode(ack_window_size),
                },
            ),
        ),
        RtmpMessage::Acknowledgement { sequence_number } => Ok(
            Encoded::Payload(
                RtmpPayload {
                    message_type: ACK,
                    csid,
                    timestamp,
                    raw_data: fast_u32_encode(sequence_number),
                },
            ),
        ),
        RtmpMessage::SetChunkSize { chunk_size } => Ok(
            Encoded::Payload(
                RtmpPayload {
                    message_type: SET_CHUNK_SIZE,
                    csid,
                    timestamp,
                    raw_data: fast_u32_encode(chunk_size),
                },
            ),
        ),
        RtmpMessage::AudioData { payload, stream_id, timestamp } => Ok(
            Encoded::Payload(
                RtmpPayload { message_type: AUDIO, csid: stream_id, timestamp, raw_data: payload },
            ),
        ),
        RtmpMessage::VideoData { payload, stream_id, timestamp } => Ok(
            Encoded::Payload(
                RtmpPayload { message_type: VIDEO, csid: stream_id, timestamp, raw_data: payload },
            ),
        ),
        RtmpMessage::Abort { stream_id } => Ok(
            Encoded::Payload(
                RtmpPayload {
                    message_type: ABORT,
                    csid,
                    timestamp,
                    raw_data: fast_u32_encode(stream_id),
                },
            ),
        ),
        RtmpMessage::SetPeerBandwidth { size, limit_type } => {
            let mut out: Vec<u8> = Vec::new();
            write_u32_be(&mut out, size);
            out.push(limit_type);
            assert(out@ =~= u32_be_bytes(size).push(limit_type));
            Ok(
                Encoded::Payload(
                    RtmpPayload {
                        message_type: SET_PEER_BW,
                        csid,
                        timestamp,
                        raw_data: Bytes::from(out),
                    },
                ),
            )
        },
        RtmpMessage::Unknown { type_id, data } => Ok(
            Encoded::Payload(RtmpPayload { message_type: type_id, csid, timestamp, raw_data: data }),
        ),
    }
}

/// The messages that a round trip through the codec gives back unchanged.
///
/// Left out are: a user control event other than `SetBufferLength` with an
/// extra number, which is not sent; an `Unknown` under a type id that has a
/// decoding of its own; an AMF0 message without a name, whose name is sent as
/// `Null`; and a data message named `@setDataFrame`, which is read as a
/// wrapper round the next name.
pub open spec fn round_trips(m: MessageView) -> bool {
    match m {
        MessageView::UserControl { event_type, extra_data, .. } => event_type == SET_BUFFER_LENGTH
            || extra_data == 0,
        MessageView::Unknown { type_id, .. } => !(type_id == SET_CHUNK_SIZE || type_id == ABORT
            || type_id == ACK || type_id == USER_CONTROL || type_id == WIN_ACK_SIZE || type_id
            == SET_PEER_BW || type_id == AUDIO || type_id == VIDEO || type_id == AMF0_DATA
            || type_id == AMF0_CMD || type_id == AMF3_DATA || type_id == AMF3_CMD),
        MessageView::Amf0Command { command_name, .. } => command_name.len() > 0,
        MessageView::Amf0Data { command_name, .. } => command_name.len() > 0 && command_name
            != DATA_SET_DATAFRAME@,
        _ => true,
    }
}

/// Decoding what was encoded gives the message back, with the timestamp and
/// the stream id it was sent with (for audio and video: its own).
///
/// For an AMF0 message this is stated of the list of values on both sides of
/// the serializer: the payload type decodes to the same kind of body, and the
/// values encoded make the message.
pub proof fn lemma_decode_inverts_encode(m: MessageView, timestamp: u32, csid: u32)
    requires
        round_trips(m),
    ensures
        match encoded(m, timestamp, csid) {
            EncodedView::Payload(p) => {
                &&& decoded(p) == Some(DecodedView::Message(m))
                &&& m.timestamp() is None ==> p.timestamp == timestamp && p.csid == csid
                &&& m.timestamp() is Some ==> m.timestamp() == Some(p.timestamp)
            },
            EncodedView::Amf { message_type, csid: c, timestamp: t, values } => {
                &&& c == csid
                &&& t == timestamp
                &&& message_type == AMF0_CMD || message_type == AMF0_DATA
                &&& decoded_amf(
                    if message_type == AMF0_CMD {
                        AmfKind::Command
                    } else {
                        AmfKind::Data
                    },
                    values,
                ) == Ok::<MessageView, Seq<char>>(m)
                &&& forall|body: Seq<u8>|
                    #![auto]
                    decoded(PayloadView { message_type, csid, timestamp, raw_data: body }) == Some(
                        DecodedView::Amf {
                            kind: if message_type == AMF0_CMD {
                                AmfKind::Command
                            } else {
                                AmfKind::Data
                            },
                            body,
                        },
                    )
            },
        },
{
    match m {
        MessageView::UserControl { event_type, event_data, extra_data } => {
            lemma_user_control_round_trip(event_type, event_data, extra_data, timestamp, csid);
        },
        MessageView::Amf0Command { additional_arguments, .. } => {
            let v = encoded(m, timestamp, csid)->Amf_values;
            assert(v.subrange(3, v.len() as int) =~= additional_arguments);
        },
        MessageView::Amf0Data { values, .. } => {
            let v = encoded(m, timestamp, csid)->Amf_values;
            assert(v.subrange(1, v.len() as int) =~= values);
        },
        MessageView::SetWindowAckSize { ack_window_size } => {
            lemma_number_body(ack_window_size);
        },
        MessageView::Acknowledgement { sequence_number } => {
            lemma_number_body(sequence_number);
        },
        MessageView::SetChunkSize { chunk_size } => {
            lemma_number_body(chunk_size);
        },
        MessageView::Abort { stream_id } => {
            lemma_number_body(stream_id);
        },
        MessageView::SetPeerBandwidth { size, limit_type } => {
            lemma_be_u32_of_bytes(size, seq![limit_type]);
            assert(u32_be_bytes(size).push(limit_type) =~= u32_be_bytes(size) + seq![limit_type]);
        },
        _ => {},
    }
}

proof fn lemma_number_body(n: u32)
    ensures
        u32_be_bytes(n).len() == 4,
        be_u32(u32_be_bytes(n)) == n,
{
    lemma_be_u32_of_bytes(n, Seq::empty());
    assert(u32_be_bytes(n) + Seq::<u8>::empty() =~= u32_be_bytes(n));
}

proof fn lemma_user_control_round_trip(
    event_type: u16,
    event_data: u32,
    extra_data: u32,
    timestamp: u32,
    csid: u32,
)
    requires
        event_type == SET_BUFFER_LENGTH || extra_data == 0,
    ensures
        ({
            let m = MessageView::UserControl { event_type, event_data, extra_data };
            let p = encoded(m, timestamp, csid)->Payload_0;
            decoded(p) == Some(DecodedView::Message(m))
        }),
{
    let m = MessageView::UserControl { event_type, event_data, extra_data };
    let d = encoded(m, timestamp, csid)->Payload_0.raw_data;
    lemma_number_body(event_data);
    lemma_number_body(extra_data);
    assert(d.subrange(2, 6) =~= u32_be_bytes(event_data));
    if event_type == SET_BUFFER_LENGTH {
        assert(d.subrange(6, 10) =~= u32_be_bytes(extra_data));
        lemma_be_u16_of_bytes(event_type, u32_be_bytes(event_data) + u32_be_bytes(extra_data));
        assert(d =~= u16_be_bytes(event_type) + (u32_be_bytes(event_data) + u32_be_bytes(
            extra_data,
        )));
    } else {
        lemma_be_u16_of_bytes(event_type, u32_be_bytes(event_data));
    }
}

} // verus!
