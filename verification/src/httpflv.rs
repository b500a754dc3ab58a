//! FLV tags for HTTP progressive playback: the stream that an RTMP subscriber
//! gets, wrapped into another container.

use crate::buf::bytes_seq;
use crate::chunk::append_bytes;
use crate::endian::{u24_be_bytes, u32_be_bytes, write_u24_be, write_u32_be};
use crate::message::error::MessageEncodeError;
use crate::message::types::msg_type::{AMF0_DATA, AUDIO, VIDEO};
use crate::connection::context::encoded_view;
use crate::message::{
    encode, encoded, messages_view, Encoded, EncodedView, MessageView, PayloadView, RtmpMessage,
    RtmpPayload,
};
use vstd::prelude::*;

verus! {

/// Tag type of audio.
pub const FRAME_TYPE_AUDIO: u8 = 8;

/// Tag type of video.
pub const FRAME_TYPE_VIDEO: u8 = 9;

/// Tag type of script data.
pub const FRAME_TYPE_SCRIPT: u8 = 18;

/// Length of a tag's header.
pub const FLV_TAG_HEADER_SIZE: usize = 11;

#[derive(Debug)]
pub enum FlvMuxerError {
    EncodeError(MessageEncodeError),
}

/// The file header: the signature `FLV`, version 1, audio and video present,
/// a header of nine bytes; and the length of the tag before the first, 0.
pub open spec fn flv_header() -> Seq<u8> {
    seq![0x46u8, 0x4cu8, 0x56u8, 0x01u8, 0x05u8, 0x00u8, 0x00u8, 0x00u8, 0x09u8] + u32_be_bytes(0)
}

/// A tag: its type, the length of its data, its timestamp with the high byte
/// last, a stream id of 0, the data, and the length of all that.
pub open spec fn tag(frame_type: u8, data: Seq<u8>, timestamp: u32) -> Seq<u8> {
    seq![frame_type] + u24_be_bytes(data.len() as u32) + u24_be_bytes(
        (timestamp % 0x100_0000) as u32,
    ) + seq![(timestamp / 0x100_0000) as u8] + u24_be_bytes(0) + data + u32_be_bytes(
        (FLV_TAG_HEADER_SIZE + data.len()) as u32,
    )
}

/// The tag that a payload makes: audio and video with their timestamp, a data
/// message as script data at 0; nothing for any other payload.
pub open spec fn tag_of(p: PayloadView) -> Seq<u8> {
    if p.message_type == AUDIO {
        tag(FRAME_TYPE_AUDIO, p.raw_data, p.timestamp)
    } else if p.message_type == VIDEO {
        tag(FRAME_TYPE_VIDEO, p.raw_data, p.timestamp)
    } else if p.message_type == AMF0_DATA {
        tag(FRAME_TYPE_SCRIPT, p.raw_data, 0)
    } else {
        Seq::<u8>::empty()
    }
}

/// The tags of the first `n` payloads, one after the other.
pub open spec fn tags_of(payloads: Seq<PayloadView>, n: nat) -> Seq<u8>
    decreases n,
{
    if n == 0 || n > payloads.len() {
        Seq::<u8>::empty()
    } else {
        tags_of(payloads, (n - 1) as nat) + tag_of(payloads[n - 1])
    }
}

/// Number of payloads of type `t` among the first `n`.
pub open spec fn count_of(payloads: Seq<PayloadView>, t: u8, n: nat) -> nat
    decreases n,
{
    if n == 0 || n > payloads.len() {
        0
    } else {
        count_of(payloads, t, (n - 1) as nat) + if payloads[n - 1].message_type == t {
            1nat
        } else {
            0nat
        }
    }
}

pub struct FlvTransmuxer {
    header_written: bool,
    send_bytes: u64,
    audio_count: u64,
    video_count: u64,
}

/// What an [`FlvTransmuxer`] stands for.
pub struct FlvView {
    pub header_written: bool,
    pub send_bytes: u64,
    pub audio_count: u64,
    pub video_count: u64,
}

impl View for FlvTransmuxer {
    type V = FlvView;

    closed spec fn view(&self) -> FlvView {
        FlvView {
            header_written: self.header_written,
            send_bytes: self.send_bytes,
            audio_count: self.audio_count,
            video_count: self.video_count,
        }
    }
}

/// Whether a message is wrapped into a tag: audio, video, and metadata.
pub open spec fn wanted(msg: MessageView) -> bool {
    msg is AudioData || msg is VideoData || msg.is_metadata()
}

/// What is wrapped of the first `n` messages: those that FLV has a tag for,
/// encoded, in order. Audio and video keep their time; metadata is of time
/// 0.
pub open spec fn wrapped(msgs: Seq<MessageView>, n: nat) -> Seq<EncodedView>
    decreases n,
{
    if n == 0 || n > msgs.len() {
        Seq::empty()
    } else if wanted(msgs[n - 1]) {
        wrapped(msgs, (n - 1) as nat).push(encoded(msgs[n - 1], 0, 0))
    } else {
        wrapped(msgs, (n - 1) as nat)
    }
}

/// `n`, or `u64::MAX` where `n` is larger.
pub open spec fn capped(n: int) -> u64 {
    if n > u64::MAX {
        u64::MAX
    } else {
        n as u64
    }
}

impl FlvTransmuxer {
    pub fn new() -> (r: Self)
        ensures
            r@ == (FlvView { header_written: false, send_bytes: 0, audio_count: 0, video_count: 0 }),
    {
        FlvTransmuxer { header_written: false, send_bytes: 0, audio_count: 0, video_count: 0 }
    }

    /// Whether a message is wrapped into a tag: audio, video, and metadata.
    pub fn wants(msg: &RtmpMessage) -> (r: bool)
        ensures
            r == wanted(msg@),
    {
        match msg {
            RtmpMessage::AudioData { .. } => true,
            RtmpMessage::VideoData { .. } => true,
            _ => msg.is_metadata(),
        }
    }

    /// Picks from a batch the messages that FLV has a tag for, and encodes
    /// them; the payloads are then for [`FlvTransmuxer::write_tags`], once the
    /// metadata among them is serialized.
    pub fn select(msgs: &[RtmpMessage]) -> (r: Vec<Encoded>)
        ensures
            encoded_view(r@) == wrapped(messages_view(msgs@), msgs@.len()),
    {
        let ghost views = messages_view(msgs@);
        let mut out: Vec<Encoded> = Vec::new();
        let mut i: usize = 0;
        assert(encoded_view(out@) =~= wrapped(views, 0));
        while i < msgs.len()
            invariant
                i <= msgs@.len(),
                views == messages_view(msgs@),
                encoded_view(out@) == wrapped(views, i as nat),
            decreases msgs@.len() - i,
        {
            assert(views[i as int] == msgs@[i as int]@);
            if Self::wants(&msgs[i]) {
                let ghost before = encoded_view(out@);
                match encode(msgs[i].clone(), 0, 0) {
                    Ok(e) => {
                        out.push(e);
                        assert(encoded_view(out@) =~= before.push(e@));
                    },
                    Err(_) => {
                        assert(false);
                    },
                }
            }
            i += 1;
        }
        out
    }

    /// Wraps the payloads into tags, behind the file header if that was not
    /// written yet, and counts what it wrapped. `total` is the number of
    /// bytes to make room for beforehand.
    ///
    /// Fails with `EncodeError(InvalidFormat)`, and changes nothing, where a
    /// payload has 2^24 bytes or more.
    pub fn write_tags(&mut self, msgs: &[RtmpPayload], total: usize) -> (r: Result<
        Vec<u8>,
        FlvMuxerError,
    >)
        ensures
            match r {
                Ok(bytes) => {
                    &&& crate::chunk::lengths_fit(crate::chunk::payloads_view(msgs@))
                    &&& bytes@ == (if old(self)@.header_written {
                        Seq::<u8>::empty()
                    } else {
                        flv_header()
                    }) + tags_of(crate::chunk::payloads_view(msgs@), msgs@.len())
                    &&& final(self)@ == (FlvView {
                        header_written: true,
                        send_bytes: capped(old(self)@.send_bytes + bytes@.len()),
                        audio_count: capped(
                            old(self)@.audio_count + count_of(
                                crate::chunk::payloads_view(msgs@),
                                AUDIO,
                                msgs@.len(),
                            ),
                        ),
                        video_count: capped(
                            old(self)@.video_count + count_of(
                                crate::chunk::payloads_view(msgs@),
                                VIDEO,
                                msgs@.len(),
                            ),
                        ),
                    })
                },
                Err(e) => {
                    &&& !crate::chunk::lengths_fit(crate::chunk::payloads_view(msgs@))
                    &&& e matches FlvMuxerError::EncodeError(MessageEncodeError::InvalidFormat)
                    &&& final(self)@ == old(self)@
                },
            },
    {
        let ghost views = crate::chunk::payloads_view(msgs@);
        let mut k: usize = 0;
        while k < msgs.len()
            invariant
                k <= msgs@.len(),
                views == crate::chunk::payloads_view(msgs@),
                *self == *old(self),
                forall|i: int|
                    0 <= i < k ==> (#[trigger] views[i]).raw_data.len()
                        < crate::chunk::MAX_PAYLOAD_LENGTH,
            decreases msgs@.len() - k,
        {
            if crate::buf::bytes_len(&msgs[k].raw_data) >= crate::chunk::MAX_PAYLOAD_LENGTH {
                assert(views[k as int].raw_data.len() >= crate::chunk::MAX_PAYLOAD_LENGTH);
                return Err(FlvMuxerError::EncodeError(MessageEncodeError::InvalidFormat));
            }
            k += 1;
        }
        let mut cache: Vec<u8> = Vec::with_capacity(total);
        if !self.header_written {
            cache.push(0x46);
            cache.push(0x4c);
            cache.push(0x56);
            cache.push(0x01);
            cache.push(0x05);
            cache.push(0x00);
            cache.push(0x00);
            cache.push(0x00);
            cache.push(0x09);
            write_u32_be(&mut cache, 0);
            assert(cache@ =~= flv_header());
            self.header_written = true;
        }
        let ghost head = cache@;
        let mut i: usize = 0;
        while i < msgs.len()
            invariant
                i <= msgs@.len(),
                views == crate::chunk::payloads_view(msgs@),
                crate::chunk::lengths_fit(views),
                cache@ == head + tags_of(views, i as nat),
                self.header_written,
                self.send_bytes == old(self).send_bytes,
                self.audio_count == capped(old(self).audio_count + count_of(views, AUDIO, i as nat)),
                self.video_count == capped(old(self).video_count + count_of(views, VIDEO, i as nat)),
            decreases msgs@.len() - i,
        {
            let msg = &msgs[i];
            let ghost before = cache@;
            assert(views[i as int] == msg@);
            if msg.message_type == AUDIO {
                Self::write_tag(&mut cache, FRAME_TYPE_AUDIO, &msg.raw_data, msg.timestamp);
                self.audio_count = self.audio_count.saturating_add(1);
            } else if msg.message_type == VIDEO {
                Self::write_tag(&mut cache, FRAME_TYPE_VIDEO, &msg.raw_data, msg.timestamp);
                self.video_count = self.video_count.saturating_add(1);
            } else if msg.message_type == AMF0_DATA {
                Self::write_tag(&mut cache, FRAME_TYPE_SCRIPT, &msg.raw_data, 0);
            }
            assert(cache@ =~= head + (tags_of(views, i as nat) + tag_of(msg@)));
            i += 1;
        }
        self.send_bytes = self.send_bytes.saturating_add(cache.len() as u64);
        Ok(cache)
    }

    /// Appends a tag to `cache`.
    fn write_tag(cache: &mut Vec<u8>, frame_type: u8, data: &bytes::Bytes, timestamp: u32)
        requires
            bytes_seq(data).len() < crate::chunk::MAX_PAYLOAD_LENGTH,
        ensures
            final(cache)@ == old(cache)@ + tag(frame_type, bytes_seq(data), timestamp),
    {
        let raw: &[u8] = data.as_ref();
        cache.push(frame_type);
        write_u24_be(cache, raw.len() as u32);
        write_u24_be(cache, timestamp % 0x100_0000);
        cache.push((timestamp / 0x100_0000) as u8);
        write_u24_be(cache, 0);
        append_bytes(cache, raw);
        write_u32_be(cache, (FLV_TAG_HEADER_SIZE + raw.len()) as u32);
        assert(cache@ =~= old(cache)@ + tag(frame_type, bytes_seq(data), timestamp));
    }

    pub fn get_send_bytes(&mut self) -> (n: u64)
        ensures
            n == old(self)@.send_bytes,
            final(self)@ == old(self)@,
    {
        self.send_bytes
    }

    pub fn get_audio_count(&mut self) -> (n: u64)
        ensures
            n == old(self)@.audio_count,
            final(self)@ == old(self)@,
    {
        self.audio_count
    }

    pub fn get_video_count(&mut self) -> (n: u64)
        ensures
            n == old(self)@.video_count,
            final(self)@ == old(self)@,
    {
        self.video_count
    }
}

} // verus!
