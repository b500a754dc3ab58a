//! Classification of audio and video payloads by their first two bytes.
//!
//! Payloads are opaque to the relay except for this prefix, which tells an
//! H.264 or AAC sequence header and an H.264 keyframe from other frames.

use crate::buf::bytes_seq;
use bytes::Bytes;
use vstd::prelude::*;

verus! {

/// `data` starts with `0x17 0x00`: an H.264 sequence header.
pub open spec fn video_sequence_header(data: Seq<u8>) -> bool {
    data.len() >= 2 && data[0] == 0x17 && data[1] == 0x00
}

/// `data` starts with `0xAF 0x00`: an AAC sequence header.
pub open spec fn audio_sequence_header(data: Seq<u8>) -> bool {
    data.len() >= 2 && data[0] == 0xaf && data[1] == 0x00
}

/// `data` starts with `0x17` and a second byte other than `0x00`: an H.264
/// keyframe that is no sequence header.
pub open spec fn video_keyframe(data: Seq<u8>) -> bool {
    data.len() >= 2 && data[0] == 0x17 && data[1] != 0x00
}

pub fn is_video_sequence_header(data: &Bytes) -> (r: bool)
    ensures
        r == video_sequence_header(bytes_seq(data)),
{
    let s: &[u8] = data.as_ref();
    s.len() >= 2 && s[0] == 0x17 && s[1] == 0x00
}

pub fn is_audio_sequence_header(data: &Bytes) -> (r: bool)
    ensures
        r == audio_sequence_header(bytes_seq(data)),
{
    let s: &[u8] = data.as_ref();
    s.len() >= 2 && s[0] == 0xaf && s[1] == 0x00
}

pub fn is_video_keyframe(data: &Bytes) -> (r: bool)
    ensures
        r == video_keyframe(bytes_seq(data)),
{
    let s: &[u8] = data.as_ref();
    s.len() >= 2 && s[0] == 0x17 && s[1] != 0x00
}

} // verus!
