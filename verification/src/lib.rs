//! Core of an RTMP live-media relay: the wire codecs, the per-connection
//! state machines, and the broker and hub that fan a published stream out to
//! its subscribers.

use vstd::prelude::*;

pub mod amf;
pub mod buf;
pub mod chunk;
pub mod codec;
pub mod config;
pub mod connection;
pub mod endian;
pub mod error;
pub mod handshake;
pub mod httpflv;
pub mod httpflv_service;
pub mod merge;
pub mod message;
pub mod rtmp_pull;
pub mod rtmp_service;
pub mod statistic;
pub mod stream;
pub mod task;
pub mod text;
pub mod utils;

verus! {

/// Sum of two sizes.
pub fn add(left: usize, right: usize) -> (sum: usize)
    requires
        left + right <= usize::MAX,
    ensures
        sum == left + right,
{
    left + right
}

} // verus!
