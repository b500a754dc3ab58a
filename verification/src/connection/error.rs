//! Errors of a connection.

use crate::chunk::error::ChunkError;
use crate::handshake::error::HandshakeError;
use crate::message::error::{MessageEncodeError, ReuquestError};
use vstd::prelude::*;

verus! {

#[derive(Debug)]
pub enum ConnectionError {
    ChunkIo(ChunkError),
    Handshake(HandshakeError),
    /// A message arrived in a state that expects none.
    UnexpectedMessage,
    /// `connect` came without an object, or without a `tcUrl` text in it.
    InvalidConnectApp,
    /// The `tcUrl` of `connect` is no URL.
    InvalidTcurl(ReuquestError),
    RtmpMessageEncode(MessageEncodeError),
    /// A chunk size outside of what may be set.
    InvalidChunkSize(usize),
    /// `play` came without a stream name, or with a duration that is no
    /// number.
    InvalidPlay,
    /// `publish` or `FCPublish` came without a stream name.
    InvalidPublish,
    /// `releaseStream` came without a stream name.
    ReleaseStreamWithoutStream,
    /// `createStream` was repeated more than three times.
    CreateStreamDepth,
}

} // verus!
