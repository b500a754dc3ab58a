//! Errors of the chunk layer.

use crate::chunk::transport::TransportError;
use crate::message::error::{MessageDecodeError, MessageEncodeError};
use vstd::prelude::*;

verus! {

#[derive(Debug)]
pub enum ChunkError {
    /// The first chunk ever on a chunk stream has format 2 or 3.
    InvalidFmtRule1(u8, u32),
    /// A chunk of format 0 arrived while a message was partly assembled.
    InvalidFmtRule2(u8, u32),
    /// A partly assembled message was declared again with another length.
    InvalidMsgLengthRule1(usize, usize),
    /// A continuation chunk repeats another extended timestamp than the
    /// message began with.
    InvalidExTimestamp,
    DecodeMessageFailed(MessageDecodeError),
    EncodeMessageFailed(MessageEncodeError),
    TransportIO(TransportError),
    /// The chunk stream id is 64 or more.
    LargeCsid(u32),
}

} // verus!
