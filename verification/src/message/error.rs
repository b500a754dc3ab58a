//! Errors of the message codec.

use vstd::prelude::*;

verus! {

/// Why a message body could not be decoded.
#[derive(Debug)]
pub enum MessageDecodeError {
    /// The named field of an AMF message is missing or has the wrong type.
    InvalidFormat(String),
    /// The body is no sequence of AMF0 values.
    AmfDecodeFailed,
    /// The body ended before a field was complete.
    Io,
}

/// Why a message could not be encoded.
#[derive(Debug)]
pub enum MessageEncodeError {
    /// The message has no body in the expected format.
    InvalidFormat,
    /// The AMF0 values could not be serialized.
    AmfEncodeFailed,
    /// The body could not be written.
    Io,
}

/// Why a request could not be made from a URL.
#[derive(Debug)]
pub enum ReuquestError {
    /// The text is no URL.
    ParseUrl,
}

} // verus!
