//! Errors of the handshake.

use crate::chunk::transport::TransportError;
use vstd::prelude::*;

verus! {

#[derive(Debug, PartialEq, Eq, Structural)]
pub enum HandshakeError {
    /// The peer speaks another version of RTMP than 3.
    InvalidVersion(u8),
    /// The complex handshake is not to be had; the simple one is to be tried.
    TrySimpleHandshake,
    TransportIO(TransportError),
}

} // verus!
