//! The complex handshake, which is not spoken: each side is sent on to the
//! simple one.

use crate::chunk::transport::Transport;
use crate::handshake::context::Context;
use crate::handshake::error::HandshakeError;
use crate::handshake::HandshakeStep;
use vstd::prelude::*;

verus! {

pub struct ComplexHandshake {}

impl ComplexHandshake {
    pub fn handshake_with_server(&self, ctx: &mut Context, io: &mut Transport) -> (r: Result<
        HandshakeStep,
        HandshakeError,
    >)
        ensures
            r == Err::<HandshakeStep, HandshakeError>(HandshakeError::TrySimpleHandshake),
            final(ctx)@ == old(ctx)@,
            *final(io) == *old(io),
    {
        Err(HandshakeError::TrySimpleHandshake)
    }

    pub fn handshake_with_client(&self, ctx: &mut Context, io: &mut Transport) -> (r: Result<
        HandshakeStep,
        HandshakeError,
    >)
        ensures
            r == Err::<HandshakeStep, HandshakeError>(HandshakeError::TrySimpleHandshake),
            final(ctx)@ == old(ctx)@,
            *final(io) == *old(io),
    {
        Err(HandshakeError::TrySimpleHandshake)
    }
}

} // verus!
