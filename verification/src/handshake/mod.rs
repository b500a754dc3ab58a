//! The RTMP handshake: the complex one is tried first and sends on to the
//! simple one.

use crate::chunk::transport::Transport;
use crate::handshake::context::{Context, ContextView};
use crate::handshake::error::HandshakeError;
use crate::handshake::simple_hs::sized;
use vstd::prelude::*;

pub mod complex_hs;
pub mod context;
pub mod error;
pub mod hs_server;
pub mod simple_hs;

verus! {

/// What a step of a handshake asks for.
#[derive(Debug)]
pub enum HandshakeStep {
    /// Nothing to do until more bytes have arrived.
    Pending,
    /// These bytes are to be sent; the handshake goes on.
    Send(Vec<u8>),
    /// These bytes are to be sent, and the handshake is done.
    Finish(Vec<u8>),
    /// The handshake is done.
    Done,
}

/// The server's side of the handshake.
pub struct Server {
    simple: simple_hs::SimpleHandshake,
    complex: complex_hs::ComplexHandshake,
    ctx: Context,
}

impl View for Server {
    type V = ContextView;

    closed spec fn view(&self) -> ContextView {
        self.ctx@
    }
}

impl Server {
    pub closed spec fn wf(&self) -> bool {
        sized(self.ctx@)
    }

    pub fn new() -> (r: Self)
        ensures
            r.wf(),
            r@ == (ContextView { c0c1: Seq::empty(), s0s1s2: Seq::empty(), c2: Seq::empty() }),
    {
        Server {
            simple: simple_hs::SimpleHandshake {  },
            complex: complex_hs::ComplexHandshake {  },
            ctx: Context::new(),
        }
    }

    /// A step of the handshake: the simple handshake's, since the complex
    /// one sends on to it. Fails as the simple handshake does.
    pub fn handshake(&mut self, io: &mut Transport) -> (r: Result<HandshakeStep, HandshakeError>)
        requires
            old(self).wf(),
            old(io).wf(),
        ensures
            final(self).wf(),
            final(io).wf(),
            crate::handshake::simple_hs::with_client(
                old(self)@,
                old(io)@,
                r,
                final(self)@,
                final(io)@,
            ),
    {
        match self.complex.handshake_with_client(&mut self.ctx, io) {
            Ok(step) => Ok(step),
            Err(err) => {
                if let HandshakeError::TrySimpleHandshake = err {
                    self.simple.handshake_with_client(&mut self.ctx, io)
                } else {
                    Err(err)
                }
            },
        }
    }
}

/// The client's side of the handshake.
pub struct Client {
    simple: simple_hs::SimpleHandshake,
    ctx: Context,
}

impl View for Client {
    type V = ContextView;

    closed spec fn view(&self) -> ContextView {
        self.ctx@
    }
}

impl Client {
    pub closed spec fn wf(&self) -> bool {
        sized(self.ctx@)
    }

    pub fn new() -> (r: Self)
        ensures
            r.wf(),
            r@ == (ContextView { c0c1: Seq::empty(), s0s1s2: Seq::empty(), c2: Seq::empty() }),
    {
        Client { simple: simple_hs::SimpleHandshake {  }, ctx: Context::new() }
    }

    /// A step of the simple handshake. Fails as it does.
    pub fn handshake(&mut self, io: &mut Transport) -> (r: Result<HandshakeStep, HandshakeError>)
        requires
            old(self).wf(),
            old(io).wf(),
        ensures
            final(self).wf(),
            final(io).wf(),
            crate::handshake::simple_hs::with_server(
                old(self)@,
                old(io)@,
                r,
                final(self)@,
                final(io)@,
            ),
    {
        self.simple.handshake_with_server(&mut self.ctx, io)
    }
}

} // verus!
