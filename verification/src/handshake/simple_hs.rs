//! The simple handshake, one step at a time.
//!
//! A step is taken whenever bytes have arrived or were sent. It reads what
//! it waits for, if that has arrived in full, and says what is to be sent.

use crate::buf::bytes_mut_len;
use crate::chunk::transport::{Transport, TransportView};
use crate::handshake::context::{
    greeted, packet, read_into, served, Context, ContextView, RANDOM_SIZE, RTMP_HANDSHAKE_SIZE,
    RTMP_VERSION,
};
use crate::handshake::error::HandshakeError;
use crate::handshake::HandshakeStep;
use vstd::prelude::*;
use vstd::slice::{slice_subrange, slice_to_vec};

verus! {

pub struct SimpleHandshake {}

/// The packets of a handshake have their lengths, as far as they are held.
pub open spec fn sized(c: ContextView) -> bool {
    &&& c.c0c1.len() == 0 || c.c0c1.len() == 1 + RTMP_HANDSHAKE_SIZE
    &&& c.s0s1s2.len() == 0 || c.s0s1s2.len() == 1 + RTMP_HANDSHAKE_SIZE * 2
    &&& c.c2.len() == 0 || c.c2.len() == RTMP_HANDSHAKE_SIZE
}

/// What a step of the client's side does: `r` is its answer, and the packets
/// and the transport go from `before` and `io` to `after_ctx` and `after_io`.
pub open spec fn with_server(
    before: ContextView,
    io: TransportView,
    r: Result<HandshakeStep, HandshakeError>,
    after_ctx: ContextView,
    after_io: TransportView,
) -> bool {
    &&& (before.c0c1.len() == 0 ==> {
        &&& r matches Ok(HandshakeStep::Send(bytes))
        &&& bytes@ == after_ctx.c0c1
        &&& bytes@.len() == 1 + RTMP_HANDSHAKE_SIZE
        &&& bytes@[0] == RTMP_VERSION
        &&& after_io == io
    })
    &&& (before.c0c1.len() > 0 && before.c2.len() > 0 && before.s0s1s2.len() > 0 ==> {
        &&& r matches Ok(HandshakeStep::Done)
        &&& after_ctx == before
        &&& after_io == io
    })
    &&& (before.c0c1.len() > 0 && !(before.c2.len() > 0 && before.s0s1s2.len() > 0)
        ==> {
        let (s0s1s2, read) = read_into(
            before.s0s1s2,
            io,
            (1 + RTMP_HANDSHAKE_SIZE * 2) as nat,
        );
        &&& after_io == read
        &&& after_ctx.s0s1s2 == s0s1s2
        &&& after_ctx.c0c1 == before.c0c1
        &&& if s0s1s2.len() == 0 {
            r matches Ok(HandshakeStep::Pending) && after_ctx.c2 == before.c2
        } else if s0s1s2[0] != RTMP_VERSION {
            r == Err::<HandshakeStep, HandshakeError>(
                HandshakeError::InvalidVersion(s0s1s2[0]),
            )
        } else {
            &&& r matches Ok(HandshakeStep::Finish(bytes))
            &&& bytes@ == s0s1s2.subrange(1, 1 + RTMP_HANDSHAKE_SIZE as int)
            &&& after_ctx.c2 == bytes@
        }
    })
}

/// What a step of the server's side does: `r` is its answer, and the packets
/// and the transport go from `before` and `io` to `after_ctx` and `after_io`.
pub open spec fn with_client(
    before: ContextView,
    io: TransportView,
    r: Result<HandshakeStep, HandshakeError>,
    after_ctx: ContextView,
    after_io: TransportView,
) -> bool {
    &&& (before.s0s1s2.len() == 0 ==> {
        let (c0c1, read) = read_into(
            before.c0c1,
            io,
            (1 + RTMP_HANDSHAKE_SIZE) as nat,
        );
        &&& after_io == read
        &&& after_ctx.c0c1 == c0c1
        &&& after_ctx.c2 == before.c2
        &&& if c0c1.len() == 0 {
            r matches Ok(HandshakeStep::Pending) && after_ctx.s0s1s2.len() == 0
        } else if c0c1[0] != RTMP_VERSION {
            r == Err::<HandshakeStep, HandshakeError>(
                HandshakeError::InvalidVersion(c0c1[0]),
            ) && after_ctx.s0s1s2.len() == 0
        } else {
            &&& r matches Ok(HandshakeStep::Send(bytes))
            &&& bytes@ == after_ctx.s0s1s2
            &&& bytes@.len() == 1 + RTMP_HANDSHAKE_SIZE * 2
            &&& bytes@[0] == RTMP_VERSION
            &&& bytes@.subrange(1 + RTMP_HANDSHAKE_SIZE as int, 1 + RTMP_HANDSHAKE_SIZE * 2)
                == c0c1.subrange(1, 1 + RTMP_HANDSHAKE_SIZE as int)
        }
    })
    &&& (before.s0s1s2.len() > 0 ==> {
        let (c2, read) = read_into(before.c2, io, RTMP_HANDSHAKE_SIZE as nat);
        &&& after_io == read
        &&& after_ctx.c2 == c2
        &&& after_ctx.c0c1 == before.c0c1
        &&& after_ctx.s0s1s2 == before.s0s1s2
        &&& if c2.len() == 0 {
            r matches Ok(HandshakeStep::Pending)
        } else {
            r matches Ok(HandshakeStep::Done)
        }
    })
}

impl SimpleHandshake {
    /// A step of the client's side: send C0 and C1; once S0, S1 and S2 have
    /// arrived, check the version and send S1 back as C2, which ends the
    /// handshake.
    ///
    /// Fails with `InvalidVersion`, and only so, where S0 is not 3.
    pub fn handshake_with_server(&self, ctx: &mut Context, io: &mut Transport) -> (r: Result<
        HandshakeStep,
        HandshakeError,
    >)
        requires
            old(io).wf(),
            sized(old(ctx)@),
        ensures
            final(io).wf(),
            sized(final(ctx)@),
            with_server(old(ctx)@, old(io)@, r, final(ctx)@, final(io)@),
    {
        if bytes_mut_len(&ctx.c0c1) == 0 {
            let ghost before = ctx@;
            let _ = ctx.create_c0c1();
            proof {
                let (time, random) = choose|time: u32, random: Seq<u8>|
                    random.len() == RANDOM_SIZE && ctx@ == (ContextView {
                        c0c1: #[trigger] greeted(before, time, random),
                        ..before
                    });
                assert(ctx@.c0c1 == seq![RTMP_VERSION] + packet(time, random));
                assert(ctx@.c0c1.len() == 1 + RTMP_HANDSHAKE_SIZE);
                assert(ctx@.c0c1[0] == RTMP_VERSION);
            }
            let c0c1: &[u8] = ctx.c0c1.as_ref();
            return Ok(HandshakeStep::Send(slice_to_vec(c0c1)));
        }
        if bytes_mut_len(&ctx.c2) > 0 && bytes_mut_len(&ctx.s0s1s2) > 0 {
            return Ok(HandshakeStep::Done);
        }
        proof {
            io.lemma_wf_view();
        }
        let held = match ctx.read_s0s1s2(io) {
            Ok(h) => h,
            Err(e) => {
                return Err(e);
            },
        };
        if !held {
            return Ok(HandshakeStep::Pending);
        }
        let s0s1s2: &[u8] = ctx.s0s1s2.as_ref();
        if s0s1s2[0] != RTMP_VERSION {
            return Err(HandshakeError::InvalidVersion(s0s1s2[0]));
        }
        let s1 = slice_to_vec(slice_subrange(s0s1s2, 1, RTMP_HANDSHAKE_SIZE + 1));
        ctx.c2.clear();
        ctx.c2.extend_from_slice(s1.as_slice());
        assert(ctx@.c2 =~= s1@);
        Ok(HandshakeStep::Finish(s1))
    }

    /// A step of the server's side: once C0 and C1 have arrived, check the
    /// version and send S0, S1 and S2; once C2 has arrived, the handshake is
    /// done.
    ///
    /// Fails with `InvalidVersion`, and only so, where C0 is not 3.
    pub fn handshake_with_client(&self, ctx: &mut Context, io: &mut Transport) -> (r: Result<
        HandshakeStep,
        HandshakeError,
    >)
        requires
            old(io).wf(),
            sized(old(ctx)@),
        ensures
            final(io).wf(),
            sized(final(ctx)@),
            with_client(old(ctx)@, old(io)@, r, final(ctx)@, final(io)@),
    {
        proof {
            io.lemma_wf_view();
        }
        if bytes_mut_len(&ctx.s0s1s2) == 0 {
            let held = match ctx.read_c0c1(io) {
                Ok(h) => h,
                Err(e) => {
                    return Err(e);
                },
            };
            if !held {
                return Ok(HandshakeStep::Pending);
            }
            let c0c1: &[u8] = ctx.c0c1.as_ref();
            if c0c1[0] != RTMP_VERSION {
                return Err(HandshakeError::InvalidVersion(c0c1[0]));
            }
            let ghost before = ctx@;
            let _ = ctx.create_s0s1s2();
            proof {
                let (time, random, other) = choose|time: u32, random: Seq<u8>, other: Seq<u8>|
                    random.len() == RANDOM_SIZE && other.len() == RTMP_HANDSHAKE_SIZE && ctx@
                        == (ContextView {
                        s0s1s2: #[trigger] served(before, time, random, other),
                        ..before
                    });
                let made = seq![RTMP_VERSION] + packet(time, random) + before.c0c1.subrange(
                    1,
                    1 + RTMP_HANDSHAKE_SIZE as int,
                );
                assert(ctx@.s0s1s2 == made);
                assert(made.len() == 1 + RTMP_HANDSHAKE_SIZE * 2);
                assert(made[0] == RTMP_VERSION);
                assert(made.subrange(1 + RTMP_HANDSHAKE_SIZE as int, 1 + RTMP_HANDSHAKE_SIZE * 2)
                    =~= before.c0c1.subrange(1, 1 + RTMP_HANDSHAKE_SIZE as int));
            }
            let s0s1s2: &[u8] = ctx.s0s1s2.as_ref();
            return Ok(HandshakeStep::Send(slice_to_vec(s0s1s2)));
        }
        let held = match ctx.read_c2(io) {
            Ok(h) => h,
            Err(e) => {
                return Err(e);
            },
        };
        if held {
            Ok(HandshakeStep::Done)
        } else {
            Ok(HandshakeStep::Pending)
        }
    }
}

} // verus!
