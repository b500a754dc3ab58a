//! The packets of a handshake, as far as they were read or made.
//!
//! C0 and S0 are the version byte. C1, S1, S2 and C2 are 1536 bytes each: a
//! timestamp, four zero bytes, and 1528 random bytes; S2 echoes C1 and C2
//! echoes S1.

use crate::buf::{bytes_mut_len, bytes_mut_seq};
use crate::chunk::transport::{Transport, TransportError, TransportView};
use crate::endian::{u32_be_bytes, write_u32_be};
use crate::handshake::error::HandshakeError;
use crate::utils::{current_time, random_byte};
use bytes::BytesMut;
use vstd::prelude::*;
use vstd::slice::slice_subrange;

verus! {

/// The version of RTMP that is spoken.
pub const RTMP_VERSION: u8 = 3;

/// Length of C1, S1, S2 and C2.
pub const RTMP_HANDSHAKE_SIZE: usize = 1536;

/// Length of the random part of a packet.
pub const RANDOM_SIZE: usize = 1528;

pub struct Context {
    /// C0 and C1: 1 + 1536 bytes.
    pub c0c1: BytesMut,
    /// S0, S1 and S2: 1 + 1536 + 1536 bytes.
    pub s0s1s2: BytesMut,
    /// C2: 1536 bytes.
    pub c2: BytesMut,
}

/// What a [`Context`] stands for.
pub struct ContextView {
    pub c0c1: Seq<u8>,
    pub s0s1s2: Seq<u8>,
    pub c2: Seq<u8>,
}

impl View for Context {
    type V = ContextView;

    open spec fn view(&self) -> ContextView {
        ContextView {
            c0c1: bytes_mut_seq(&self.c0c1),
            s0s1s2: bytes_mut_seq(&self.s0s1s2),
            c2: bytes_mut_seq(&self.c2),
        }
    }
}

/// A packet made at `time` with the random part `random`.
pub open spec fn packet(time: u32, random: Seq<u8>) -> Seq<u8> {
    u32_be_bytes(time) + seq![0u8, 0u8, 0u8, 0u8] + random
}

/// C0 and C1 as the client makes them of `time` and `random`, unless it
/// holds them already.
pub open spec fn greeted(c: ContextView, time: u32, random: Seq<u8>) -> Seq<u8> {
    if c.c0c1.len() > 0 {
        c.c0c1
    } else {
        seq![RTMP_VERSION] + packet(time, random)
    }
}

/// S0, S1 and S2 as the server makes them of `time`, `random` and `other`,
/// unless it holds them already.
pub open spec fn served(c: ContextView, time: u32, random: Seq<u8>, other: Seq<u8>) -> Seq<u8> {
    if c.s0s1s2.len() > 0 {
        c.s0s1s2
    } else if c.c0c1.len() > 0 {
        seq![RTMP_VERSION] + packet(time, random) + c.c0c1.subrange(
            1,
            1 + RTMP_HANDSHAKE_SIZE as int,
        )
    } else {
        seq![RTMP_VERSION] + packet(time, random) + other
    }
}

/// C2 as the client makes it of `time` and `random`, unless it holds it
/// already.
pub open spec fn echoed(c: ContextView, time: u32, random: Seq<u8>) -> Seq<u8> {
    if c.c2.len() > 0 {
        c.c2
    } else if c.s0s1s2.len() > 0 {
        c.s0s1s2.subrange(1, 1 + RTMP_HANDSHAKE_SIZE as int)
    } else {
        packet(time, random)
    }
}

/// What is read into an empty buffer of a handshake: `size` bytes from the
/// transport, once that many have arrived.
pub open spec fn read_into(held: Seq<u8>, io: TransportView, size: nat) -> (Seq<u8>, TransportView) {
    if held.len() > 0 || io.unread().len() < size {
        (held, io)
    } else {
        (io.unread().subrange(0, size as int), io.advanced(size))
    }
}

/// Reads `size` bytes from the transport into `buf`, unless `buf` holds
/// something already. Returns whether `buf` holds something afterwards.
fn read_packet(buf: &mut BytesMut, io: &mut Transport, size: usize) -> (r: Result<
    bool,
    HandshakeError,
>)
    requires
        old(io).wf(),
        0 < size <= crate::chunk::transport::BUFFER_SIZE,
    ensures
        final(io).wf(),
        r matches Ok(held),
        (bytes_mut_seq(final(buf)), final(io)@) == read_into(
            bytes_mut_seq(old(buf)),
            old(io)@,
            size as nat,
        ),
        r->Ok_0 == (bytes_mut_seq(final(buf)).len() > 0),
{
    if bytes_mut_len(buf) > 0 {
        return Ok(true);
    }
    match io.read_exact(size) {
        Ok(Some(bytes)) => {
            buf.extend_from_slice(bytes);
            assert(bytes_mut_seq(buf) =~= old(io)@.unread().subrange(0, size as int));
            Ok(true)
        },
        Ok(None) => Ok(false),
        Err(_) => Ok(false),
    }
}

/// `count` bytes from the random number generator.
fn random_part(count: usize) -> (out: Vec<u8>)
    ensures
        out@.len() == count,
{
    let mut out: Vec<u8> = Vec::new();
    let mut i: usize = 0;
    while i < count
        invariant
            i <= count,
            out@.len() == i,
        decreases count - i,
    {
        out.push(random_byte());
        i += 1;
    }
    out
}

/// Appends the packet made at `time` with the random part `random`.
pub fn write_packet(out: &mut Vec<u8>, time: u32, random: &[u8])
    ensures
        final(out)@ == old(out)@ + packet(time, random@),
{
    write_u32_be(out, time);
    out.push(0);
    out.push(0);
    out.push(0);
    out.push(0);
    crate::chunk::append_bytes(out, random);
    assert(out@ =~= old(out)@ + packet(time, random@));
}

impl Context {
    pub fn new() -> (r: Self)
        ensures
            r@ == (ContextView { c0c1: Seq::empty(), s0s1s2: Seq::empty(), c2: Seq::empty() }),
    {
        Context { c0c1: BytesMut::new(), s0s1s2: BytesMut::new(), c2: BytesMut::new() }
    }

    /// Reads C0 and C1, once both have arrived, unless they are held already.
    /// Returns whether they are held afterwards.
    pub fn read_c0c1(&mut self, io: &mut Transport) -> (r: Result<bool, HandshakeError>)
        requires
            old(io).wf(),
        ensures
            final(io).wf(),
            r matches Ok(held) && held == (final(self)@.c0c1.len() > 0),
            (final(self)@.c0c1, final(io)@) == read_into(
                old(self)@.c0c1,
                old(io)@,
                (RTMP_HANDSHAKE_SIZE + 1) as nat,
            ),
            final(self)@.s0s1s2 == old(self)@.s0s1s2,
            final(self)@.c2 == old(self)@.c2,
    {
        read_packet(&mut self.c0c1, io, RTMP_HANDSHAKE_SIZE + 1)
    }

    /// Reads S0, S1 and S2, once all have arrived, unless they are held
    /// already. Returns whether they are held afterwards.
    pub fn read_s0s1s2(&mut self, io: &mut Transport) -> (r: Result<bool, HandshakeError>)
        requires
            old(io).wf(),
        ensures
            final(io).wf(),
            r matches Ok(held) && held == (final(self)@.s0s1s2.len() > 0),
            (final(self)@.s0s1s2, final(io)@) == read_into(
                old(self)@.s0s1s2,
                old(io)@,
                (1 + RTMP_HANDSHAKE_SIZE * 2) as nat,
            ),
            final(self)@.c0c1 == old(self)@.c0c1,
            final(self)@.c2 == old(self)@.c2,
    {
        read_packet(&mut self.s0s1s2, io, 1 + RTMP_HANDSHAKE_SIZE * 2)
    }

    /// Reads C2, once it has arrived, unless it is held already. Returns
    /// whether it is held afterwards.
    pub fn read_c2(&mut self, io: &mut Transport) -> (r: Result<bool, HandshakeError>)
        requires
            old(io).wf(),
        ensures
            final(io).wf(),
            r matches Ok(held) && held == (final(self)@.c2.len() > 0),
            (final(self)@.c2, final(io)@) == read_into(
                old(self)@.c2,
                old(io)@,
                RTMP_HANDSHAKE_SIZE as nat,
            ),
            final(self)@.c0c1 == old(self)@.c0c1,
            final(self)@.s0s1s2 == old(self)@.s0s1s2,
    {
        read_packet(&mut self.c2, io, RTMP_HANDSHAKE_SIZE)
    }

    /// Makes C0 and C1 of `time` and `random`, unless they are held already:
    /// the version, and the packet.
    pub fn set_c0c1(&mut self, time: u32, random: &[u8])
        ensures
            final(self)@ == (ContextView { c0c1: greeted(old(self)@, time, random@), ..old(self)@ }),
    {
        if bytes_mut_len(&self.c0c1) == 0 {
            let mut out: Vec<u8> = Vec::new();
            out.push(RTMP_VERSION);
            write_packet(&mut out, time, random);
            self.c0c1.extend_from_slice(out.as_slice());
            assert(self@.c0c1 =~= seq![RTMP_VERSION] + packet(time, random@));
        }
    }

    /// Makes C0 and C1, unless they are held already: the version, and a
    /// packet of the time as it is now and of 1528 random bytes.
    pub fn create_c0c1(&mut self) -> (r: Result<(), HandshakeError>)
        ensures
            r is Ok,
            exists|time: u32, random: Seq<u8>|
                random.len() == RANDOM_SIZE && final(self)@ == (ContextView {
                    c0c1: #[trigger] greeted(old(self)@, time, random),
                    ..old(self)@
                }),
    {
        let time = current_time();
        let random = random_part(RANDOM_SIZE);
        self.set_c0c1(time, random.as_slice());
        assert(self@.c0c1 == greeted(old(self)@, time, random@));
        Ok(())
    }

    /// Makes S0, S1 and S2 of `time`, `random` and `other`, unless they are
    /// held already: the version, the packet, and C1 as it was read, or
    /// `other` where C1 was not read.
    pub fn set_s0s1s2(&mut self, time: u32, random: &[u8], other: &[u8])
        requires
            old(self)@.c0c1.len() == 0 || old(self)@.c0c1.len() == 1 + RTMP_HANDSHAKE_SIZE,
        ensures
            final(self)@ == (ContextView {
                s0s1s2: served(old(self)@, time, random@, other@),
                ..old(self)@
            }),
    {
        if bytes_mut_len(&self.s0s1s2) == 0 {
            let mut out: Vec<u8> = Vec::new();
            out.push(RTMP_VERSION);
            write_packet(&mut out, time, random);
            if bytes_mut_len(&self.c0c1) == 0 {
                crate::chunk::append_bytes(&mut out, other);
            } else {
                let c0c1: &[u8] = self.c0c1.as_ref();
                crate::chunk::append_bytes(
                    &mut out,
                    slice_subrange(c0c1, 1, RTMP_HANDSHAKE_SIZE + 1),
                );
            }
            self.s0s1s2.extend_from_slice(out.as_slice());
            assert(self@.s0s1s2 =~= served(old(self)@, time, random@, other@));
        }
    }

    /// Makes S0, S1 and S2, unless they are held already: the version, a
    /// packet of the time as it is now and of 1528 random bytes, and C1 as it
    /// was read. Without C1, S2 is 1536 random bytes.
    pub fn create_s0s1s2(&mut self) -> (r: Result<(), HandshakeError>)
        requires
            old(self)@.c0c1.len() == 0 || old(self)@.c0c1.len() == 1 + RTMP_HANDSHAKE_SIZE,
        ensures
            r is Ok,
            exists|time: u32, random: Seq<u8>, other: Seq<u8>|
                random.len() == RANDOM_SIZE && other.len() == RTMP_HANDSHAKE_SIZE && final(self)@
                    == (ContextView {
                    s0s1s2: #[trigger] served(old(self)@, time, random, other),
                    ..old(self)@
                }),
    {
        let time = current_time();
        let random = random_part(RANDOM_SIZE);
        let other = random_part(RTMP_HANDSHAKE_SIZE);
        self.set_s0s1s2(time, random.as_slice(), other.as_slice());
        assert(self@.s0s1s2 == served(old(self)@, time, random@, other@));
        Ok(())
    }

    /// Makes C2 of `time` and `random`, unless it is held already: S1 as it
    /// was read, or the packet where S1 was not read.
    pub fn set_c2(&mut self, time: u32, random: &[u8])
        requires
            old(self)@.s0s1s2.len() == 0 || old(self)@.s0s1s2.len() == 1 + RTMP_HANDSHAKE_SIZE
                * 2,
        ensures
            final(self)@ == (ContextView { c2: echoed(old(self)@, time, random@), ..old(self)@ }),
    {
        if bytes_mut_len(&self.c2) == 0 {
            if bytes_mut_len(&self.s0s1s2) == 0 {
                let mut out: Vec<u8> = Vec::new();
                write_packet(&mut out, time, random);
                self.c2.extend_from_slice(out.as_slice());
                assert(self@.c2 =~= packet(time, random@));
            } else {
                let s0s1s2: &[u8] = self.s0s1s2.as_ref();
                let s1 = slice_subrange(s0s1s2, 1, RTMP_HANDSHAKE_SIZE + 1);
                self.c2.extend_from_slice(s1);
                assert(self@.c2 =~= s1@);
            }
        }
    }

    /// Makes C2, unless it is held already: S1 as it was read, or, without
    /// S1, a packet of the time as it is now and of 1528 random bytes.
    pub fn create_c2(&mut self) -> (r: Result<(), HandshakeError>)
        requires
            old(self)@.s0s1s2.len() == 0 || old(self)@.s0s1s2.len() == 1 + RTMP_HANDSHAKE_SIZE
                * 2,
        ensures
            r is Ok,
            exists|time: u32, random: Seq<u8>|
                random.len() == RANDOM_SIZE && final(self)@ == (ContextView {
                    c2: #[trigger] echoed(old(self)@, time, random),
                    ..old(self)@
                }),
    {
        let time = current_time();
        let random = random_part(RANDOM_SIZE);
        self.set_c2(time, random.as_slice());
        assert(self@.c2 == echoed(old(self)@, time, random@));
        Ok(())
    }
}

} // verus!
