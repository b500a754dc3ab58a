//! The read side of a connection's transport: a fixed buffer with a committed
//! and a speculative read cursor, and the two byte counters.
//!
//! Bytes that arrive from the peer are appended with [`Transport::fill`]. A
//! parser marks the buffer ([`Transport::safe_guard`]), reads, and commits
//! ([`Transport::safe_flush`]) once a whole unit was read; until then nothing
//! before the mark is given up, and a second mark starts over from it.

use crate::endian::{be_u32, read_u32_be};
use vstd::prelude::*;
use vstd::slice::slice_subrange;

verus! {

/// Size of the read buffer, in bytes.
pub const BUFFER_SIZE: usize = 131072;

#[derive(Debug, PartialEq, Eq, Structural)]
pub enum TransportError {
    /// More bytes were asked for, or offered, than the buffer can hold.
    BufNoSpace,
    /// The peer closed the connection in the middle of a read.
    ReadUnexpectedEof,
    /// The peer closed the connection.
    EndOfFile,
    /// The operation did not complete in the configured time.
    Timeout,
    /// Any other failure of the connection.
    Io,
}

pub struct Transport {
    recv_bytes: u64,
    send_bytes: u64,
    buf: Vec<u8>,
    safe: bool,
    write_pos: usize,
    real_read_pos: usize,
    virtual_read_pos: usize,
}

/// What a [`Transport`] stands for.
pub struct TransportView {
    /// The bytes that arrived and are not committed as read, oldest first.
    pub pending: Seq<u8>,
    /// How many of `pending` were read since the mark.
    pub cursor: nat,
    /// Whether a mark is set.
    pub marked: bool,
    pub recv_bytes: u64,
    pub send_bytes: u64,
}

impl View for Transport {
    type V = TransportView;

    closed spec fn view(&self) -> TransportView {
        TransportView {
            pending: self.buf@.subrange(self.virtual_read_pos as int, self.write_pos as int),
            cursor: (self.real_read_pos - self.virtual_read_pos) as nat,
            marked: self.safe,
            recv_bytes: self.recv_bytes,
            send_bytes: self.send_bytes,
        }
    }
}

impl TransportView {
    /// The bytes that arrived and were not read, oldest first.
    pub open spec fn unread(self) -> Seq<u8> {
        self.pending.subrange(self.cursor as int, self.pending.len() as int)
    }

    /// The state after `size` more bytes were read.
    pub open spec fn advanced(self, size: nat) -> TransportView {
        if self.marked {
            TransportView {
                cursor: self.cursor + size,
                recv_bytes: saturating_u64(self.recv_bytes + size),
                ..self
            }
        } else {
            TransportView {
                pending: self.pending.subrange(size as int, self.pending.len() as int),
                cursor: 0,
                recv_bytes: saturating_u64(self.recv_bytes + size),
                ..self
            }
        }
    }
}

/// `n`, or `u64::MAX` where `n` is larger.
pub open spec fn saturating_u64(n: int) -> u64 {
    if n > u64::MAX {
        u64::MAX
    } else {
        n as u64
    }
}

impl Transport {
    /// The cursors are in order within the buffer, and without a mark the two
    /// read cursors are one.
    pub closed spec fn wf(&self) -> bool {
        &&& self.buf@.len() == BUFFER_SIZE
        &&& self.virtual_read_pos <= self.real_read_pos <= self.write_pos <= BUFFER_SIZE
        &&& !self.safe ==> self.virtual_read_pos == self.real_read_pos
    }

    /// Well-formedness as the view shows it.
    pub proof fn lemma_wf_view(&self)
        requires
            self.wf(),
        ensures
            self@.cursor <= self@.pending.len() <= BUFFER_SIZE,
            !self@.marked ==> self@.cursor == 0,
    {
    }

    pub fn new() -> (r: Self)
        ensures
            r.wf(),
            r@ == (TransportView {
                pending: Seq::empty(),
                cursor: 0,
                marked: false,
                recv_bytes: 0,
                send_bytes: 0,
            }),
    {
        let mut buf: Vec<u8> = Vec::new();
        let mut i: usize = 0;
        while i < BUFFER_SIZE
            invariant
                i <= BUFFER_SIZE,
                buf@.len() == i,
            decreases BUFFER_SIZE - i,
        {
            buf.push(0);
            i += 1;
        }
        let r = Transport {
            recv_bytes: 0,
            send_bytes: 0,
            buf,
            safe: false,
            write_pos: 0,
            real_read_pos: 0,
            virtual_read_pos: 0,
        };
        assert(r@.pending =~= Seq::<u8>::empty());
        r
    }

    /// Sets the mark: reading starts over from the last commit.
    pub fn safe_guard(&mut self)
        requires
            old(self).wf(),
        ensures
            final(self).wf(),
            final(self)@ == (TransportView { cursor: 0, marked: true, ..old(self)@ }),
    {
        self.real_read_pos = self.virtual_read_pos;
        self.safe = true;
    }

    /// Commits what was read since the mark, and clears the mark.
    pub fn safe_flush(&mut self)
        requires
            old(self).wf(),
        ensures
            final(self).wf(),
            final(self)@ == (TransportView {
                pending: old(self)@.unread(),
                cursor: 0,
                marked: false,
                ..old(self)@
            }),
    {
        self.safe = false;
        self.virtual_read_pos = self.real_read_pos;
        assert(self@.pending =~= old(self)@.unread());
    }

    pub fn get_recv_bytes(&self) -> (n: u64)
        ensures
            n == self@.recv_bytes,
    {
        self.recv_bytes
    }

    pub fn get_send_bytes(&self) -> (n: u64)
        ensures
            n == self@.send_bytes,
    {
        self.send_bytes
    }

    /// Number of bytes that arrived and were not read.
    pub fn buf_len(&self) -> (n: usize)
        requires
            self.wf(),
        ensures
            n == self@.unread().len(),
    {
        self.write_pos - self.real_read_pos
    }

    /// Number of bytes that can be appended without moving what is held.
    fn buf_left(&self) -> (n: usize)
        requires
            self.wf(),
        ensures
            n == BUFFER_SIZE - self.write_pos,
    {
        self.buf.len() - self.write_pos
    }

    /// Number of bytes that [`Transport::fill`] can take.
    pub fn room(&self) -> (n: usize)
        requires
            self.wf(),
        ensures
            n == BUFFER_SIZE - self@.pending.len(),
    {
        self.buf.len() - (self.write_pos - self.virtual_read_pos)
    }

    /// Moves the uncommitted bytes to the front of the buffer.
    fn buf_move_to_head(&mut self)
        requires
            old(self).wf(),
        ensures
            final(self).wf(),
            final(self)@ == old(self)@,
            final(self).virtual_read_pos == 0,
    {
        let offset = self.virtual_read_pos;
        let count = self.write_pos - offset;
        let ghost before = self.buf@;
        let mut i: usize = 0;
        while i < count
            invariant
                i <= count,
                offset + count <= BUFFER_SIZE,
                self.buf@.len() == BUFFER_SIZE,
                before.len() == BUFFER_SIZE,
                forall|j: int| 0 <= j < i ==> self.buf@[j] == before[offset + j],
                forall|j: int| i + offset <= j < BUFFER_SIZE ==> self.buf@[j] == before[j],
                self.virtual_read_pos == offset,
                self.real_read_pos == old(self).real_read_pos,
                self.write_pos == old(self).write_pos,
                self.safe == old(self).safe,
                self.recv_bytes == old(self).recv_bytes,
                self.send_bytes == old(self).send_bytes,
                old(self).wf(),
                before == old(self).buf@,
                count == old(self).write_pos - offset,
                offset == old(self).virtual_read_pos,
            decreases count - i,
        {
            let b = self.buf[i + offset];
            self.buf.set(i, b);
            i += 1;
        }
        self.virtual_read_pos = 0;
        self.real_read_pos = self.real_read_pos - offset;
        self.write_pos = self.write_pos - offset;
        assert(self@.pending =~= old(self)@.pending);
    }

    /// Appends bytes that arrived from the peer. Where they do not fit behind
    /// what is held, the uncommitted bytes are first moved to the front.
    ///
    /// Fails with `BufNoSpace`, and leaves everything as it is, where they do
    /// not fit even then.
    pub fn fill(&mut self, data: &[u8]) -> (r: Result<(), TransportError>)
        requires
            old(self).wf(),
        ensures
            final(self).wf(),
            match r {
                Ok(_) => {
                    &&& old(self)@.pending.len() + data@.len() <= BUFFER_SIZE
                    &&& final(self)@ == (TransportView {
                        pending: old(self)@.pending + data@,
                        ..old(self)@
                    })
                },
                Err(e) => {
                    &&& e == TransportError::BufNoSpace
                    &&& old(self)@.pending.len() + data@.len() > BUFFER_SIZE
                    &&& final(self)@ == old(self)@
                },
            },
    {
        if data.len() > self.room() {
            return Err(TransportError::BufNoSpace);
        }
        if self.buf_left() < data.len() {
            self.buf_move_to_head();
        }
        let ghost mid = self.buf@;
        let start = self.write_pos;
        let mut i: usize = 0;
        while i < data.len()
            invariant
                i <= data@.len(),
                start + data@.len() <= BUFFER_SIZE,
                self.buf@.len() == BUFFER_SIZE,
                mid.len() == BUFFER_SIZE,
                forall|j: int| 0 <= j < start ==> self.buf@[j] == mid[j],
                self.virtual_read_pos <= self.real_read_pos <= self.write_pos == start,
                !self.safe ==> self.virtual_read_pos == self.real_read_pos,
                self.safe == old(self).safe,
                self.recv_bytes == old(self).recv_bytes,
                self.send_bytes == old(self).send_bytes,
                self.real_read_pos - self.virtual_read_pos == old(self)@.cursor,
                mid.subrange(self.virtual_read_pos as int, start as int) == old(self)@.pending,
                forall|j: int| 0 <= j < i ==> self.buf@[start + j] == data@[j],
            decreases data@.len() - i,
        {
            self.buf.set(start + i, data[i]);
            i += 1;
        }
        self.write_pos = start + data.len();
        assert(self@.pending =~= old(self)@.pending + data@);
        Ok(())
    }

    /// Reads the next `size` bytes, if that many have arrived.
    ///
    /// `Ok(None)` says that fewer have arrived; nothing is read then. Fails
    /// with `BufNoSpace` where `size` is more than the buffer holds.
    pub fn read_exact(&mut self, size: usize) -> (r: Result<Option<&[u8]>, TransportError>)
        requires
            old(self).wf(),
        ensures
            final(self).wf(),
            match r {
                Ok(Some(bytes)) => {
                    &&& size <= old(self)@.unread().len()
                    &&& bytes@ == old(self)@.unread().subrange(0, size as int)
                    &&& final(self)@ == old(self)@.advanced(size as nat)
                },
                Ok(None) => {
                    &&& old(self)@.unread().len() < size <= BUFFER_SIZE
                    &&& final(self)@ == old(self)@
                },
                Err(e) => {
                    &&& e == TransportError::BufNoSpace
                    &&& size > BUFFER_SIZE
                    &&& final(self)@ == old(self)@
                },
            },
    {
        if size > self.buf.len() {
            return Err(TransportError::BufNoSpace);
        }
        if self.buf_len() < size {
            return Ok(None);
        }
        let from = self.real_read_pos;
        self.recv_bytes = self.recv_bytes.saturating_add(size as u64);
        self.real_read_pos = from + size;
        if !self.safe {
            self.virtual_read_pos = self.real_read_pos;
        }
        let bytes = slice_subrange(self.buf.as_slice(), from, from + size);
        assert(bytes@ =~= old(self)@.unread().subrange(0, size as int));
        assert(self@.pending =~= old(self)@.advanced(size as nat).pending);
        Ok(Some(bytes))
    }

    /// The bytes that arrived and were not read, without reading them.
    pub fn peek(&self) -> (bytes: &[u8])
        requires
            self.wf(),
        ensures
            bytes@ == self@.unread(),
    {
        let bytes = slice_subrange(self.buf.as_slice(), self.real_read_pos, self.write_pos);
        assert(bytes@ =~= self@.unread());
        bytes
    }

    /// Reads one byte, if one has arrived.
    pub fn read_u8(&mut self) -> (r: Option<u8>)
        requires
            old(self).wf(),
        ensures
            final(self).wf(),
            match r {
                Some(b) => {
                    &&& old(self)@.unread().len() >= 1
                    &&& b == old(self)@.unread()[0]
                    &&& final(self)@ == old(self)@.advanced(1)
                },
                None => old(self)@.unread().len() == 0 && final(self)@ == old(self)@,
            },
    {
        match self.read_exact(1) {
            Ok(Some(bytes)) => Some(bytes[0]),
            _ => None,
        }
    }

    /// Reads a big-endian `u32`, if four bytes have arrived.
    pub fn read_u32(&mut self) -> (r: Option<u32>)
        requires
            old(self).wf(),
        ensures
            final(self).wf(),
            match r {
                Some(n) => {
                    &&& old(self)@.unread().len() >= 4
                    &&& n == be_u32(old(self)@.unread())
                    &&& final(self)@ == old(self)@.advanced(4)
                },
                None => old(self)@.unread().len() < 4 && final(self)@ == old(self)@,
            },
    {
        match self.read_exact(4) {
            Ok(Some(bytes)) => Some(read_u32_be(bytes)),
            _ => None,
        }
    }

    /// Counts `size` bytes as written to the peer.
    pub fn write_all(&mut self, size: usize)
        requires
            old(self).wf(),
        ensures
            final(self).wf(),
            final(self)@ == (TransportView {
                send_bytes: saturating_u64(old(self)@.send_bytes + size),
                ..old(self)@
            }),
    {
        self.send_bytes = self.send_bytes.saturating_add(size as u64);
    }
}

} // verus!
