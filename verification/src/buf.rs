//! Byte buffers of the `bytes` crate, as the codec sees them.
//!
//! Verus cannot look inside `Bytes` or `BytesMut`. Each has a name here for the
//! bytes it holds, and every operation the library performs on one is given a
//! contract over that name. None of these contracts is proved.

use bytes::{Bytes, BytesMut};
use vstd::prelude::*;

verus! {

/// `bytes::Bytes`: an immutable handle to a run of bytes.
#[verifier::external_type_specification]
#[verifier::external_body]
pub struct ExBytes(Bytes);

/// `bytes::BytesMut`: a buffer of bytes that can grow.
#[verifier::external_type_specification]
#[verifier::external_body]
pub struct ExBytesMut(BytesMut);

/// The bytes that a `Bytes` handle holds, in order.
pub uninterp spec fn bytes_seq(b: &Bytes) -> Seq<u8>;

/// The bytes that a `BytesMut` buffer holds, in order.
pub uninterp spec fn bytes_mut_seq(b: &BytesMut) -> Seq<u8>;

/// `Bytes::clone` hands out a second handle to the same bytes.
pub assume_specification[ <Bytes as Clone>::clone ](b: &Bytes) -> (r: Bytes)
    ensures
        bytes_seq(&r) == bytes_seq(b),
;

/// `Bytes::as_ref` borrows the held bytes as a slice.
pub assume_specification<'a>[ <Bytes as AsRef<[u8]>>::as_ref ](b: &'a Bytes) -> (r: &'a [u8])
    ensures
        r@ == bytes_seq(b),
;

/// `Bytes::from(Vec<u8>)` takes over the vector's bytes unchanged.
pub assume_specification[ <Bytes as From<Vec<u8>>>::from ](v: Vec<u8>) -> (r: Bytes)
    ensures
        bytes_seq(&r) == v@,
;

/// `BytesMut::new` makes an empty buffer.
pub assume_specification[ BytesMut::new ]() -> (r: BytesMut)
    ensures
        bytes_mut_seq(&r) == Seq::<u8>::empty(),
;

/// `BytesMut::as_ref` borrows the held bytes as a slice.
pub assume_specification<'a>[ <BytesMut as AsRef<[u8]>>::as_ref ](b: &'a BytesMut) -> (r: &'a [u8])
    ensures
        r@ == bytes_mut_seq(b),
;

/// `BytesMut::extend_from_slice` appends the slice to the buffer.
pub assume_specification[ BytesMut::extend_from_slice ](b: &mut BytesMut, extend: &[u8])
    ensures
        bytes_mut_seq(final(b)) == bytes_mut_seq(old(b)) + extend@,
;

/// `BytesMut::clear` empties the buffer.
pub assume_specification[ BytesMut::clear ](b: &mut BytesMut)
    ensures
        bytes_mut_seq(final(b)) == Seq::<u8>::empty(),
;

/// `BytesMut::split` followed by `BytesMut::freeze`: everything held is moved
/// out into an immutable handle and the buffer is left empty.
#[verifier::external_body]
pub(crate) fn take_frozen(b: &mut BytesMut) -> (r: Bytes)
    ensures
        bytes_seq(&r) == bytes_mut_seq(old(b)),
        bytes_mut_seq(final(b)) == Seq::<u8>::empty(),
{
    b.split().freeze()
}

/// `Bytes::slice` with an open end: a handle to the bytes from index `from` on.
#[verifier::external_body]
pub(crate) fn bytes_tail(b: &Bytes, from: usize) -> (r: Bytes)
    requires
        from <= bytes_seq(b).len(),
    ensures
        bytes_seq(&r) == bytes_seq(b).subrange(from as int, bytes_seq(b).len() as int),
{
    b.slice(from..)
}

/// Number of bytes held by `b`.
pub fn bytes_len(b: &Bytes) -> (n: usize)
    ensures
        n == bytes_seq(b).len(),
{
    let s: &[u8] = b.as_ref();
    s.len()
}

/// Number of bytes held by `b`.
pub fn bytes_mut_len(b: &BytesMut) -> (n: usize)
    ensures
        n == bytes_mut_seq(b).len(),
{
    let s: &[u8] = b.as_ref();
    s.len()
}

} // verus!
