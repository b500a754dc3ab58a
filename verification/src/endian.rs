//! Fixed-width integers on the wire.
//!
//! The spec functions say what the bytes of an integer are; the exec functions
//! call `byteorder` and are believed to agree with them.

use byteorder::{BigEndian, ByteOrder, LittleEndian, WriteBytesExt};
use vstd::prelude::*;

verus! {

/// The big-endian value of the first two bytes of `s`.
pub open spec fn be_u16(s: Seq<u8>) -> u16
    recommends
        s.len() >= 2,
{
    (s[0] as int * 0x100 + s[1] as int) as u16
}

/// The big-endian value of the first three bytes of `s`.
pub open spec fn be_u24(s: Seq<u8>) -> u32
    recommends
        s.len() >= 3,
{
    (s[0] as int * 0x1_0000 + s[1] as int * 0x100 + s[2] as int) as u32
}

/// The big-endian value of the first four bytes of `s`.
pub open spec fn be_u32(s: Seq<u8>) -> u32
    recommends
        s.len() >= 4,
{
    (s[0] as int * 0x100_0000 + s[1] as int * 0x1_0000 + s[2] as int * 0x100 + s[3] as int) as u32
}

/// The little-endian value of the first four bytes of `s`.
pub open spec fn le_u32(s: Seq<u8>) -> u32
    recommends
        s.len() >= 4,
{
    (s[3] as int * 0x100_0000 + s[2] as int * 0x1_0000 + s[1] as int * 0x100 + s[0] as int) as u32
}

/// The two bytes of `n`, most significant first.
pub open spec fn u16_be_bytes(n: u16) -> Seq<u8> {
    seq![(n / 0x100) as u8, (n % 0x100) as u8]
}

/// The three low bytes of `n`, most significant first.
pub open spec fn u24_be_bytes(n: u32) -> Seq<u8>
    recommends
        n < 0x100_0000,
{
    seq![((n / 0x1_0000) % 0x100) as u8, ((n / 0x100) % 0x100) as u8, (n % 0x100) as u8]
}

/// The four bytes of `n`, most significant first.
pub open spec fn u32_be_bytes(n: u32) -> Seq<u8> {
    seq![
        (n / 0x100_0000) as u8,
        ((n / 0x1_0000) % 0x100) as u8,
        ((n / 0x100) % 0x100) as u8,
        (n % 0x100) as u8,
    ]
}

/// The four bytes of `n`, least significant first.
pub open spec fn u32_le_bytes(n: u32) -> Seq<u8> {
    seq![
        (n % 0x100) as u8,
        ((n / 0x100) % 0x100) as u8,
        ((n / 0x1_0000) % 0x100) as u8,
        (n / 0x100_0000) as u8,
    ]
}

/// Reading back what was written gives the number written, whatever follows.
pub proof fn lemma_be_u16_of_bytes(n: u16, rest: Seq<u8>)
    ensures
        be_u16(u16_be_bytes(n) + rest) == n,
{
}

/// Reading back what was written gives the number written, whatever follows.
pub proof fn lemma_be_u24_of_bytes(n: u32, rest: Seq<u8>)
    requires
        n < 0x100_0000,
    ensures
        be_u24(u24_be_bytes(n) + rest) == n,
{
}

/// Reading back what was written gives the number written, whatever follows.
pub proof fn lemma_be_u32_of_bytes(n: u32, rest: Seq<u8>)
    ensures
        be_u32(u32_be_bytes(n) + rest) == n,
{
}

/// Reading back what was written gives the number written, whatever follows.
pub proof fn lemma_le_u32_of_bytes(n: u32, rest: Seq<u8>)
    ensures
        le_u32(u32_le_bytes(n) + rest) == n,
{
}

/// `BigEndian::read_u16`: the value of the first two bytes of `buf`.
#[verifier::external_body]
pub(crate) fn read_u16_be(buf: &[u8]) -> (n: u16)
    requires
        buf@.len() >= 2,
    ensures
        n == be_u16(buf@),
{
    BigEndian::read_u16(buf)
}

/// `BigEndian::read_u24`: the value of the first three bytes of `buf`.
#[verifier::external_body]
pub(crate) fn read_u24_be(buf: &[u8]) -> (n: u32)
    requires
        buf@.len() >= 3,
    ensures
        n == be_u24(buf@),
{
    BigEndian::read_u24(buf)
}

/// `BigEndian::read_u32`: the value of the first four bytes of `buf`.
#[verifier::external_body]
pub(crate) fn read_u32_be(buf: &[u8]) -> (n: u32)
    requires
        buf@.len() >= 4,
    ensures
        n == be_u32(buf@),
{
    BigEndian::read_u32(buf)
}

/// `LittleEndian::read_u32`: the value of the first four bytes of `buf`.
#[verifier::external_body]
pub(crate) fn read_u32_le(buf: &[u8]) -> (n: u32)
    requires
        buf@.len() >= 4,
    ensures
        n == le_u32(buf@),
{
    LittleEndian::read_u32(buf)
}

/// `WriteBytesExt::write_u16::<BigEndian>` on a vector appends the two bytes
/// of `n`. Writing to a vector cannot fail.
#[verifier::external_body]
pub(crate) fn write_u16_be(out: &mut Vec<u8>, n: u16)
    ensures
        final(out)@ == old(out)@ + u16_be_bytes(n),
{
    let _ = out.write_u16::<BigEndian>(n);
}

/// `WriteBytesExt::write_u24::<BigEndian>` on a vector appends the three bytes
/// of `n`. It panics on a number of more than 24 bits, which `requires` rules
/// out.
#[verifier::external_body]
pub(crate) fn write_u24_be(out: &mut Vec<u8>, n: u32)
    requires
        n < 0x100_0000,
    ensures
        final(out)@ == old(out)@ + u24_be_bytes(n),
{
    let _ = out.write_u24::<BigEndian>(n);
}

/// `WriteBytesExt::write_u32::<BigEndian>` on a vector appends the four bytes
/// of `n`.
#[verifier::external_body]
pub(crate) fn write_u32_be(out: &mut Vec<u8>, n: u32)
    ensures
        final(out)@ == old(out)@ + u32_be_bytes(n),
{
    let _ = out.write_u32::<BigEndian>(n);
}

/// `WriteBytesExt::write_u32::<LittleEndian>` on a vector appends the four
/// bytes of `n`, lowest first.
#[verifier::external_body]
pub(crate) fn write_u32_le(out: &mut Vec<u8>, n: u32)
    ensures
        final(out)@ == old(out)@ + u32_le_bytes(n),
{
    let _ = out.write_u32::<LittleEndian>(n);
}

} // verus!
