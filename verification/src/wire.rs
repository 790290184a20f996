//! Integers in network byte order, as PostgreSQL's binary formats hold them.

use byteorder::{ByteOrder, NetworkEndian};
use vstd::prelude::*;

verus! {

/// The number spelled by the two bytes of `bytes` that start at `at`, most
/// significant byte first.
pub open spec fn be16_at(bytes: Seq<u8>, at: int) -> int {
    bytes[at] as int * 0x100 + bytes[at + 1] as int
}

/// The number spelled by the four bytes of `bytes` that start at `at`, most
/// significant byte first.
pub open spec fn be32_at(bytes: Seq<u8>, at: int) -> int {
    bytes[at] as int * 0x100_0000 + bytes[at + 1] as int * 0x1_0000 + bytes[at + 2] as int * 0x100
        + bytes[at + 3] as int
}

/// The four bytes that spell `n`, most significant byte first.
pub open spec fn be32_bytes(n: u32) -> Seq<u8> {
    seq![
        (n as int / 0x100_0000) as u8,
        (n as int / 0x1_0000 % 0x100) as u8,
        (n as int / 0x100 % 0x100) as u8,
        (n as int % 0x100) as u8,
    ]
}

/// The two bytes that spell `n`, most significant byte first.
pub open spec fn be16_bytes(n: u16) -> Seq<u8> {
    seq![(n as int / 0x100) as u8, (n as int % 0x100) as u8]
}

/// Calls `byteorder::ByteOrder::read_u16` of `NetworkEndian`, which panics on
/// fewer than two bytes and otherwise reads the first two as a big-endian
/// number. Trusted: the contract restates that, it is not proved.
#[verifier::external_body]
pub(crate) fn read_u16(buf: &[u8]) -> (n: u16)
    requires
        buf@.len() >= 2,
    ensures
        n as int == be16_at(buf@, 0),
{
    NetworkEndian::read_u16(buf)
}

/// Calls `byteorder::ByteOrder::read_u32` of `NetworkEndian`, which panics on
/// fewer than four bytes and otherwise reads the first four as a big-endian
/// number. Trusted: the contract restates that, it is not proved.
#[verifier::external_body]
pub(crate) fn read_u32(buf: &[u8]) -> (n: u32)
    requires
        buf@.len() >= 4,
    ensures
        n as int == be32_at(buf@, 0),
{
    NetworkEndian::read_u32(buf)
}

/// Calls `byteorder::ByteOrder::write_u32` of `NetworkEndian` on a buffer of
/// four bytes, which it fills with the big-endian form of `n`. Trusted: the
/// contract restates that, it is not proved.
#[verifier::external_body]
pub(crate) fn write_u32(n: u32) -> (buf: [u8; 4])
    ensures
        buf@ == be32_bytes(n),
{
    let mut buf = [0u8; 4];
    NetworkEndian::write_u32(&mut buf, n);
    buf
}

/// Reading back the four bytes that spell a number gives that number.
pub proof fn lemma_be32_round_trip(n: u32)
    ensures
        be32_at(be32_bytes(n), 0) == n,
{
}

/// Four bytes are the spelling of the number they spell.
pub proof fn lemma_be32_bytes_of_value(bytes: Seq<u8>)
    requires
        bytes.len() == 4,
    ensures
        0 <= be32_at(bytes, 0) <= u32::MAX,
        be32_bytes(be32_at(bytes, 0) as u32) == bytes,
{
    assert(be32_bytes(be32_at(bytes, 0) as u32) =~= bytes);
}

} // verus!
