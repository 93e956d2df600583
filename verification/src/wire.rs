//! Fixed-width integers as they lie in a message.
//!
//! The dataloggers send 32-bit second counts little-endian and everything else
//! big-endian. The reads are done by the `byteorder` crate; what each read returns is
//! stated here over the bytes.

use byteorder::{BigEndian, ByteOrder, LittleEndian};
use vstd::prelude::*;

verus! {

/// The number that the first four bytes of `b` hold, lowest byte first.
pub open spec fn spec_u32_le(b: Seq<u8>) -> int
    recommends
        b.len() >= 4,
{
    b[0] + 0x100 * b[1] + 0x1_0000 * b[2] + 0x100_0000 * b[3]
}

/// The number that the first four bytes of `b` hold, highest byte first.
pub open spec fn spec_u32_be(b: Seq<u8>) -> int
    recommends
        b.len() >= 4,
{
    0x100_0000 * b[0] + 0x1_0000 * b[1] + 0x100 * b[2] + b[3]
}

/// The number that the first two bytes of `b` hold, highest byte first.
pub open spec fn spec_u16_be(b: Seq<u8>) -> int
    recommends
        b.len() >= 2,
{
    0x100 * b[0] + b[1]
}

/// `byteorder::LittleEndian::read_u32`: the little-endian value of the first four bytes
/// of `buf`. It panics on a shorter buffer, hence the `requires`.
#[verifier::external_body]
pub(crate) fn read_u32_le(buf: &[u8]) -> (v: u32)
    requires
        buf@.len() >= 4,
    ensures
        v == spec_u32_le(buf@),
{
    LittleEndian::read_u32(buf)
}

/// `byteorder::BigEndian::read_u32`: the big-endian value of the first four bytes of
/// `buf`. It panics on a shorter buffer, hence the `requires`.
#[verifier::external_body]
pub(crate) fn read_u32_be(buf: &[u8]) -> (v: u32)
    requires
        buf@.len() >= 4,
    ensures
        v == spec_u32_be(buf@),
{
    BigEndian::read_u32(buf)
}

/// `byteorder::BigEndian::read_u16`: the big-endian value of the first two bytes of
/// `buf`. It panics on a shorter buffer, hence the `requires`.
#[verifier::external_body]
pub(crate) fn read_u16_be(buf: &[u8]) -> (v: u16)
    requires
        buf@.len() >= 2,
    ensures
        v == spec_u16_be(buf@),
{
    BigEndian::read_u16(buf)
}

} // verus!
