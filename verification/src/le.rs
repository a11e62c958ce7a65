//! Little-endian integers read out of byte slices.
use vstd::prelude::*;
use byteorder::{ByteOrder, LittleEndian};

verus! {

/// The unsigned 16-bit number whose little-endian bytes stand at `at`.
pub open spec fn le_u16(bytes: Seq<u8>, at: int) -> int {
    bytes[at] as int + 256 * (bytes[at + 1] as int)
}

/// The signed 16-bit number whose little-endian two's complement bytes stand
/// at `at`.
pub open spec fn le_i16(bytes: Seq<u8>, at: int) -> int {
    if le_u16(bytes, at) >= 32768 {
        le_u16(bytes, at) - 65536
    } else {
        le_u16(bytes, at)
    }
}

/// The unsigned 32-bit number whose little-endian bytes stand at `at`.
pub open spec fn le_u32(bytes: Seq<u8>, at: int) -> int {
    bytes[at] as int + 256 * (bytes[at + 1] as int) + 65536 * (bytes[at + 2] as int) + 16777216
        * (bytes[at + 3] as int)
}

/// `LittleEndian::read_u16` of `byteorder`: the first two bytes of `buf` as an
/// unsigned number, lowest byte first. It panics on a shorter slice.
#[verifier::external_body]
pub(crate) fn read_u16(buf: &[u8]) -> (v: u16)
    requires
        buf@.len() >= 2,
    ensures
        v == le_u16(buf@, 0),
{
    LittleEndian::read_u16(buf)
}

/// `LittleEndian::read_i16` of `byteorder`: the first two bytes of `buf` as a
/// two's complement number, lowest byte first. It panics on a shorter slice.
#[verifier::external_body]
pub(crate) fn read_i16(buf: &[u8]) -> (v: i16)
    requires
        buf@.len() >= 2,
    ensures
        v == le_i16(buf@, 0),
{
    LittleEndian::read_i16(buf)
}

/// `LittleEndian::read_u32` of `byteorder`: the first four bytes of `buf` as an
/// unsigned number, lowest byte first. It panics on a shorter slice.
#[verifier::external_body]
pub(crate) fn read_u32(buf: &[u8]) -> (v: u32)
    requires
        buf@.len() >= 4,
    ensures
        v == le_u32(buf@, 0),
{
    LittleEndian::read_u32(buf)
}

} // verus!
