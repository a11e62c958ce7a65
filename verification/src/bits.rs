//! Reading single bits out of bytes, most significant bit first.
use vstd::prelude::*;
use bitreader::BitReader;

verus! {

/// The bit reader of the `bitreader` crate: a byte slice and a position in it,
/// counted in bits.
#[verifier::external_type_specification]
#[verifier::external_body]
pub struct ExBitReader<'a>(BitReader<'a>);

/// The bytes that a reader reads from.
pub uninterp spec fn reader_bytes(r: BitReader<'_>) -> Seq<u8>;

/// The place at which a reader stands, counted in bits from the start of its
/// bytes.
pub uninterp spec fn reader_position(r: BitReader<'_>) -> nat;

/// The bit offset, counted from the start of its bytes, up to which a reader
/// may read.
pub uninterp spec fn reader_limit(r: BitReader<'_>) -> nat;

/// The value of the bit at place `k` of a byte, place 0 being the lowest.
pub open spec fn place_value(k: int) -> int {
    if k == 0 {
        1
    } else if k == 1 {
        2
    } else if k == 2 {
        4
    } else if k == 3 {
        8
    } else if k == 4 {
        16
    } else if k == 5 {
        32
    } else if k == 6 {
        64
    } else {
        128
    }
}

/// Bit `i` of a byte sequence, where bit 0 is the highest bit of the first byte.
pub open spec fn bit_at(bytes: Seq<u8>, i: int) -> int {
    (bytes[i / 8] as int / place_value(7 - i % 8)) % 2
}

/// The number spelled by `count` bits from bit `start` on, the first bit
/// weighing most.
pub open spec fn bits_value(bytes: Seq<u8>, start: int, count: nat) -> int
    decreases count,
{
    if count == 0 {
        0
    } else {
        2 * bits_value(bytes, start, (count - 1) as nat) + bit_at(bytes, start + count - 1)
    }
}

/// `BitReader::new`: a reader over `bytes` that stands at their first bit and
/// may read all of them.
#[verifier::external_body]
pub(crate) fn reader_new<'a>(bytes: &'a [u8]) -> (r: BitReader<'a>)
    ensures
        reader_bytes(r) == bytes@,
        reader_position(r) == 0,
        reader_limit(r) == 8 * bytes@.len(),
{
    BitReader::new(bytes)
}

/// `BitReader::read_u8`: reads `bit_count` bits from the reader's place on,
/// the first bit weighing most, and moves past them. Where more than eight
/// bits are asked for, or the bits would reach beyond the reader's limit,
/// nothing is read and the place stays; the crate's error is then given as
/// `None`. No bits read give 0. The bytes and the limit stay as they are.
#[verifier::external_body]
pub(crate) fn reader_read_u8(r: &mut BitReader<'_>, bit_count: u8) -> (res: Option<u8>)
    ensures
        reader_bytes(*final(r)) == reader_bytes(*old(r)),
        reader_limit(*final(r)) == reader_limit(*old(r)),
        bit_count == 0 ==> res == Some(0u8) && reader_position(*final(r)) == reader_position(
            *old(r),
        ),
        0 < bit_count <= 8 && reader_position(*old(r)) + bit_count <= reader_limit(*old(r))
            && reader_limit(*old(r)) <= 8 * reader_bytes(*old(r)).len() ==> res == Some(
            bits_value(reader_bytes(*old(r)), reader_position(*old(r)) as int, bit_count as nat) as u8,
        ) && reader_position(*final(r)) == reader_position(*old(r)) + bit_count,
        bit_count > 8 || (bit_count > 0 && reader_position(*old(r)) + bit_count > reader_limit(
            *old(r),
        )) ==> res.is_none() && reader_position(*final(r)) == reader_position(*old(r)),
{
    r.read_u8(bit_count).ok()
}

} // verus!
