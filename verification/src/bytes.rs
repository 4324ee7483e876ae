//! Little-endian integers in byte buffers.

use vstd::prelude::*;

verus! {

/// The bytes of a 16-bit integer, least significant first.
pub open spec fn le16(value: u16) -> Seq<u8> {
    seq![(value % 256) as u8, (value / 256) as u8]
}

/// The 16-bit integer with the given bytes, least significant first.
pub open spec fn from_le16(low: u8, high: u8) -> int {
    low + 256 * high
}

/// The bytes of a 32-bit integer, least significant first.
pub open spec fn le32(value: u32) -> Seq<u8> {
    seq![
        (value % 256) as u8,
        (value / 256 % 256) as u8,
        (value / 65_536 % 256) as u8,
        (value / 16_777_216) as u8,
    ]
}

/// The 32-bit integer with the given bytes, least significant first.
pub open spec fn from_le32(b0: u8, b1: u8, b2: u8, b3: u8) -> int {
    b0 + 256 * b1 + 65_536 * b2 + 16_777_216 * b3
}

/// The two's complement of a 16-bit integer as an unsigned one.
pub open spec fn twos_complement(value: i16) -> u16 {
    if value >= 0 {
        value as u16
    } else {
        (value + 65_536) as u16
    }
}

/// The 16-bit integer with the given two's complement.
pub open spec fn from_twos_complement(value: int) -> int {
    if value < 32_768 {
        value
    } else {
        value - 65_536
    }
}

pub(crate) fn u16_to_le(value: u16) -> (bytes: [u8; 2])
    ensures
        bytes@ == le16(value),
{
    [(value % 256) as u8, (value / 256) as u8]
}

pub(crate) fn i16_to_le(value: i16) -> (bytes: [u8; 2])
    ensures
        bytes@ == le16(twos_complement(value)),
{
    let unsigned: u16 = if value >= 0 {
        value as u16
    } else {
        (value as i32 + 65_536) as u16
    };
    u16_to_le(unsigned)
}

pub(crate) fn u32_to_le(value: u32) -> (bytes: [u8; 4])
    ensures
        bytes@ == le32(value),
{
    [
        (value % 256) as u8,
        (value / 256 % 256) as u8,
        (value / 65_536 % 256) as u8,
        (value / 16_777_216) as u8,
    ]
}

pub(crate) fn u16_from_le(low: u8, high: u8) -> (value: u16)
    ensures
        value == from_le16(low, high),
{
    low as u16 + 256 * high as u16
}

pub(crate) fn u32_from_le(b0: u8, b1: u8, b2: u8, b3: u8) -> (value: u32)
    ensures
        value == from_le32(b0, b1, b2, b3),
{
    b0 as u32 + 256 * b1 as u32 + 65_536 * b2 as u32 + 16_777_216 * b3 as u32
}

/// Reading the bytes of an integer gives the integer back.
pub proof fn le_round_trip(short: u16, long: u32, signed: i16)
    ensures
        from_le16(le16(short)[0], le16(short)[1]) == short,
        from_le32(le32(long)[0], le32(long)[1], le32(long)[2], le32(long)[3]) == long,
        from_twos_complement(twos_complement(signed) as int) == signed,
{
}

} // verus!
