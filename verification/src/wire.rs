//! How integers lie on the wire.
use crate::error::{PduError, PduResult};
use vstd::prelude::*;

verus! {

/// The two bytes of a 16-bit integer, low byte first.
pub open spec fn u16_le(x: u16) -> Seq<u8> {
    seq![(x % 256) as u8, (x / 256) as u8]
}

/// The 16-bit integer that the first two bytes of `s` hold, low byte first.
pub open spec fn u16_from_le(s: Seq<u8>) -> u16
    recommends
        s.len() >= 2,
{
    (s[0] + 256 * s[1]) as u16
}

/// The four bytes of a 32-bit integer, low byte first.
pub open spec fn u32_le(x: u32) -> Seq<u8> {
    seq![
        (x % 256) as u8,
        ((x / 256) % 256) as u8,
        ((x / 65536) % 256) as u8,
        (x / 16777216) as u8,
    ]
}

/// The 32-bit integer that the first four bytes of `s` hold, low byte first.
pub open spec fn u32_from_le(s: Seq<u8>) -> u32
    recommends
        s.len() >= 4,
{
    (s[0] + 256 * s[1] + 65536 * s[2] + 16777216 * s[3]) as u32
}

/// Reading back the bytes of a 16-bit integer gives the integer, whatever
/// follows the two bytes.
pub proof fn u16_round_trip(x: u16, rest: Seq<u8>)
    ensures
        u16_le(x).len() == 2,
        u16_from_le(u16_le(x) + rest) == x,
{
}

/// Turns a length into the 16-bit field that carries it on the wire, or fails
/// where the length does not fit. Every length that goes into such a field
/// passes through here, so none is ever cut short.
pub fn cast_length(length: usize) -> (res: PduResult<u16>)
    ensures
        res == if length <= u16::MAX {
            Ok::<u16, PduError>(length as u16)
        } else {
            Err::<u16, PduError>(PduError::LengthOverflow)
        },
{
    if length <= 0xffff {
        Ok(length as u16)
    } else {
        Err(PduError::LengthOverflow)
    }
}

} // verus!
