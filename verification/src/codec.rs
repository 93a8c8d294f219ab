//! What all the codecs of this crate have in common.
//!
//! Every type that goes onto the wire has a view, the value in mathematical
//! terms, and three mathematical functions over views say what its code does:
//! `wire`, the bytes of a value; `encoded`, what an encoder does with the room
//! that it finds; `parse`, what a decoder makes of given bytes. The executable
//! `size`, `encode` and `decode` are held to these functions, and the functions
//! are held to the laws that make a codec of them: an encoder writes the bytes
//! of the value or fails, it never writes past the room, and a decoder gets
//! back whatever an encoder has written.
use crate::cursor::{ReadCursor, WriteCursor};
use crate::error::{PduError, PduResult};
use vstd::prelude::*;

verus! {

/// What an encoder does with a destination of a given size: whether it
/// succeeds, and the bytes that it has written by the time it returns.
pub struct Encoded {
    pub outcome: Result<(), PduError>,
    pub written: Seq<u8>,
}

/// What a decoder makes of a sequence of bytes: the value or the failure, and
/// how many bytes it has taken from the front of the sequence by then.
pub struct Parsed<T> {
    pub outcome: Result<T, PduError>,
    pub consumed: nat,
}

/// A type that can be written to the wire.
pub trait PduEncode: View {
    /// The bytes of a value on the wire.
    spec fn wire(value: Self::V) -> Seq<u8>;

    /// Whether every length in the value fits the field that carries it. Only
    /// a value that fits can be encoded.
    spec fn fits(value: Self::V) -> bool;

    /// What an encoder does that finds `room` bytes free.
    spec fn encoded(value: Self::V, room: nat) -> Encoded;

    /// An encoder succeeds exactly where the value fits and has room. Where it
    /// succeeds it has written the bytes of the value, no fewer and no more,
    /// and it never writes more than there is room for.
    proof fn encoder_is_faithful(value: Self::V, room: nat)
        ensures
            Self::encoded(value, room).outcome is Ok <==> Self::fits(value) && Self::wire(
                value,
            ).len() <= room,
            Self::encoded(value, room).outcome is Ok ==> Self::encoded(value, room).written
                == Self::wire(value),
            Self::encoded(value, room).written.len() <= room,
    ;

    /// The name of the type, for diagnostics.
    fn name(&self) -> (name: &'static str);

    /// The number of bytes that `encode` writes. The count has to fit a
    /// `usize`, as it does for every value that a machine can hold.
    fn size(&self) -> (n: usize)
        requires
            Self::wire(self@).len() <= usize::MAX,
        ensures
            n == Self::wire(self@).len(),
    ;

    /// Writes the value to `dst`. The call succeeds exactly where the value
    /// fits and `dst` has room for it, and has then written the bytes of the
    /// value and nothing else. Where it fails, `encoded` says what has been
    /// written by then.
    fn encode(&self, dst: &mut WriteCursor) -> (res: PduResult<()>)
        requires
            Self::wire(self@).len() <= usize::MAX,
        ensures
            res == Self::encoded(self@, old(dst).unwritten().len()).outcome,
            final(dst).written() == old(dst).written() + Self::encoded(
                self@,
                old(dst).unwritten().len(),
            ).written,
            final(dst).unwritten() == old(dst).unwritten().skip(
                Self::encoded(self@, old(dst).unwritten().len()).written.len() as int,
            ),
    ;
}

/// A type that can be read from the wire.
pub trait PduDecode: PduEncode + Sized {
    /// What a decoder makes of `s`.
    spec fn parse(s: Seq<u8>) -> Parsed<Self::V>;

    /// A decoder never goes past the bytes that it was given.
    proof fn parse_stays_in_bounds(s: Seq<u8>)
        ensures
            Self::parse(s).consumed <= s.len(),
    ;

    /// Decoding the bytes of a value gives the value, and takes all the bytes.
    proof fn round_trip(value: Self::V)
        requires
            Self::fits(value),
        ensures
            Self::parse(Self::wire(value)) == (Parsed {
                outcome: Ok(value),
                consumed: Self::wire(value).len(),
            }),
    ;

    /// Reads a value from `src`. The cursor moves on by what the decoder has
    /// taken, whether it succeeds or fails.
    fn decode(src: &mut ReadCursor<'_>) -> (res: PduResult<Self>)
        ensures
            final(src)@ == old(src)@.skip(Self::parse(old(src)@).consumed as int),
            match res {
                Ok(value) => Self::parse(old(src)@).outcome == Ok::<Self::V, PduError>(value@),
                Err(e) => Self::parse(old(src)@).outcome == Err::<Self::V, PduError>(e),
            },
    ;
}

/// Reads a value from the front of `bytes`.
pub fn decode<T: PduDecode>(bytes: &[u8]) -> (res: PduResult<T>)
    ensures
        match res {
            Ok(value) => T::parse(bytes@).outcome == Ok::<T::V, PduError>(value@),
            Err(e) => T::parse(bytes@).outcome == Err::<T::V, PduError>(e),
        },
{
    let mut src = ReadCursor::new(bytes);
    T::decode(&mut src)
}

} // verus!
