//! The fields of a capability set that are left as they stand on the wire.
use crate::codec::{Encoded, Parsed, PduDecode, PduEncode};
use crate::cursor::{ReadCursor, WriteCursor};
use crate::error::{PduError, PduResult};
use vstd::prelude::*;
use vstd::slice::slice_to_vec;

verus! {

/// The fields of a capability set in their encoded form.
///
/// This crate frames every capability set and takes a few of them apart. The
/// fields of the others stay as they are: what a peer has sent goes out again
/// byte for byte, and whoever negotiates the capability reads the fields from
/// `payload`. The type code of the set says which layout the bytes follow.
#[derive(Debug, PartialEq, Eq, Clone)]
pub struct Unparsed {
    pub payload: Vec<u8>,
}

impl View for Unparsed {
    type V = Seq<u8>;

    open spec fn view(&self) -> Seq<u8> {
        self.payload@
    }
}

impl PduEncode for Unparsed {
    /// The bytes as they are.
    open spec fn wire(value: Seq<u8>) -> Seq<u8> {
        value
    }

    open spec fn fits(value: Seq<u8>) -> bool {
        true
    }

    /// An encoder that has no room for the bytes writes nothing.
    open spec fn encoded(value: Seq<u8>, room: nat) -> Encoded {
        if room < value.len() {
            Encoded {
                outcome: Err(
                    PduError::NotEnoughBytes {
                        received: room as usize,
                        expected: value.len() as usize,
                    },
                ),
                written: Seq::empty(),
            }
        } else {
            Encoded { outcome: Ok(()), written: value }
        }
    }

    proof fn encoder_is_faithful(value: Seq<u8>, room: nat) {
    }

    fn name(&self) -> (name: &'static str)
        ensures
            name@ == "Unparsed"@,
    {
        "Unparsed"
    }

    fn size(&self) -> (n: usize)
        ensures
            n == self@.len(),
    {
        assert(Self::wire(self@) == self@);
        self.payload.len()
    }

    fn encode(&self, dst: &mut WriteCursor) -> (res: PduResult<()>)
        ensures
            res is Ok <==> self@.len() <= old(dst).unwritten().len(),
            res is Ok ==> final(dst).written() == old(dst).written() + Self::wire(self@),
    {
        let size: usize = self.payload.len();
        let room: usize = dst.len();
        if room < size {
            return Err(PduError::NotEnoughBytes { received: room, expected: size });
        }
        dst.write_slice(self.payload.as_slice());
        Ok(())
    }
}

impl PduDecode for Unparsed {
    /// A decoder takes all the bytes that it is given, and never fails.
    open spec fn parse(s: Seq<u8>) -> Parsed<Seq<u8>> {
        Parsed { outcome: Ok(s), consumed: s.len() }
    }

    proof fn parse_stays_in_bounds(s: Seq<u8>) {
    }

    proof fn round_trip(value: Seq<u8>) {
    }

    fn decode(src: &mut ReadCursor<'_>) -> (res: PduResult<Unparsed>)
        ensures
            res is Ok,
    {
        let available: usize = src.len();
        let payload = slice_to_vec(src.read_slice(available));
        assert(payload@ =~= old(src)@);
        Ok(Unparsed { payload })
    }
}

} // verus!
