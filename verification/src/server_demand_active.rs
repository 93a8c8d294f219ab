//! The Demand Active message in the form in which the server sends it.
use crate::codec::{Encoded, Parsed, PduDecode, PduEncode};
use crate::cursor::{ReadCursor, WriteCursor};
use crate::demand_active::{DemandActive, DemandActiveView};
use crate::error::{PduError, PduResult};
use crate::wire::u32_le;
use vstd::prelude::*;

verus! {

/// The size of the field that closes the server's form.
pub const SESSION_ID_FIELD_SIZE: usize = 4;

/// The Demand Active message as the server sends it: the message, closed by a
/// field of four bytes that the client ignores.
#[derive(Debug, Clone, PartialEq, Eq)]
pub struct ServerDemandActive {
    pub pdu: DemandActive,
}

/// What the server's form of the message says.
pub struct ServerDemandActiveView {
    pub pdu: DemandActiveView,
}

impl View for ServerDemandActive {
    type V = ServerDemandActiveView;

    open spec fn view(&self) -> ServerDemandActiveView {
        ServerDemandActiveView { pdu: self.pdu@ }
    }
}

impl ServerDemandActiveView {
    /// The number of bytes of the form on the wire.
    pub open spec fn size(self) -> nat {
        ServerDemandActive::FIXED_PART_SIZE as nat + self.pdu.size()
    }

    /// The bytes of the form are as many as its size says.
    pub proof fn size_is_wire_length(self)
        ensures
            ServerDemandActive::wire(self).len() == self.size(),
    {
        self.pdu.size_is_wire_length();
    }
}

impl ServerDemandActive {
    /// The size of the field that closes the form.
    pub const FIXED_PART_SIZE: usize = SESSION_ID_FIELD_SIZE;
}

impl PduEncode for ServerDemandActive {
    /// The message, then four bytes of zeros.
    open spec fn wire(value: ServerDemandActiveView) -> Seq<u8> {
        DemandActive::wire(value.pdu) + u32_le(0)
    }

    /// The form fits where the message in it fits.
    open spec fn fits(value: ServerDemandActiveView) -> bool {
        DemandActive::fits(value.pdu)
    }

    /// An encoder writes nothing where the form has no room. Where the message
    /// in it fails, it has written what the message's encoder had written by
    /// then.
    open spec fn encoded(value: ServerDemandActiveView, room: nat) -> Encoded {
        if room < value.size() {
            Encoded {
                outcome: Err(
                    PduError::NotEnoughBytes {
                        received: room as usize,
                        expected: value.size() as usize,
                    },
                ),
                written: Seq::empty(),
            }
        } else {
            let pdu = DemandActive::encoded(value.pdu, room);
            match pdu.outcome {
                Err(_) => pdu,
                Ok(()) => Encoded { outcome: Ok(()), written: Self::wire(value) },
            }
        }
    }

    proof fn encoder_is_faithful(value: ServerDemandActiveView, room: nat) {
        value.size_is_wire_length();
    }

    fn name(&self) -> (name: &'static str)
        ensures
            name@ == "ServerDemandActive"@,
    {
        "ServerDemandActive"
    }

    fn size(&self) -> (n: usize)
        ensures
            n == self@.size(),
    {
        proof {
            self@.size_is_wire_length();
            self@.pdu.size_is_wire_length();
        }
        ServerDemandActive::FIXED_PART_SIZE + self.pdu.size()
    }

    fn encode(&self, dst: &mut WriteCursor) -> (res: PduResult<()>)
        ensures
            res is Ok <==> self@.size() <= old(dst).unwritten().len() && Self::fits(self@),
            res is Ok ==> final(dst).written() == old(dst).written() + Self::wire(self@),
    {
        proof {
            self@.pdu.size_is_wire_length();
        }
        let size: usize = self.size();
        let room: usize = dst.len();
        if room < size {
            assert(dst.written() + Seq::<u8>::empty() =~= dst.written());
            assert(dst.unwritten().skip(0) =~= dst.unwritten());
            return Err(PduError::NotEnoughBytes { received: room, expected: size });
        }
        self.pdu.encode(dst)?;
        dst.write_u32(0);  // The client ignores this field.
        assert(final(dst).unwritten() =~= old(dst).unwritten().skip(size as int));
        Ok(())
    }
}

impl PduDecode for ServerDemandActive {
    /// A decoder reads the message, then passes over the four bytes behind it,
    /// whatever they hold.
    open spec fn parse(s: Seq<u8>) -> Parsed<ServerDemandActiveView> {
        let pdu = DemandActive::parse(s);
        match pdu.outcome {
            Err(e) => Parsed { outcome: Err(e), consumed: pdu.consumed },
            Ok(message) => if s.len() - pdu.consumed < SESSION_ID_FIELD_SIZE {
                Parsed {
                    outcome: Err(
                        PduError::NotEnoughBytes {
                            received: (s.len() - pdu.consumed) as usize,
                            expected: SESSION_ID_FIELD_SIZE,
                        },
                    ),
                    consumed: pdu.consumed,
                }
            } else {
                Parsed {
                    outcome: Ok(ServerDemandActiveView { pdu: message }),
                    consumed: pdu.consumed + SESSION_ID_FIELD_SIZE as nat,
                }
            },
        }
    }

    proof fn parse_stays_in_bounds(s: Seq<u8>) {
        DemandActive::parse_stays_in_bounds(s);
    }

    proof fn round_trip(value: ServerDemandActiveView) {
        let stream = Self::wire(value);
        value.pdu.round_trip_in_stream(u32_le(0));
        let pdu = DemandActive::parse(stream);
        assert(pdu.outcome == Ok::<DemandActiveView, PduError>(value.pdu));
        assert(stream.len() - pdu.consumed == SESSION_ID_FIELD_SIZE);
    }

    fn decode(src: &mut ReadCursor<'_>) -> (res: PduResult<ServerDemandActive>)
        ensures
            res is Ok <==> Self::parse(old(src)@).outcome is Ok,
    {
        proof {
            DemandActive::parse_stays_in_bounds(src@);
        }
        let pdu = DemandActive::decode(src)?;
        let available: usize = src.len();
        if available < SESSION_ID_FIELD_SIZE {
            return Err(
                PduError::NotEnoughBytes { received: available, expected: SESSION_ID_FIELD_SIZE },
            );
        }
        let _session_id: u32 = src.read_u32();
        Ok(ServerDemandActive { pdu })
    }
}

} // verus!
