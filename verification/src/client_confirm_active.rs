//! The Confirm Active message, with which the client answers the server.
use crate::codec::{Encoded, Parsed, PduDecode, PduEncode};
use crate::cursor::{ReadCursor, WriteCursor};
use crate::demand_active::{DemandActive, DemandActiveView};
use crate::error::{PduError, PduResult};
use crate::wire::{u16_from_le, u16_le};
use vstd::prelude::*;

verus! {

/// The channel of the server, which a client is expected to name as the
/// originator of its confirmation.
pub const SERVER_CHANNEL_ID: u16 = 0x03ea;

/// The size of the field that opens the client's form.
pub const ORIGINATOR_ID_FIELD_SIZE: usize = 2;

/// The Confirm Active message of the client: the identifier of the
/// originator, then the message.
///
/// A client is expected to name [`SERVER_CHANNEL_ID`] as the originator, but
/// clients are known that name what the server has sent them as its source.
/// Neither direction checks the identifier here: that is for the caller.
#[derive(Debug, Clone, PartialEq, Eq)]
pub struct ClientConfirmActive {
    pub originator_id: u16,
    pub pdu: DemandActive,
}

/// What the client's form of the message says.
pub struct ClientConfirmActiveView {
    pub originator_id: u16,
    pub pdu: DemandActiveView,
}

impl View for ClientConfirmActive {
    type V = ClientConfirmActiveView;

    open spec fn view(&self) -> ClientConfirmActiveView {
        ClientConfirmActiveView { originator_id: self.originator_id, pdu: self.pdu@ }
    }
}

impl ClientConfirmActiveView {
    /// The number of bytes of the form on the wire.
    pub open spec fn size(self) -> nat {
        ClientConfirmActive::FIXED_PART_SIZE as nat + self.pdu.size()
    }

    /// The bytes of the form are as many as its size says.
    pub proof fn size_is_wire_length(self)
        ensures
            ClientConfirmActive::wire(self).len() == self.size(),
    {
        self.pdu.size_is_wire_length();
    }
}

impl ClientConfirmActive {
    /// The size of the field that opens the form.
    pub const FIXED_PART_SIZE: usize = ORIGINATOR_ID_FIELD_SIZE;
}

impl PduEncode for ClientConfirmActive {
    /// The originator, then the message.
    open spec fn wire(value: ClientConfirmActiveView) -> Seq<u8> {
        u16_le(value.originator_id) + DemandActive::wire(value.pdu)
    }

    /// The form fits where the message in it fits.
    open spec fn fits(value: ClientConfirmActiveView) -> bool {
        DemandActive::fits(value.pdu)
    }

    /// An encoder writes nothing where the originator has no room. Behind the
    /// originator it has written what the message's encoder writes in the room
    /// that is left.
    open spec fn encoded(value: ClientConfirmActiveView, room: nat) -> Encoded {
        if room < ClientConfirmActive::FIXED_PART_SIZE {
            Encoded {
                outcome: Err(
                    PduError::NotEnoughBytes {
                        received: room as usize,
                        expected: ClientConfirmActive::FIXED_PART_SIZE,
                    },
                ),
                written: Seq::empty(),
            }
        } else {
            let pdu = DemandActive::encoded(
                value.pdu,
                (room - ClientConfirmActive::FIXED_PART_SIZE) as nat,
            );
            Encoded { outcome: pdu.outcome, written: u16_le(value.originator_id) + pdu.written }
        }
    }

    proof fn encoder_is_faithful(value: ClientConfirmActiveView, room: nat) {
        if room >= 2 {
            DemandActive::encoder_is_faithful(value.pdu, (room - 2) as nat);
        }
    }

    fn name(&self) -> (name: &'static str)
        ensures
            name@ == "ClientConfirmActive"@,
    {
        "ClientConfirmActive"
    }

    fn size(&self) -> (n: usize)
        ensures
            n == self@.size(),
    {
        ClientConfirmActive::FIXED_PART_SIZE + self.pdu.size()
    }

    fn encode(&self, dst: &mut WriteCursor) -> (res: PduResult<()>)
        ensures
            res is Ok <==> self@.size() <= old(dst).unwritten().len() && Self::fits(self@),
            res is Ok ==> final(dst).written() == old(dst).written() + Self::wire(self@),
    {
        let room: usize = dst.len();
        if room < ClientConfirmActive::FIXED_PART_SIZE {
            return Err(
                PduError::NotEnoughBytes {
                    received: room,
                    expected: ClientConfirmActive::FIXED_PART_SIZE,
                },
            );
        }
        dst.write_u16(self.originator_id);
        proof {
            DemandActive::encoder_is_faithful(self@.pdu, (room - 2) as nat);
        }
        let res = self.pdu.encode(dst);
        res
    }
}

impl PduDecode for ClientConfirmActive {
    /// A decoder reads the originator, then the message.
    open spec fn parse(s: Seq<u8>) -> Parsed<ClientConfirmActiveView> {
        if s.len() < ClientConfirmActive::FIXED_PART_SIZE {
            Parsed {
                outcome: Err(
                    PduError::NotEnoughBytes {
                        received: s.len() as usize,
                        expected: ClientConfirmActive::FIXED_PART_SIZE,
                    },
                ),
                consumed: 0,
            }
        } else {
            let pdu = DemandActive::parse(s.skip(2));
            Parsed {
                outcome: match pdu.outcome {
                    Ok(message) => Ok(
                        ClientConfirmActiveView { originator_id: u16_from_le(s), pdu: message },
                    ),
                    Err(e) => Err(e),
                },
                consumed: ClientConfirmActive::FIXED_PART_SIZE as nat + pdu.consumed,
            }
        }
    }

    proof fn parse_stays_in_bounds(s: Seq<u8>) {
        if s.len() >= 2 {
            DemandActive::parse_stays_in_bounds(s.skip(2));
        }
    }

    proof fn round_trip(value: ClientConfirmActiveView) {
        assert(Self::wire(value).skip(2) =~= DemandActive::wire(value.pdu));
        DemandActive::round_trip(value.pdu);
    }

    fn decode(src: &mut ReadCursor<'_>) -> (res: PduResult<ClientConfirmActive>)
        ensures
            res is Ok <==> Self::parse(old(src)@).outcome is Ok,
    {
        let available: usize = src.len();
        if available < ClientConfirmActive::FIXED_PART_SIZE {
            return Err(
                PduError::NotEnoughBytes {
                    received: available,
                    expected: ClientConfirmActive::FIXED_PART_SIZE,
                },
            );
        }
        let originator_id: u16 = src.read_u16();
        proof {
            DemandActive::parse_stays_in_bounds(src@);
        }
        let pdu = DemandActive::decode(src)?;
        Ok(ClientConfirmActive { originator_id, pdu })
    }
}

} // verus!
