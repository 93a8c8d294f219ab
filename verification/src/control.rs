//! The control capability set.
use crate::codec::{Encoded, Parsed, PduDecode, PduEncode};
use crate::cursor::{ReadCursor, WriteCursor};
use crate::error::{PduError, PduResult};
use crate::wire::{u16_from_le, u16_le};
use vstd::prelude::*;

verus! {

/// The control capability set: four 16-bit fields. A sender builds it with
/// [`Control::new`]; a receiver keeps whatever the peer has sent.
#[derive(Debug, PartialEq, Eq, Clone)]
pub struct Control {
    control_flags: u16,
    remote_detach_flag: u16,
    control_interest: u16,
    detach_interest: u16,
}

/// What a control capability set says.
pub struct ControlView {
    pub control_flags: u16,
    pub remote_detach_flag: u16,
    pub control_interest: u16,
    pub detach_interest: u16,
}

impl View for Control {
    type V = ControlView;

    closed spec fn view(&self) -> ControlView {
        ControlView {
            control_flags: self.control_flags,
            remote_detach_flag: self.remote_detach_flag,
            control_interest: self.control_interest,
            detach_interest: self.detach_interest,
        }
    }
}

impl ControlView {
    /// The fields of a set that a sender builds: no flags, no remote detach,
    /// and both interests set to "never".
    pub open spec fn initial() -> ControlView {
        ControlView {
            control_flags: 0x0000,
            remote_detach_flag: 0x0000,
            control_interest: 0x0002,
            detach_interest: 0x0002,
        }
    }
}

impl Default for Control {
    fn default() -> (control: Self)
        ensures
            control@ == ControlView::initial(),
    {
        Control::new()
    }
}

impl Control {
    /// The size of the payload in bytes.
    pub const FIXED_PART_SIZE: usize = 8;

    /// The set that a sender announces.
    pub fn new() -> (control: Self)
        ensures
            control@ == ControlView::initial(),
    {
        Control {
            control_flags: 0x0000,  // should be zero
            remote_detach_flag: 0x0000,  // should be false
            control_interest: 0x0002,  // should be "never"
            detach_interest: 0x0002,  // should be "never"
        }
    }
}

impl PduEncode for Control {
    /// The four fields in their order.
    open spec fn wire(value: ControlView) -> Seq<u8> {
        u16_le(value.control_flags) + u16_le(value.remote_detach_flag) + u16_le(
            value.control_interest,
        ) + u16_le(value.detach_interest)
    }

    open spec fn fits(value: ControlView) -> bool {
        true
    }

    /// An encoder that has no room for the payload writes nothing.
    open spec fn encoded(value: ControlView, room: nat) -> Encoded {
        if room < Control::FIXED_PART_SIZE {
            Encoded {
                outcome: Err(
                    PduError::NotEnoughBytes {
                        received: room as usize,
                        expected: Control::FIXED_PART_SIZE,
                    },
                ),
                written: Seq::empty(),
            }
        } else {
            Encoded { outcome: Ok(()), written: Self::wire(value) }
        }
    }

    proof fn encoder_is_faithful(value: ControlView, room: nat) {
    }

    fn name(&self) -> (name: &'static str)
        ensures
            name@ == "Control"@,
    {
        "Control"
    }

    fn size(&self) -> (n: usize)
        ensures
            n == Control::FIXED_PART_SIZE,
    {
        Control::FIXED_PART_SIZE
    }

    fn encode(&self, dst: &mut WriteCursor) -> (res: PduResult<()>)
        ensures
            res is Ok <==> Control::FIXED_PART_SIZE <= old(dst).unwritten().len(),
            res is Ok ==> final(dst).written() == old(dst).written() + Self::wire(self@),
    {
        let room: usize = dst.len();
        if room < Control::FIXED_PART_SIZE {
            return Err(
                PduError::NotEnoughBytes { received: room, expected: Control::FIXED_PART_SIZE },
            );
        }
        dst.write_u16(self.control_flags);
        dst.write_u16(self.remote_detach_flag);
        dst.write_u16(self.control_interest);
        dst.write_u16(self.detach_interest);
        Ok(())
    }
}

impl PduDecode for Control {
    /// A decoder needs eight bytes and reads the four fields from them.
    open spec fn parse(s: Seq<u8>) -> Parsed<ControlView> {
        if s.len() < Control::FIXED_PART_SIZE {
            Parsed {
                outcome: Err(
                    PduError::NotEnoughBytes {
                        received: s.len() as usize,
                        expected: Control::FIXED_PART_SIZE,
                    },
                ),
                consumed: 0,
            }
        } else {
            Parsed {
                outcome: Ok(
                    ControlView {
                        control_flags: u16_from_le(s),
                        remote_detach_flag: u16_from_le(s.skip(2)),
                        control_interest: u16_from_le(s.skip(4)),
                        detach_interest: u16_from_le(s.skip(6)),
                    },
                ),
                consumed: Control::FIXED_PART_SIZE as nat,
            }
        }
    }

    proof fn parse_stays_in_bounds(s: Seq<u8>) {
    }

    proof fn round_trip(value: ControlView) {
    }

    fn decode(src: &mut ReadCursor<'_>) -> (res: PduResult<Control>)
        ensures
            res is Ok <==> Control::FIXED_PART_SIZE <= old(src)@.len(),
    {
        let available: usize = src.len();
        if available < Control::FIXED_PART_SIZE {
            return Err(
                PduError::NotEnoughBytes {
                    received: available,
                    expected: Control::FIXED_PART_SIZE,
                },
            );
        }
        let control_flags: u16 = src.read_u16();
        let remote_detach_flag: u16 = src.read_u16();
        let control_interest: u16 = src.read_u16();
        let detach_interest: u16 = src.read_u16();
        Ok(Control { control_flags, remote_detach_flag, control_interest, detach_interest })
    }
}

} // verus!
