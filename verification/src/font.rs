//! The font capability set.
use crate::codec::{Encoded, Parsed, PduDecode, PduEncode};
use crate::cursor::{ReadCursor, WriteCursor};
use crate::error::{PduError, PduResult};
use crate::wire::{u16_from_le, u16_le};
use vstd::prelude::*;

verus! {

/// The font support flags, sixteen bits of them.
#[derive(Debug, PartialEq, Eq, Clone)]
pub struct FontSupportFlags(u16);

impl View for FontSupportFlags {
    type V = u16;

    /// The sixteen bits.
    closed spec fn view(&self) -> u16 {
        self.0
    }
}

impl FontSupportFlags {
    /// The flag that says that font lists are supported.
    pub fn fontsupport_fontlist() -> (flags: Self)
        ensures
            flags@ == 0x0001,
    {
        FontSupportFlags(0x0001)
    }
}

/// The font capability set: the font support flags and two bytes of padding.
#[derive(Debug, PartialEq, Eq, Clone)]
pub struct Font {
    pub font_support_flags: FontSupportFlags,
}

/// What a font capability set says.
pub struct FontView {
    pub font_support_flags: u16,
}

impl View for Font {
    type V = FontView;

    open spec fn view(&self) -> FontView {
        FontView { font_support_flags: self.font_support_flags@ }
    }
}

impl Font {
    /// The size of the payload in bytes.
    pub const FIXED_PART_SIZE: usize = 4;
}

impl PduEncode for Font {
    /// The flags, then padding of zeros.
    open spec fn wire(value: FontView) -> Seq<u8> {
        u16_le(value.font_support_flags) + u16_le(0)
    }

    open spec fn fits(value: FontView) -> bool {
        true
    }

    /// An encoder that has no room for the payload writes nothing.
    open spec fn encoded(value: FontView, room: nat) -> Encoded {
        if room < Font::FIXED_PART_SIZE {
            Encoded {
                outcome: Err(
                    PduError::NotEnoughBytes {
                        received: room as usize,
                        expected: Font::FIXED_PART_SIZE,
                    },
                ),
                written: Seq::empty(),
            }
        } else {
            Encoded { outcome: Ok(()), written: Self::wire(value) }
        }
    }

    proof fn encoder_is_faithful(value: FontView, room: nat) {
    }

    fn name(&self) -> (name: &'static str)
        ensures
            name@ == "Font"@,
    {
        "Font"
    }

    fn size(&self) -> (n: usize)
        ensures
            n == Font::FIXED_PART_SIZE,
    {
        Font::FIXED_PART_SIZE
    }

    fn encode(&self, dst: &mut WriteCursor) -> (res: PduResult<()>)
        ensures
            res is Ok <==> Font::FIXED_PART_SIZE <= old(dst).unwritten().len(),
            res is Ok ==> final(dst).written() == old(dst).written() + Self::wire(self@),
    {
        let room: usize = dst.len();
        if room < Font::FIXED_PART_SIZE {
            return Err(
                PduError::NotEnoughBytes { received: room, expected: Font::FIXED_PART_SIZE },
            );
        }
        dst.write_u16(self.font_support_flags.0);
        dst.write_u16(0);
        Ok(())
    }
}

impl PduDecode for Font {
    /// A decoder needs four bytes. It reads the flags from the first two and
    /// passes over the padding, whatever it holds.
    open spec fn parse(s: Seq<u8>) -> Parsed<FontView> {
        if s.len() < Font::FIXED_PART_SIZE {
            Parsed {
                outcome: Err(
                    PduError::NotEnoughBytes {
                        received: s.len() as usize,
                        expected: Font::FIXED_PART_SIZE,
                    },
                ),
                consumed: 0,
            }
        } else {
            Parsed {
                outcome: Ok(FontView { font_support_flags: u16_from_le(s) }),
                consumed: Font::FIXED_PART_SIZE as nat,
            }
        }
    }

    proof fn parse_stays_in_bounds(s: Seq<u8>) {
    }

    proof fn round_trip(value: FontView) {
    }

    fn decode(src: &mut ReadCursor<'_>) -> (res: PduResult<Font>)
        ensures
            res is Ok <==> Font::FIXED_PART_SIZE <= old(src)@.len(),
    {
        let available: usize = src.len();
        if available < Font::FIXED_PART_SIZE {
            return Err(
                PduError::NotEnoughBytes {
                    received: available,
                    expected: Font::FIXED_PART_SIZE,
                },
            );
        }
        let font_support_flags = FontSupportFlags(src.read_u16());
        let _padding: u16 = src.read_u16();
        Ok(Font { font_support_flags })
    }
}

} // verus!
