//! A capability set: one record of the negotiation, made of a type code, its
//! own length and a payload.
use crate::capability_type::CapabilitySetType;
use crate::codec::{decode, Encoded, Parsed, PduDecode, PduEncode};
use crate::color_cache::ColorCache;
use crate::control::{Control, ControlView};
use crate::cursor::{ReadCursor, WriteCursor};
use crate::error::{PduError, PduResult};
use crate::font::{Font, FontView};
use crate::unparsed::Unparsed;
use crate::wire::{cast_length, u16_from_le, u16_le};
use vstd::prelude::*;
use vstd::slice::slice_to_vec;

verus! {

/// A capability set. The type code on the wire decides the variant.
///
/// The payload comes in three forms. The control, font and color cache sets
/// are taken apart into their fields. The other sets that have fields hold
/// them as [`Unparsed`]. The rest is opaque to the protocol at this level and
/// holds plain bytes.
#[derive(Debug, Clone, PartialEq, Eq)]
pub enum CapabilitySet {
    // mandatory
    General(Unparsed),
    Bitmap(Unparsed),
    Order(Unparsed),
    BitmapCache(Unparsed),
    BitmapCacheRev2(Unparsed),
    Pointer(Unparsed),
    Sound(Unparsed),
    Input(Unparsed),
    Brush(Unparsed),
    GlyphCache(Unparsed),
    OffscreenBitmapCache(Unparsed),
    VirtualChannel(Unparsed),
    // optional
    Control(Control),
    WindowActivation(Vec<u8>),
    Share(Vec<u8>),
    Font(Font),
    BitmapCacheHostSupport(Vec<u8>),
    DesktopComposition(Vec<u8>),
    MultiFragmentUpdate(Unparsed),
    LargePointer(Unparsed),
    SurfaceCommands(Unparsed),
    BitmapCodecs(Unparsed),
    // other
    ColorCache(ColorCache),
    DrawNineGridCache(Vec<u8>),
    DrawGdiPlus(Vec<u8>),
    Rail(Vec<u8>),
    WindowList(Vec<u8>),
    FrameAcknowledge(Unparsed),
}

/// What a capability set says: its variant, and its fields or the bytes of its
/// payload.
pub enum CapabilitySetView {
    General(Seq<u8>),
    Bitmap(Seq<u8>),
    Order(Seq<u8>),
    BitmapCache(Seq<u8>),
    BitmapCacheRev2(Seq<u8>),
    Pointer(Seq<u8>),
    Sound(Seq<u8>),
    Input(Seq<u8>),
    Brush(Seq<u8>),
    GlyphCache(Seq<u8>),
    OffscreenBitmapCache(Seq<u8>),
    VirtualChannel(Seq<u8>),
    Control(ControlView),
    WindowActivation(Seq<u8>),
    Share(Seq<u8>),
    Font(FontView),
    BitmapCacheHostSupport(Seq<u8>),
    DesktopComposition(Seq<u8>),
    MultiFragmentUpdate(Seq<u8>),
    LargePointer(Seq<u8>),
    SurfaceCommands(Seq<u8>),
    BitmapCodecs(Seq<u8>),
    ColorCache(ColorCache),
    DrawNineGridCache(Seq<u8>),
    DrawGdiPlus(Seq<u8>),
    Rail(Seq<u8>),
    WindowList(Seq<u8>),
    FrameAcknowledge(Seq<u8>),
}

impl View for CapabilitySet {
    type V = CapabilitySetView;

    open spec fn view(&self) -> CapabilitySetView {
        match self {
            CapabilitySet::General(fields) => CapabilitySetView::General(fields@),
            CapabilitySet::Bitmap(fields) => CapabilitySetView::Bitmap(fields@),
            CapabilitySet::Order(fields) => CapabilitySetView::Order(fields@),
            CapabilitySet::BitmapCache(fields) => CapabilitySetView::BitmapCache(fields@),
            CapabilitySet::BitmapCacheRev2(fields) => CapabilitySetView::BitmapCacheRev2(fields@),
            CapabilitySet::Pointer(fields) => CapabilitySetView::Pointer(fields@),
            CapabilitySet::Sound(fields) => CapabilitySetView::Sound(fields@),
            CapabilitySet::Input(fields) => CapabilitySetView::Input(fields@),
            CapabilitySet::Brush(fields) => CapabilitySetView::Brush(fields@),
            CapabilitySet::GlyphCache(fields) => CapabilitySetView::GlyphCache(fields@),
            CapabilitySet::OffscreenBitmapCache(fields) => {
                CapabilitySetView::OffscreenBitmapCache(fields@)
            },
            CapabilitySet::VirtualChannel(fields) => CapabilitySetView::VirtualChannel(fields@),
            CapabilitySet::Control(control) => CapabilitySetView::Control(control@),
            CapabilitySet::WindowActivation(buffer) => CapabilitySetView::WindowActivation(buffer@),
            CapabilitySet::Share(buffer) => CapabilitySetView::Share(buffer@),
            CapabilitySet::Font(font) => CapabilitySetView::Font(font@),
            CapabilitySet::BitmapCacheHostSupport(buffer) => {
                CapabilitySetView::BitmapCacheHostSupport(buffer@)
            },
            CapabilitySet::DesktopComposition(buffer) => {
                CapabilitySetView::DesktopComposition(buffer@)
            },
            CapabilitySet::MultiFragmentUpdate(fields) => {
                CapabilitySetView::MultiFragmentUpdate(fields@)
            },
            CapabilitySet::LargePointer(fields) => CapabilitySetView::LargePointer(fields@),
            CapabilitySet::SurfaceCommands(fields) => CapabilitySetView::SurfaceCommands(fields@),
            CapabilitySet::BitmapCodecs(fields) => CapabilitySetView::BitmapCodecs(fields@),
            CapabilitySet::ColorCache(cache) => CapabilitySetView::ColorCache(cache@),
            CapabilitySet::DrawNineGridCache(buffer) => {
                CapabilitySetView::DrawNineGridCache(buffer@)
            },
            CapabilitySet::DrawGdiPlus(buffer) => CapabilitySetView::DrawGdiPlus(buffer@),
            CapabilitySet::Rail(buffer) => CapabilitySetView::Rail(buffer@),
            CapabilitySet::WindowList(buffer) => CapabilitySetView::WindowList(buffer@),
            CapabilitySet::FrameAcknowledge(fields) => CapabilitySetView::FrameAcknowledge(fields@),
        }
    }
}

impl CapabilitySetView {
    /// The type of the set, whose code goes first on the wire.
    pub open spec fn capability_type(self) -> CapabilitySetType {
        match self {
            CapabilitySetView::General(_) => CapabilitySetType::General,
            CapabilitySetView::Bitmap(_) => CapabilitySetType::Bitmap,
            CapabilitySetView::Order(_) => CapabilitySetType::Order,
            CapabilitySetView::BitmapCache(_) => CapabilitySetType::BitmapCache,
            CapabilitySetView::BitmapCacheRev2(_) => CapabilitySetType::BitmapCacheRev2,
            CapabilitySetView::Pointer(_) => CapabilitySetType::Pointer,
            CapabilitySetView::Sound(_) => CapabilitySetType::Sound,
            CapabilitySetView::Input(_) => CapabilitySetType::Input,
            CapabilitySetView::Brush(_) => CapabilitySetType::Brush,
            CapabilitySetView::GlyphCache(_) => CapabilitySetType::GlyphCache,
            CapabilitySetView::OffscreenBitmapCache(_) => CapabilitySetType::OffscreenBitmapCache,
            CapabilitySetView::VirtualChannel(_) => CapabilitySetType::VirtualChannel,
            CapabilitySetView::Control(_) => CapabilitySetType::Control,
            CapabilitySetView::WindowActivation(_) => CapabilitySetType::WindowActivation,
            CapabilitySetView::Share(_) => CapabilitySetType::Share,
            CapabilitySetView::Font(_) => CapabilitySetType::Font,
            CapabilitySetView::BitmapCacheHostSupport(_) => {
                CapabilitySetType::BitmapCacheHostSupport
            },
            CapabilitySetView::DesktopComposition(_) => CapabilitySetType::DesktopComposition,
            CapabilitySetView::MultiFragmentUpdate(_) => CapabilitySetType::MultiFragmentUpdate,
            CapabilitySetView::LargePointer(_) => CapabilitySetType::LargePointer,
            CapabilitySetView::SurfaceCommands(_) => CapabilitySetType::SurfaceCommands,
            CapabilitySetView::BitmapCodecs(_) => CapabilitySetType::BitmapCodecs,
            CapabilitySetView::ColorCache(_) => CapabilitySetType::ColorCache,
            CapabilitySetView::DrawNineGridCache(_) => CapabilitySetType::DrawNineGridCache,
            CapabilitySetView::DrawGdiPlus(_) => CapabilitySetType::DrawGdiPlus,
            CapabilitySetView::Rail(_) => CapabilitySetType::Rail,
            CapabilitySetView::WindowList(_) => CapabilitySetType::WindowList,
            CapabilitySetView::FrameAcknowledge(_) => CapabilitySetType::FrameAcknowledge,
        }
    }

    /// The bytes of the payload, which follow the header on the wire.
    pub open spec fn payload(self) -> Seq<u8> {
        match self {
            CapabilitySetView::General(payload) => payload,
            CapabilitySetView::Bitmap(payload) => payload,
            CapabilitySetView::Order(payload) => payload,
            CapabilitySetView::BitmapCache(payload) => payload,
            CapabilitySetView::BitmapCacheRev2(payload) => payload,
            CapabilitySetView::Pointer(payload) => payload,
            CapabilitySetView::Sound(payload) => payload,
            CapabilitySetView::Input(payload) => payload,
            CapabilitySetView::Brush(payload) => payload,
            CapabilitySetView::GlyphCache(payload) => payload,
            CapabilitySetView::OffscreenBitmapCache(payload) => payload,
            CapabilitySetView::VirtualChannel(payload) => payload,
            CapabilitySetView::Control(control) => Control::wire(control),
            CapabilitySetView::WindowActivation(payload) => payload,
            CapabilitySetView::Share(payload) => payload,
            CapabilitySetView::Font(font) => Font::wire(font),
            CapabilitySetView::BitmapCacheHostSupport(payload) => payload,
            CapabilitySetView::DesktopComposition(payload) => payload,
            CapabilitySetView::MultiFragmentUpdate(payload) => payload,
            CapabilitySetView::LargePointer(payload) => payload,
            CapabilitySetView::SurfaceCommands(payload) => payload,
            CapabilitySetView::BitmapCodecs(payload) => payload,
            CapabilitySetView::ColorCache(cache) => ColorCache::wire(cache),
            CapabilitySetView::DrawNineGridCache(payload) => payload,
            CapabilitySetView::DrawGdiPlus(payload) => payload,
            CapabilitySetView::Rail(payload) => payload,
            CapabilitySetView::WindowList(payload) => payload,
            CapabilitySetView::FrameAcknowledge(payload) => payload,
        }
    }

    /// The number of bytes of the set on the wire: the header and the payload.
    pub open spec fn size(self) -> nat {
        CapabilitySet::FIXED_PART_SIZE as nat + self.payload().len()
    }

    /// The set of type `ty` whose payload is `payload`. The sets that are taken
    /// apart read their fields from the front of the payload and fail where it
    /// is too short for them. The others keep the payload as it is.
    pub open spec fn from_payload(ty: CapabilitySetType, payload: Seq<u8>) -> Result<
        CapabilitySetView,
        PduError,
    > {
        match ty {
            CapabilitySetType::General => Ok(CapabilitySetView::General(payload)),
            CapabilitySetType::Bitmap => Ok(CapabilitySetView::Bitmap(payload)),
            CapabilitySetType::Order => Ok(CapabilitySetView::Order(payload)),
            CapabilitySetType::BitmapCache => Ok(CapabilitySetView::BitmapCache(payload)),
            CapabilitySetType::BitmapCacheRev2 => Ok(CapabilitySetView::BitmapCacheRev2(payload)),
            CapabilitySetType::Pointer => Ok(CapabilitySetView::Pointer(payload)),
            CapabilitySetType::Sound => Ok(CapabilitySetView::Sound(payload)),
            CapabilitySetType::Input => Ok(CapabilitySetView::Input(payload)),
            CapabilitySetType::Brush => Ok(CapabilitySetView::Brush(payload)),
            CapabilitySetType::GlyphCache => Ok(CapabilitySetView::GlyphCache(payload)),
            CapabilitySetType::OffscreenBitmapCache => {
                Ok(CapabilitySetView::OffscreenBitmapCache(payload))
            },
            CapabilitySetType::VirtualChannel => Ok(CapabilitySetView::VirtualChannel(payload)),
            CapabilitySetType::Control => match Control::parse(payload).outcome {
                Ok(control) => Ok(CapabilitySetView::Control(control)),
                Err(e) => Err(e),
            },
            CapabilitySetType::WindowActivation => Ok(CapabilitySetView::WindowActivation(payload)),
            CapabilitySetType::Share => Ok(CapabilitySetView::Share(payload)),
            CapabilitySetType::Font => match Font::parse(payload).outcome {
                Ok(font) => Ok(CapabilitySetView::Font(font)),
                Err(e) => Err(e),
            },
            CapabilitySetType::BitmapCacheHostSupport => {
                Ok(CapabilitySetView::BitmapCacheHostSupport(payload))
            },
            CapabilitySetType::DesktopComposition => {
                Ok(CapabilitySetView::DesktopComposition(payload))
            },
            CapabilitySetType::MultiFragmentUpdate => {
                Ok(CapabilitySetView::MultiFragmentUpdate(payload))
            },
            CapabilitySetType::LargePointer => Ok(CapabilitySetView::LargePointer(payload)),
            CapabilitySetType::SurfaceCommands => Ok(CapabilitySetView::SurfaceCommands(payload)),
            CapabilitySetType::BitmapCodecs => Ok(CapabilitySetView::BitmapCodecs(payload)),
            CapabilitySetType::ColorCache => match ColorCache::parse(payload).outcome {
                Ok(cache) => Ok(CapabilitySetView::ColorCache(cache)),
                Err(e) => Err(e),
            },
            CapabilitySetType::DrawNineGridCache => {
                Ok(CapabilitySetView::DrawNineGridCache(payload))
            },
            CapabilitySetType::DrawGdiPlus => Ok(CapabilitySetView::DrawGdiPlus(payload)),
            CapabilitySetType::Rail => Ok(CapabilitySetView::Rail(payload)),
            CapabilitySetType::WindowList => Ok(CapabilitySetView::WindowList(payload)),
            CapabilitySetType::FrameAcknowledge => Ok(CapabilitySetView::FrameAcknowledge(payload)),
        }
    }

    /// The bytes of a set are as many as its size says.
    pub proof fn size_is_wire_length(self)
        ensures
            CapabilitySet::wire(self).len() == self.size(),
    {
    }

    /// The length field of an encoded set holds four plus the size of the
    /// payload, and the type field holds the code of the set's type.
    pub proof fn header_is_honest(self)
        requires
            CapabilitySet::fits(self),
        ensures
            u16_from_le(CapabilitySet::wire(self)) == self.capability_type().code(),
            u16_from_le(CapabilitySet::wire(self).skip(2)) == 4 + self.payload().len(),
    {
    }

    /// A set is decoded from the front of any stream that starts with its
    /// bytes, and the decoder stops where the set ends: what follows a set has
    /// no part in it. For a set that holds its payload as bytes, the bytes come
    /// back one for one.
    pub proof fn round_trip_in_stream(self, rest: Seq<u8>)
        requires
            CapabilitySet::fits(self),
        ensures
            CapabilitySet::parse(CapabilitySet::wire(self) + rest) == (Parsed {
                outcome: Ok(self),
                consumed: CapabilitySet::wire(self).len(),
            }),
    {
        let stream = CapabilitySet::wire(self) + rest;
        self.capability_type().code_is_registered();
        assert(stream.subrange(4, self.size() as int) =~= self.payload());
        match self {
            CapabilitySetView::Control(control) => Control::round_trip(control),
            CapabilitySetView::Font(font) => Font::round_trip(font),
            CapabilitySetView::ColorCache(cache) => ColorCache::round_trip(cache),
            _ => {},
        }
    }

    /// Whatever a decoder hands out can be encoded again: the set fits its
    /// length field, for it is no longer than the set that was read.
    pub proof fn decoded_set_fits(s: Seq<u8>)
        ensures
            CapabilitySet::parse(s).outcome matches Ok(set) ==> CapabilitySet::fits(set)
                && set.size() <= CapabilitySet::parse(s).consumed,
    {
    }

    /// What follows a set has no part in its decoding. Where `s` holds all the
    /// bytes that its first set declares, any stream that starts with those
    /// bytes is decoded as `s` is, whether the set is well formed or not.
    pub proof fn parse_ignores_what_follows(s: Seq<u8>, t: Seq<u8>)
        requires
            4 <= u16_from_le(s.skip(2)) <= s.len(),
            u16_from_le(s.skip(2)) <= t.len(),
            t.take(u16_from_le(s.skip(2)) as int) == s.take(u16_from_le(s.skip(2)) as int),
        ensures
            CapabilitySet::parse(t) == CapabilitySet::parse(s),
    {
        let length = u16_from_le(s.skip(2)) as int;
        let set = s.take(length);
        assert(t[0] == set[0] && t[1] == set[1] && t[2] == set[2] && t[3] == set[3]);
        assert(s.subrange(4, length) =~= set.subrange(4, length));
        assert(t.subrange(4, length) =~= set.subrange(4, length));
    }

    /// An encoded set whose length field alone is overwritten is rejected where
    /// the new length does not cover the header, and where it asks for more
    /// bytes than the set has.
    pub proof fn corrupted_length_is_rejected(self, length: u16)
        requires
            CapabilitySet::fits(self),
            length < 4 || length > self.size(),
        ensures
            ({
                let corrupted = u16_le(self.capability_type().code()) + u16_le(length)
                    + self.payload();
                CapabilitySet::parse(corrupted) == (Parsed::<CapabilitySetView> {
                    outcome: if length < 4 {
                        Err(PduError::InvalidLength)
                    } else {
                        Err(
                            PduError::NotEnoughBytes {
                                received: self.payload().len() as usize,
                                expected: (length - 4) as usize,
                            },
                        )
                    },
                    consumed: 4,
                })
            }),
    {
        self.capability_type().code_is_registered();
    }

    /// A header that declares less than its own four bytes is rejected,
    /// whatever follows it.
    pub proof fn short_length_is_rejected(s: Seq<u8>)
        requires
            s.len() >= 4,
            CapabilitySetType::from_code(u16_from_le(s)) is Some,
            u16_from_le(s.skip(2)) < 4,
        ensures
            CapabilitySet::parse(s) == (Parsed::<CapabilitySetView> {
                outcome: Err(PduError::InvalidLength),
                consumed: 4,
            }),
    {
    }

    /// A set that declares more bytes than there are is rejected, and the
    /// decoder has gone no further than the header.
    pub proof fn truncated_payload_is_rejected(s: Seq<u8>)
        requires
            s.len() >= 4,
            CapabilitySetType::from_code(u16_from_le(s)) is Some,
            u16_from_le(s.skip(2)) > s.len(),
        ensures
            CapabilitySet::parse(s) == (Parsed::<CapabilitySetView> {
                outcome: Err(
                    PduError::NotEnoughBytes {
                        received: (s.len() - 4) as usize,
                        expected: (u16_from_le(s.skip(2)) - 4) as usize,
                    },
                ),
                consumed: 4,
            }),
    {
    }

    /// A type code that the registry does not list is rejected. It is never
    /// taken for a set that holds bytes.
    pub proof fn unknown_type_is_rejected(s: Seq<u8>)
        requires
            s.len() >= 4,
            CapabilitySetType::from_code(u16_from_le(s)) is None,
        ensures
            CapabilitySet::parse(s) == (Parsed::<CapabilitySetView> {
                outcome: Err(PduError::InvalidType),
                consumed: 2,
            }),
    {
    }
}

impl CapabilitySet {
    /// The size of the header in bytes: the type code and the length.
    pub const FIXED_PART_SIZE: usize = 4;

    /// The type of the set.
    pub fn capability_type(&self) -> (ty: CapabilitySetType)
        ensures
            ty == self@.capability_type(),
    {
        match self {
            CapabilitySet::General(_) => CapabilitySetType::General,
            CapabilitySet::Bitmap(_) => CapabilitySetType::Bitmap,
            CapabilitySet::Order(_) => CapabilitySetType::Order,
            CapabilitySet::BitmapCache(_) => CapabilitySetType::BitmapCache,
            CapabilitySet::BitmapCacheRev2(_) => CapabilitySetType::BitmapCacheRev2,
            CapabilitySet::Pointer(_) => CapabilitySetType::Pointer,
            CapabilitySet::Sound(_) => CapabilitySetType::Sound,
            CapabilitySet::Input(_) => CapabilitySetType::Input,
            CapabilitySet::Brush(_) => CapabilitySetType::Brush,
            CapabilitySet::GlyphCache(_) => CapabilitySetType::GlyphCache,
            CapabilitySet::OffscreenBitmapCache(_) => CapabilitySetType::OffscreenBitmapCache,
            CapabilitySet::VirtualChannel(_) => CapabilitySetType::VirtualChannel,
            CapabilitySet::Control(_) => CapabilitySetType::Control,
            CapabilitySet::WindowActivation(_) => CapabilitySetType::WindowActivation,
            CapabilitySet::Share(_) => CapabilitySetType::Share,
            CapabilitySet::Font(_) => CapabilitySetType::Font,
            CapabilitySet::BitmapCacheHostSupport(_) => CapabilitySetType::BitmapCacheHostSupport,
            CapabilitySet::DesktopComposition(_) => CapabilitySetType::DesktopComposition,
            CapabilitySet::MultiFragmentUpdate(_) => CapabilitySetType::MultiFragmentUpdate,
            CapabilitySet::LargePointer(_) => CapabilitySetType::LargePointer,
            CapabilitySet::SurfaceCommands(_) => CapabilitySetType::SurfaceCommands,
            CapabilitySet::BitmapCodecs(_) => CapabilitySetType::BitmapCodecs,
            CapabilitySet::ColorCache(_) => CapabilitySetType::ColorCache,
            CapabilitySet::DrawNineGridCache(_) => CapabilitySetType::DrawNineGridCache,
            CapabilitySet::DrawGdiPlus(_) => CapabilitySetType::DrawGdiPlus,
            CapabilitySet::Rail(_) => CapabilitySetType::Rail,
            CapabilitySet::WindowList(_) => CapabilitySetType::WindowList,
            CapabilitySet::FrameAcknowledge(_) => CapabilitySetType::FrameAcknowledge,
        }
    }
}

impl PduEncode for CapabilitySet {
    /// The code of the type, the size, the payload. The length field holds the
    /// size of a set that fits.
    open spec fn wire(value: CapabilitySetView) -> Seq<u8> {
        u16_le(value.capability_type().code()) + u16_le(value.size() as u16) + value.payload()
    }

    /// A set fits where its size fits the 16-bit length field.
    open spec fn fits(value: CapabilitySetView) -> bool {
        value.size() <= u16::MAX
    }

    /// An encoder writes nothing where the set has no room. It stops behind the
    /// type code where the size does not fit the length field.
    open spec fn encoded(value: CapabilitySetView, room: nat) -> Encoded {
        if room < value.size() {
            Encoded {
                outcome: Err(
                    PduError::NotEnoughBytes {
                        received: room as usize,
                        expected: value.size() as usize,
                    },
                ),
                written: Seq::empty(),
            }
        } else if !Self::fits(value) {
            Encoded {
                outcome: Err(PduError::LengthOverflow),
                written: u16_le(value.capability_type().code()),
            }
        } else {
            Encoded { outcome: Ok(()), written: Self::wire(value) }
        }
    }

    proof fn encoder_is_faithful(value: CapabilitySetView, room: nat) {
    }

    fn name(&self) -> (name: &'static str)
        ensures
            name@ == "CapabilitySet"@,
    {
        "CapabilitySet"
    }

    fn size(&self) -> (n: usize)
        ensures
            n == self@.size(),
    {
        CapabilitySet::FIXED_PART_SIZE + match self {
            CapabilitySet::Control(control) => control.size(),
            CapabilitySet::Font(font) => font.size(),
            CapabilitySet::ColorCache(cache) => cache.size(),
            CapabilitySet::General(fields)
            | CapabilitySet::Bitmap(fields)
            | CapabilitySet::Order(fields)
            | CapabilitySet::BitmapCache(fields)
            | CapabilitySet::BitmapCacheRev2(fields)
            | CapabilitySet::Pointer(fields)
            | CapabilitySet::Sound(fields)
            | CapabilitySet::Input(fields)
            | CapabilitySet::Brush(fields)
            | CapabilitySet::GlyphCache(fields)
            | CapabilitySet::OffscreenBitmapCache(fields)
            | CapabilitySet::VirtualChannel(fields)
            | CapabilitySet::MultiFragmentUpdate(fields)
            | CapabilitySet::LargePointer(fields)
            | CapabilitySet::SurfaceCommands(fields)
            | CapabilitySet::BitmapCodecs(fields)
            | CapabilitySet::FrameAcknowledge(fields) => fields.size(),
            CapabilitySet::WindowActivation(buffer)
            | CapabilitySet::Share(buffer)
            | CapabilitySet::BitmapCacheHostSupport(buffer)
            | CapabilitySet::DesktopComposition(buffer)
            | CapabilitySet::DrawNineGridCache(buffer)
            | CapabilitySet::DrawGdiPlus(buffer)
            | CapabilitySet::Rail(buffer)
            | CapabilitySet::WindowList(buffer) => buffer.len(),
        }
    }

    /// Writes the type code, the size as the length field, then the payload.
    /// The length field is always computed from the payload.
    fn encode(&self, dst: &mut WriteCursor) -> (res: PduResult<()>)
        ensures
            res is Ok <==> self@.size() <= old(dst).unwritten().len() && self@.size() <= u16::MAX,
            res is Ok ==> final(dst).written() == old(dst).written() + Self::wire(self@),
    {
        let size: usize = self.size();
        let room: usize = dst.len();
        if room < size {
            assert(dst.unwritten().skip(0) =~= dst.unwritten());
            return Err(PduError::NotEnoughBytes { received: room, expected: size });
        }
        dst.write_u16(self.capability_type().to_u16());
        let length: u16 = cast_length(size)?;
        dst.write_u16(length);
        match self {
            CapabilitySet::Control(control) => control.encode(dst)?,
            CapabilitySet::Font(font) => font.encode(dst)?,
            CapabilitySet::ColorCache(cache) => cache.encode(dst)?,
            CapabilitySet::General(fields)
            | CapabilitySet::Bitmap(fields)
            | CapabilitySet::Order(fields)
            | CapabilitySet::BitmapCache(fields)
            | CapabilitySet::BitmapCacheRev2(fields)
            | CapabilitySet::Pointer(fields)
            | CapabilitySet::Sound(fields)
            | CapabilitySet::Input(fields)
            | CapabilitySet::Brush(fields)
            | CapabilitySet::GlyphCache(fields)
            | CapabilitySet::OffscreenBitmapCache(fields)
            | CapabilitySet::VirtualChannel(fields)
            | CapabilitySet::MultiFragmentUpdate(fields)
            | CapabilitySet::LargePointer(fields)
            | CapabilitySet::SurfaceCommands(fields)
            | CapabilitySet::BitmapCodecs(fields)
            | CapabilitySet::FrameAcknowledge(fields) => fields.encode(dst)?,
            CapabilitySet::WindowActivation(buffer)
            | CapabilitySet::Share(buffer)
            | CapabilitySet::BitmapCacheHostSupport(buffer)
            | CapabilitySet::DesktopComposition(buffer)
            | CapabilitySet::DrawNineGridCache(buffer)
            | CapabilitySet::DrawGdiPlus(buffer)
            | CapabilitySet::Rail(buffer)
            | CapabilitySet::WindowList(buffer) => dst.write_slice(buffer.as_slice()),
        }
        Ok(())
    }
}

impl PduDecode for CapabilitySet {
    /// A decoder reads the header of four bytes, looks the type code up, holds
    /// the declared length against the header's own size and against the bytes
    /// that are there, and hands exactly the declared payload to the decoder of
    /// the type.
    open spec fn parse(s: Seq<u8>) -> Parsed<CapabilitySetView> {
        if s.len() < CapabilitySet::FIXED_PART_SIZE {
            Parsed {
                outcome: Err(
                    PduError::NotEnoughBytes {
                        received: s.len() as usize,
                        expected: CapabilitySet::FIXED_PART_SIZE,
                    },
                ),
                consumed: 0,
            }
        } else {
            match CapabilitySetType::from_code(u16_from_le(s)) {
                None => Parsed { outcome: Err(PduError::InvalidType), consumed: 2 },
                Some(ty) => {
                    let length = u16_from_le(s.skip(2));
                    if length < CapabilitySet::FIXED_PART_SIZE {
                        Parsed { outcome: Err(PduError::InvalidLength), consumed: 4 }
                    } else if s.len() < length {
                        Parsed {
                            outcome: Err(
                                PduError::NotEnoughBytes {
                                    received: (s.len() - 4) as usize,
                                    expected: (length - 4) as usize,
                                },
                            ),
                            consumed: 4,
                        }
                    } else {
                        Parsed {
                            outcome: CapabilitySetView::from_payload(
                                ty,
                                s.subrange(4, length as int),
                            ),
                            consumed: length as nat,
                        }
                    }
                },
            }
        }
    }

    proof fn parse_stays_in_bounds(s: Seq<u8>) {
    }

    proof fn round_trip(value: CapabilitySetView) {
        value.round_trip_in_stream(Seq::empty());
    }

    /// The decoder of the set's type sees the declared payload and nothing
    /// behind it, so a malformed set cannot reach into the next one. On success
    /// the cursor stands behind the set, whatever its decoder has used of the
    /// payload.
    fn decode(src: &mut ReadCursor<'_>) -> (res: PduResult<CapabilitySet>)
        ensures
            res is Ok <==> Self::parse(old(src)@).outcome is Ok,
    {
        let available: usize = src.len();
        if available < CapabilitySet::FIXED_PART_SIZE {
            return Err(
                PduError::NotEnoughBytes {
                    received: available,
                    expected: CapabilitySet::FIXED_PART_SIZE,
                },
            );
        }
        let ty = match CapabilitySetType::from_u16(src.read_u16()) {
            Some(ty) => ty,
            None => {
                return Err(PduError::InvalidType);
            },
        };
        let length: usize = src.read_u16() as usize;
        if length < CapabilitySet::FIXED_PART_SIZE {
            return Err(PduError::InvalidLength);
        }
        let payload_length: usize = length - CapabilitySet::FIXED_PART_SIZE;
        let remaining: usize = src.len();
        if remaining < payload_length {
            return Err(
                PduError::NotEnoughBytes { received: remaining, expected: payload_length },
            );
        }
        let payload: &[u8] = src.read_slice(payload_length);
        assert(payload@ =~= old(src)@.subrange(4, length as int));
        match ty {
            CapabilitySetType::General => Ok(CapabilitySet::General(decode(payload)?)),
            CapabilitySetType::Bitmap => Ok(CapabilitySet::Bitmap(decode(payload)?)),
            CapabilitySetType::Order => Ok(CapabilitySet::Order(decode(payload)?)),
            CapabilitySetType::BitmapCache => Ok(CapabilitySet::BitmapCache(decode(payload)?)),
            CapabilitySetType::BitmapCacheRev2 => {
                Ok(CapabilitySet::BitmapCacheRev2(decode(payload)?))
            },
            CapabilitySetType::Pointer => Ok(CapabilitySet::Pointer(decode(payload)?)),
            CapabilitySetType::Sound => Ok(CapabilitySet::Sound(decode(payload)?)),
            CapabilitySetType::Input => Ok(CapabilitySet::Input(decode(payload)?)),
            CapabilitySetType::Brush => Ok(CapabilitySet::Brush(decode(payload)?)),
            CapabilitySetType::GlyphCache => Ok(CapabilitySet::GlyphCache(decode(payload)?)),
            CapabilitySetType::OffscreenBitmapCache => {
                Ok(CapabilitySet::OffscreenBitmapCache(decode(payload)?))
            },
            CapabilitySetType::VirtualChannel => {
                Ok(CapabilitySet::VirtualChannel(decode(payload)?))
            },
            CapabilitySetType::Control => Ok(CapabilitySet::Control(decode(payload)?)),
            CapabilitySetType::WindowActivation => {
                Ok(CapabilitySet::WindowActivation(slice_to_vec(payload)))
            },
            CapabilitySetType::Share => Ok(CapabilitySet::Share(slice_to_vec(payload))),
            CapabilitySetType::Font => Ok(CapabilitySet::Font(decode(payload)?)),
            CapabilitySetType::BitmapCacheHostSupport => {
                Ok(CapabilitySet::BitmapCacheHostSupport(slice_to_vec(payload)))
            },
            CapabilitySetType::DesktopComposition => {
                Ok(CapabilitySet::DesktopComposition(slice_to_vec(payload)))
            },
            CapabilitySetType::MultiFragmentUpdate => {
                Ok(CapabilitySet::MultiFragmentUpdate(decode(payload)?))
            },
            CapabilitySetType::LargePointer => Ok(CapabilitySet::LargePointer(decode(payload)?)),
            CapabilitySetType::SurfaceCommands => {
                Ok(CapabilitySet::SurfaceCommands(decode(payload)?))
            },
            CapabilitySetType::BitmapCodecs => Ok(CapabilitySet::BitmapCodecs(decode(payload)?)),
            CapabilitySetType::ColorCache => Ok(CapabilitySet::ColorCache(decode(payload)?)),
            CapabilitySetType::DrawNineGridCache => {
                Ok(CapabilitySet::DrawNineGridCache(slice_to_vec(payload)))
            },
            CapabilitySetType::DrawGdiPlus => Ok(CapabilitySet::DrawGdiPlus(slice_to_vec(payload))),
            CapabilitySetType::Rail => Ok(CapabilitySet::Rail(slice_to_vec(payload))),
            CapabilitySetType::WindowList => Ok(CapabilitySet::WindowList(slice_to_vec(payload))),
            CapabilitySetType::FrameAcknowledge => {
                Ok(CapabilitySet::FrameAcknowledge(decode(payload)?))
            },
        }
    }
}

} // verus!
