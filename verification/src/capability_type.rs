//! The registry of capability set types: which 16-bit code on the wire stands
//! for which capability set. The registry is closed. A code that it does not
//! list is an error, never a capability set of some unknown kind.
use vstd::prelude::*;

verus! {

/// The type of a capability set.
#[derive(Copy, Clone, Debug, PartialEq, Eq)]
pub enum CapabilitySetType {
    General,
    Bitmap,
    Order,
    BitmapCache,
    Control,
    WindowActivation,
    Pointer,
    Share,
    ColorCache,
    Sound,
    Input,
    Font,
    Brush,
    GlyphCache,
    OffscreenBitmapCache,
    BitmapCacheHostSupport,
    BitmapCacheRev2,
    VirtualChannel,
    DrawNineGridCache,
    DrawGdiPlus,
    Rail,
    WindowList,
    DesktopComposition,
    MultiFragmentUpdate,
    LargePointer,
    SurfaceCommands,
    BitmapCodecs,
    FrameAcknowledge,
}

impl CapabilitySetType {
    /// The code that stands for the type on the wire.
    pub open spec fn code(self) -> u16 {
        match self {
            CapabilitySetType::General => 0x01,
            CapabilitySetType::Bitmap => 0x02,
            CapabilitySetType::Order => 0x03,
            CapabilitySetType::BitmapCache => 0x04,
            CapabilitySetType::Control => 0x05,
            CapabilitySetType::WindowActivation => 0x07,
            CapabilitySetType::Pointer => 0x08,
            CapabilitySetType::Share => 0x09,
            CapabilitySetType::ColorCache => 0x0a,
            CapabilitySetType::Sound => 0x0c,
            CapabilitySetType::Input => 0x0d,
            CapabilitySetType::Font => 0x0e,
            CapabilitySetType::Brush => 0x0f,
            CapabilitySetType::GlyphCache => 0x10,
            CapabilitySetType::OffscreenBitmapCache => 0x11,
            CapabilitySetType::BitmapCacheHostSupport => 0x12,
            CapabilitySetType::BitmapCacheRev2 => 0x13,
            CapabilitySetType::VirtualChannel => 0x14,
            CapabilitySetType::DrawNineGridCache => 0x15,
            CapabilitySetType::DrawGdiPlus => 0x16,
            CapabilitySetType::Rail => 0x17,
            CapabilitySetType::WindowList => 0x18,
            CapabilitySetType::DesktopComposition => 0x19,
            CapabilitySetType::MultiFragmentUpdate => 0x1a,
            CapabilitySetType::LargePointer => 0x1b,
            CapabilitySetType::SurfaceCommands => 0x1c,
            CapabilitySetType::BitmapCodecs => 0x1d,
            CapabilitySetType::FrameAcknowledge => 0x1e,
        }
    }

    /// The type that a code stands for, if it stands for one.
    pub open spec fn from_code(code: u16) -> Option<CapabilitySetType> {
        match code {
            0x01 => Some(CapabilitySetType::General),
            0x02 => Some(CapabilitySetType::Bitmap),
            0x03 => Some(CapabilitySetType::Order),
            0x04 => Some(CapabilitySetType::BitmapCache),
            0x05 => Some(CapabilitySetType::Control),
            0x07 => Some(CapabilitySetType::WindowActivation),
            0x08 => Some(CapabilitySetType::Pointer),
            0x09 => Some(CapabilitySetType::Share),
            0x0a => Some(CapabilitySetType::ColorCache),
            0x0c => Some(CapabilitySetType::Sound),
            0x0d => Some(CapabilitySetType::Input),
            0x0e => Some(CapabilitySetType::Font),
            0x0f => Some(CapabilitySetType::Brush),
            0x10 => Some(CapabilitySetType::GlyphCache),
            0x11 => Some(CapabilitySetType::OffscreenBitmapCache),
            0x12 => Some(CapabilitySetType::BitmapCacheHostSupport),
            0x13 => Some(CapabilitySetType::BitmapCacheRev2),
            0x14 => Some(CapabilitySetType::VirtualChannel),
            0x15 => Some(CapabilitySetType::DrawNineGridCache),
            0x16 => Some(CapabilitySetType::DrawGdiPlus),
            0x17 => Some(CapabilitySetType::Rail),
            0x18 => Some(CapabilitySetType::WindowList),
            0x19 => Some(CapabilitySetType::DesktopComposition),
            0x1a => Some(CapabilitySetType::MultiFragmentUpdate),
            0x1b => Some(CapabilitySetType::LargePointer),
            0x1c => Some(CapabilitySetType::SurfaceCommands),
            0x1d => Some(CapabilitySetType::BitmapCodecs),
            0x1e => Some(CapabilitySetType::FrameAcknowledge),
            _ => None,
        }
    }

    /// Looks a code up in the registry.
    pub fn from_u16(code: u16) -> (ty: Option<CapabilitySetType>)
        ensures
            ty == CapabilitySetType::from_code(code),
    {
        match code {
            0x01 => Some(CapabilitySetType::General),
            0x02 => Some(CapabilitySetType::Bitmap),
            0x03 => Some(CapabilitySetType::Order),
            0x04 => Some(CapabilitySetType::BitmapCache),
            0x05 => Some(CapabilitySetType::Control),
            0x07 => Some(CapabilitySetType::WindowActivation),
            0x08 => Some(CapabilitySetType::Pointer),
            0x09 => Some(CapabilitySetType::Share),
            0x0a => Some(CapabilitySetType::ColorCache),
            0x0c => Some(CapabilitySetType::Sound),
            0x0d => Some(CapabilitySetType::Input),
            0x0e => Some(CapabilitySetType::Font),
            0x0f => Some(CapabilitySetType::Brush),
            0x10 => Some(CapabilitySetType::GlyphCache),
            0x11 => Some(CapabilitySetType::OffscreenBitmapCache),
            0x12 => Some(CapabilitySetType::BitmapCacheHostSupport),
            0x13 => Some(CapabilitySetType::BitmapCacheRev2),
            0x14 => Some(CapabilitySetType::VirtualChannel),
            0x15 => Some(CapabilitySetType::DrawNineGridCache),
            0x16 => Some(CapabilitySetType::DrawGdiPlus),
            0x17 => Some(CapabilitySetType::Rail),
            0x18 => Some(CapabilitySetType::WindowList),
            0x19 => Some(CapabilitySetType::DesktopComposition),
            0x1a => Some(CapabilitySetType::MultiFragmentUpdate),
            0x1b => Some(CapabilitySetType::LargePointer),
            0x1c => Some(CapabilitySetType::SurfaceCommands),
            0x1d => Some(CapabilitySetType::BitmapCodecs),
            0x1e => Some(CapabilitySetType::FrameAcknowledge),
            _ => None,
        }
    }

    /// The code of a type.
    pub fn to_u16(&self) -> (code: u16)
        ensures
            code == self.code(),
    {
        match self {
            CapabilitySetType::General => 0x01,
            CapabilitySetType::Bitmap => 0x02,
            CapabilitySetType::Order => 0x03,
            CapabilitySetType::BitmapCache => 0x04,
            CapabilitySetType::Control => 0x05,
            CapabilitySetType::WindowActivation => 0x07,
            CapabilitySetType::Pointer => 0x08,
            CapabilitySetType::Share => 0x09,
            CapabilitySetType::ColorCache => 0x0a,
            CapabilitySetType::Sound => 0x0c,
            CapabilitySetType::Input => 0x0d,
            CapabilitySetType::Font => 0x0e,
            CapabilitySetType::Brush => 0x0f,
            CapabilitySetType::GlyphCache => 0x10,
            CapabilitySetType::OffscreenBitmapCache => 0x11,
            CapabilitySetType::BitmapCacheHostSupport => 0x12,
            CapabilitySetType::BitmapCacheRev2 => 0x13,
            CapabilitySetType::VirtualChannel => 0x14,
            CapabilitySetType::DrawNineGridCache => 0x15,
            CapabilitySetType::DrawGdiPlus => 0x16,
            CapabilitySetType::Rail => 0x17,
            CapabilitySetType::WindowList => 0x18,
            CapabilitySetType::DesktopComposition => 0x19,
            CapabilitySetType::MultiFragmentUpdate => 0x1a,
            CapabilitySetType::LargePointer => 0x1b,
            CapabilitySetType::SurfaceCommands => 0x1c,
            CapabilitySetType::BitmapCodecs => 0x1d,
            CapabilitySetType::FrameAcknowledge => 0x1e,
        }
    }

    /// Every type has a code, and the registry finds the type again by it.
    pub proof fn code_is_registered(self)
        ensures
            CapabilitySetType::from_code(self.code()) == Some(self),
            0x01 <= self.code() <= 0x1e,
    {
    }

    /// A code stands for at most one type: the type that the registry finds by
    /// a code has that code.
    pub proof fn registered_code(code: u16)
        ensures
            CapabilitySetType::from_code(code) matches Some(ty) ==> ty.code() == code,
            CapabilitySetType::from_code(code) is None <==> code == 0x00 || code == 0x06
                || code == 0x0b || code > 0x1e,
    {
    }
}

} // verus!
