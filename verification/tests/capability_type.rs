use rdp_capability_sets::CapabilitySetType;

#[test]
fn the_registry_holds_the_codes_of_the_protocol() {
    let table = [
        (0x01, CapabilitySetType::General),
        (0x02, CapabilitySetType::Bitmap),
        (0x03, CapabilitySetType::Order),
        (0x04, CapabilitySetType::BitmapCache),
        (0x05, CapabilitySetType::Control),
        (0x07, CapabilitySetType::WindowActivation),
        (0x08, CapabilitySetType::Pointer),
        (0x09, CapabilitySetType::Share),
        (0x0a, CapabilitySetType::ColorCache),
        (0x0c, CapabilitySetType::Sound),
        (0x0d, CapabilitySetType::Input),
        (0x0e, CapabilitySetType::Font),
        (0x0f, CapabilitySetType::Brush),
        (0x10, CapabilitySetType::GlyphCache),
        (0x11, CapabilitySetType::OffscreenBitmapCache),
        (0x12, CapabilitySetType::BitmapCacheHostSupport),
        (0x13, CapabilitySetType::BitmapCacheRev2),
        (0x14, CapabilitySetType::VirtualChannel),
        (0x15, CapabilitySetType::DrawNineGridCache),
        (0x16, CapabilitySetType::DrawGdiPlus),
        (0x17, CapabilitySetType::Rail),
        (0x18, CapabilitySetType::WindowList),
        (0x19, CapabilitySetType::DesktopComposition),
        (0x1a, CapabilitySetType::MultiFragmentUpdate),
        (0x1b, CapabilitySetType::LargePointer),
        (0x1c, CapabilitySetType::SurfaceCommands),
        (0x1d, CapabilitySetType::BitmapCodecs),
        (0x1e, CapabilitySetType::FrameAcknowledge),
    ];
    assert_eq!(table.len(), 28);
    for (code, ty) in table {
        assert_eq!(CapabilitySetType::from_u16(code), Some(ty));
        assert_eq!(ty.to_u16(), code);
    }
}

#[test]
fn the_registry_is_closed() {
    for code in [0x00, 0x06, 0x0b, 0x1f, 0x20, 0x0100, 0x0e00, 0xffff] {
        assert_eq!(CapabilitySetType::from_u16(code), None);
    }
}

#[test]
fn every_code_stands_for_at_most_one_type() {
    let mut known = 0;
    for code in 0..=u16::MAX {
        if let Some(ty) = CapabilitySetType::from_u16(code) {
            assert_eq!(ty.to_u16(), code);
            assert!((0x01..=0x1e).contains(&code));
            known += 1;
        }
    }
    assert_eq!(known, 28);
}
