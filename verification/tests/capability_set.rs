use rdp_capability_sets::{
    decode, CapabilitySet, CapabilitySetType, ColorCache, Control, Font, FontSupportFlags,
    PduDecode, PduEncode, PduError, ReadCursor, Unparsed, WriteCursor,
};

fn fields(payload: Vec<u8>) -> Unparsed {
    Unparsed { payload }
}

fn font_set() -> CapabilitySet {
    CapabilitySet::Font(Font { font_support_flags: FontSupportFlags::fontsupport_fontlist() })
}

fn wire_of(set: &CapabilitySet) -> Vec<u8> {
    let mut dst = WriteCursor::new(vec![0xee; set.size()]);
    assert_eq!(set.encode(&mut dst), Ok(()));
    assert_eq!(dst.len(), 0);
    dst.into_inner()
}

fn decoded(bytes: &[u8]) -> Result<CapabilitySet, PduError> {
    decode(bytes)
}

fn one_of_each() -> Vec<(u16, CapabilitySet)> {
    vec![
        (0x01, CapabilitySet::General(fields(vec![0x01, 0x00, 0x03, 0x00, 0x00, 0x02]))),
        (0x02, CapabilitySet::Bitmap(fields(vec![0x20, 0x00]))),
        (0x03, CapabilitySet::Order(fields(vec![0x00; 84]))),
        (0x04, CapabilitySet::BitmapCache(fields(vec![0x04; 36]))),
        (0x13, CapabilitySet::BitmapCacheRev2(fields(vec![0x13, 0x00, 0x00, 0x03]))),
        (0x08, CapabilitySet::Pointer(fields(vec![0x01, 0x00, 0x14, 0x00, 0x15, 0x00]))),
        (0x0c, CapabilitySet::Sound(fields(vec![0x01, 0x00, 0x00, 0x00]))),
        (0x0d, CapabilitySet::Input(fields(vec![0x0d; 84]))),
        (0x0f, CapabilitySet::Brush(fields(vec![0x01, 0x00, 0x00, 0x00]))),
        (0x10, CapabilitySet::GlyphCache(fields(vec![0x10; 48]))),
        (0x11, CapabilitySet::OffscreenBitmapCache(fields(vec![0x11; 8]))),
        (0x14, CapabilitySet::VirtualChannel(fields(vec![0x14; 8]))),
        (0x05, CapabilitySet::Control(Control::new())),
        (0x07, CapabilitySet::WindowActivation(vec![0x00; 8])),
        (0x09, CapabilitySet::Share(vec![0x00, 0x00, 0x00, 0x00])),
        (0x0e, font_set()),
        (0x12, CapabilitySet::BitmapCacheHostSupport(vec![0x01, 0x00, 0x00, 0x00])),
        (0x19, CapabilitySet::DesktopComposition(vec![0x19])),
        (0x1a, CapabilitySet::MultiFragmentUpdate(fields(vec![0x00, 0x00, 0x01, 0x00]))),
        (0x1b, CapabilitySet::LargePointer(fields(vec![0x01, 0x00]))),
        (0x1c, CapabilitySet::SurfaceCommands(fields(vec![0x52, 0, 0, 0, 0, 0, 0, 0]))),
        (0x1d, CapabilitySet::BitmapCodecs(fields(vec![0x00]))),
        (0x0a, CapabilitySet::ColorCache(ColorCache::new())),
        (0x15, CapabilitySet::DrawNineGridCache(vec![0xde, 0xad, 0xbe, 0xef])),
        (0x16, CapabilitySet::DrawGdiPlus(vec![0x16; 36])),
        (0x17, CapabilitySet::Rail(vec![0x17; 4])),
        (0x18, CapabilitySet::WindowList(vec![0x18; 7])),
        (0x1e, CapabilitySet::FrameAcknowledge(fields(vec![0x02, 0x00, 0x00, 0x00]))),
    ]
}

#[test]
fn font_capability_set_on_the_wire() {
    let bytes = [0x0e, 0x00, 0x08, 0x00, 0x01, 0x00, 0x00, 0x00];
    let mut src = ReadCursor::new(&bytes);
    let set = CapabilitySet::decode(&mut src).unwrap();
    assert_eq!(src.len(), 0);
    assert_eq!(set, font_set());
    assert_eq!(set.size(), 8);
    assert_eq!(wire_of(&set), bytes.to_vec());
}

#[test]
fn color_cache_capability_set_on_the_wire() {
    let bytes = [0x0a, 0x00, 0x08, 0x00, 0x06, 0x00, 0x00, 0x00];
    let set = CapabilitySet::ColorCache(ColorCache::default());
    assert_eq!(wire_of(&set), bytes.to_vec());
    assert_eq!(decoded(&bytes), Ok(set));
}

#[test]
fn control_capability_set_on_the_wire() {
    let bytes = [0x05, 0x00, 0x0c, 0x00, 0x00, 0x00, 0x00, 0x00, 0x02, 0x00, 0x02, 0x00];
    let set = CapabilitySet::Control(Control::new());
    assert_eq!(set.size(), 12);
    assert_eq!(wire_of(&set), bytes.to_vec());
    assert_eq!(decoded(&bytes), Ok(set));
}

#[test]
fn every_capability_set_comes_back_from_its_bytes() {
    let sets = one_of_each();
    assert_eq!(sets.len(), 28);
    for (_, set) in sets {
        let bytes = wire_of(&set);
        let mut src = ReadCursor::new(&bytes);
        assert_eq!(CapabilitySet::decode(&mut src), Ok(set));
        assert_eq!(src.len(), 0);
    }
}

#[test]
fn every_capability_set_is_as_long_as_its_size() {
    for (_, set) in one_of_each() {
        let mut dst = WriteCursor::new(vec![0; set.size() + 5]);
        assert_eq!(set.encode(&mut dst), Ok(()));
        assert_eq!(dst.len(), 5);
    }
}

#[test]
fn every_capability_set_carries_its_type_code() {
    for (code, set) in one_of_each() {
        assert_eq!(set.capability_type().to_u16(), code);
        assert_eq!(CapabilitySetType::from_u16(code), Some(set.capability_type()));
        let bytes = wire_of(&set);
        assert_eq!(&bytes[..2], &code.to_le_bytes());
    }
}

#[test]
fn the_length_field_counts_header_and_payload() {
    for (_, set) in one_of_each() {
        let bytes = wire_of(&set);
        let declared = u16::from_le_bytes([bytes[2], bytes[3]]);
        assert_eq!(usize::from(declared), bytes.len());
        assert_eq!(usize::from(declared), set.size());
    }
    let payload = vec![0xab; 300];
    let bytes = wire_of(&CapabilitySet::Rail(payload.clone()));
    assert_eq!(&bytes[..4], &[0x17, 0x00, 0x30, 0x01]);
    assert_eq!(&bytes[4..], &payload[..]);
}

#[test]
fn a_payload_of_bytes_is_kept_one_for_one() {
    let payload: Vec<u8> = (0..=255).collect();
    let set = CapabilitySet::WindowList(payload.clone());
    let bytes = wire_of(&set);
    assert_eq!(bytes.len(), 260);
    assert_eq!(&bytes[4..], &payload[..]);
    assert_eq!(decoded(&bytes), Ok(CapabilitySet::WindowList(payload)));
}

#[test]
fn a_capability_set_without_payload() {
    let set = CapabilitySet::Share(Vec::new());
    assert_eq!(set.size(), 4);
    assert_eq!(wire_of(&set), vec![0x09, 0x00, 0x04, 0x00]);
    assert_eq!(decoded(&[0x09, 0x00, 0x04, 0x00]), Ok(set));
}

#[test]
fn the_same_payload_under_another_code_is_another_set() {
    let general = decoded(&[0x01, 0x00, 0x06, 0x00, 0xaa, 0xbb]).unwrap();
    let bitmap = decoded(&[0x02, 0x00, 0x06, 0x00, 0xaa, 0xbb]).unwrap();
    assert_eq!(general, CapabilitySet::General(fields(vec![0xaa, 0xbb])));
    assert_eq!(bitmap, CapabilitySet::Bitmap(fields(vec![0xaa, 0xbb])));
    assert_ne!(general, bitmap);
}

#[test]
fn a_header_needs_four_bytes() {
    for n in 0..4 {
        let bytes = [0x0e, 0x00, 0x08][..n].to_vec();
        let mut src = ReadCursor::new(&bytes);
        assert_eq!(
            CapabilitySet::decode(&mut src),
            Err(PduError::NotEnoughBytes { received: n, expected: 4 })
        );
        assert_eq!(src.len(), n);
    }
}

#[test]
fn a_length_of_three_is_rejected() {
    assert_eq!(decoded(&[0x0e, 0x00, 0x03, 0x00]), Err(PduError::InvalidLength));
    let with_payload = [0x0e, 0x00, 0x03, 0x00, 0x01, 0x00, 0x00, 0x00];
    let mut src = ReadCursor::new(&with_payload);
    assert_eq!(CapabilitySet::decode(&mut src), Err(PduError::InvalidLength));
    assert_eq!(src.len(), 4);
}

#[test]
fn a_length_below_the_header_is_rejected() {
    for length in 0..4 {
        assert_eq!(
            decoded(&[0x09, 0x00, length, 0x00, 0xff, 0xff, 0xff, 0xff]),
            Err(PduError::InvalidLength)
        );
    }
    assert_eq!(
        decoded(&[0x09, 0x00, 0x04, 0x00, 0xff, 0xff, 0xff, 0xff]),
        Ok(CapabilitySet::Share(Vec::new()))
    );
}

#[test]
fn a_truncated_capability_set_is_rejected() {
    // Twenty bytes declared, ten at hand.
    let bytes = [0x07, 0x00, 0x14, 0x00, 0x01, 0x02, 0x03, 0x04, 0x05, 0x06];
    assert_eq!(bytes.len(), 10);
    let mut src = ReadCursor::new(&bytes);
    assert_eq!(
        CapabilitySet::decode(&mut src),
        Err(PduError::NotEnoughBytes { received: 6, expected: 16 })
    );
    assert_eq!(src.len(), 6);
}

#[test]
fn a_truncated_payload_is_rejected() {
    // Twenty bytes declared, ten of payload behind the header.
    let bytes = [0x07, 0x00, 0x14, 0x00, 1, 2, 3, 4, 5, 6, 7, 8, 9, 10];
    let mut src = ReadCursor::new(&bytes);
    assert_eq!(
        CapabilitySet::decode(&mut src),
        Err(PduError::NotEnoughBytes { received: 10, expected: 16 })
    );
    assert_eq!(src.len(), 10);
    assert_eq!(src.read_slice(10), &[1, 2, 3, 4, 5, 6, 7, 8, 9, 10]);
}

#[test]
fn a_capability_set_that_lacks_one_byte_is_rejected() {
    let whole = wire_of(&CapabilitySet::Rail(vec![0x17; 9]));
    assert_eq!(
        decoded(&whole[..whole.len() - 1]),
        Err(PduError::NotEnoughBytes { received: 8, expected: 9 })
    );
    assert_eq!(decoded(&whole), Ok(CapabilitySet::Rail(vec![0x17; 9])));
}

#[test]
fn an_unknown_type_code_is_rejected() {
    let bytes = [0x1f, 0x00, 0x08, 0x00, 0x01, 0x00, 0x00, 0x00];
    let mut src = ReadCursor::new(&bytes);
    assert_eq!(CapabilitySet::decode(&mut src), Err(PduError::InvalidType));
    assert_eq!(src.len(), 6);
}

#[test]
fn no_unused_code_is_taken_for_a_set_of_bytes() {
    for code in [0x0000_u16, 0x0006, 0x000b, 0x001f, 0x0020, 0x0e00, 0xffff] {
        let [low, high] = code.to_le_bytes();
        assert_eq!(decoded(&[low, high, 0x04, 0x00]), Err(PduError::InvalidType));
    }
}

#[test]
fn the_type_code_is_looked_up_before_the_length() {
    assert_eq!(decoded(&[0x1f, 0x00, 0x03, 0x00]), Err(PduError::InvalidType));
    assert_eq!(decoded(&[0x1f, 0x00, 0xff, 0xff]), Err(PduError::InvalidType));
}

#[test]
fn a_corrupted_length_field_is_noticed() {
    let good = wire_of(&font_set());
    let mut longer = good.clone();
    longer[2] = 0x09;
    assert_eq!(decoded(&longer), Err(PduError::NotEnoughBytes { received: 4, expected: 5 }));
    let mut far_longer = good.clone();
    far_longer[3] = 0x01;
    assert_eq!(
        decoded(&far_longer),
        Err(PduError::NotEnoughBytes { received: 4, expected: 0x0104 })
    );
    let mut shorter = good.clone();
    shorter[2] = 0x02;
    assert_eq!(decoded(&shorter), Err(PduError::InvalidLength));
    let mut cut = good.clone();
    cut[2] = 0x06;
    assert_eq!(decoded(&cut), Err(PduError::NotEnoughBytes { received: 2, expected: 4 }));
}

#[test]
fn a_decoder_sees_its_payload_and_no_more() {
    // A font set that declares two bytes of payload, and a share set behind it.
    let bytes = [0x0e, 0x00, 0x06, 0x00, 0x01, 0x00, 0x09, 0x00, 0x04, 0x00];
    let mut src = ReadCursor::new(&bytes);
    assert_eq!(
        CapabilitySet::decode(&mut src),
        Err(PduError::NotEnoughBytes { received: 2, expected: 4 })
    );
    assert_eq!(src.len(), 4);
    assert_eq!(CapabilitySet::decode(&mut src), Ok(CapabilitySet::Share(Vec::new())));
}

#[test]
fn a_longer_payload_than_the_fields_need_is_stepped_over() {
    let bytes =
        [0x0e, 0x00, 0x0a, 0x00, 0x01, 0x00, 0x00, 0x00, 0xaa, 0xbb, 0x09, 0x00, 0x04, 0x00];
    let mut src = ReadCursor::new(&bytes);
    let set = CapabilitySet::decode(&mut src).unwrap();
    assert_eq!(set, font_set());
    assert_eq!(src.len(), 4);
    assert_eq!(wire_of(&set), vec![0x0e, 0x00, 0x08, 0x00, 0x01, 0x00, 0x00, 0x00]);
    assert_eq!(CapabilitySet::decode(&mut src), Ok(CapabilitySet::Share(Vec::new())));
}

#[test]
fn a_control_set_with_a_short_payload_is_rejected() {
    let bytes = [0x05, 0x00, 0x08, 0x00, 0x00, 0x00, 0x00, 0x00];
    assert_eq!(decoded(&bytes), Err(PduError::NotEnoughBytes { received: 4, expected: 8 }));
}

#[test]
fn a_color_cache_set_with_a_short_payload_is_rejected() {
    let bytes = [0x0a, 0x00, 0x04, 0x00];
    assert_eq!(decoded(&bytes), Err(PduError::NotEnoughBytes { received: 0, expected: 4 }));
}

#[test]
fn a_capability_set_needs_room() {
    let set = font_set();
    for room in 0..8 {
        let mut dst = WriteCursor::new(vec![0xee; room]);
        assert_eq!(
            set.encode(&mut dst),
            Err(PduError::NotEnoughBytes { received: room, expected: 8 })
        );
        assert_eq!(dst.len(), room);
        assert_eq!(dst.into_inner(), vec![0xee; room]);
    }
}

#[test]
fn the_largest_capability_set_that_fits() {
    let payload = vec![0x5a; 0xffff - 4];
    let set = CapabilitySet::BitmapCodecs(fields(payload.clone()));
    assert_eq!(set.size(), 0xffff);
    let bytes = wire_of(&set);
    assert_eq!(&bytes[..4], &[0x1d, 0x00, 0xff, 0xff]);
    assert_eq!(decoded(&bytes), Ok(CapabilitySet::BitmapCodecs(fields(payload))));
}

#[test]
fn a_capability_set_that_is_too_long_is_not_encoded() {
    let set = CapabilitySet::BitmapCodecs(fields(vec![0x5a; 0xffff - 3]));
    assert_eq!(set.size(), 0x1_0000);
    let mut dst = WriteCursor::new(vec![0xee; 0x1_0000]);
    assert_eq!(set.encode(&mut dst), Err(PduError::LengthOverflow));
    // The type code went out before the length was found too long.
    assert_eq!(dst.len(), 0x1_0000 - 2);
    let buffer = dst.into_inner();
    assert_eq!(&buffer[..2], &[0x1d, 0x00]);
    assert!(buffer[2..].iter().all(|&byte| byte == 0xee));
}

#[test]
fn room_is_asked_for_before_the_length_is_cast() {
    let set = CapabilitySet::BitmapCodecs(fields(vec![0x5a; 0xffff - 3]));
    let mut dst = WriteCursor::new(vec![0xee; 0xffff]);
    assert_eq!(
        set.encode(&mut dst),
        Err(PduError::NotEnoughBytes { received: 0xffff, expected: 0x1_0000 })
    );
    assert_eq!(dst.len(), 0xffff);
}

#[test]
fn capability_sets_follow_each_other_in_one_buffer() {
    let first = font_set();
    let second = CapabilitySet::Control(Control::new());
    let third = CapabilitySet::Rail(vec![1, 2, 3]);
    let mut dst = WriteCursor::new(vec![0; first.size() + second.size() + third.size()]);
    assert_eq!(first.encode(&mut dst), Ok(()));
    assert_eq!(second.encode(&mut dst), Ok(()));
    assert_eq!(third.encode(&mut dst), Ok(()));
    let bytes = dst.into_inner();
    assert_eq!(bytes.len(), 8 + 12 + 7);
    let mut src = ReadCursor::new(&bytes);
    assert_eq!(CapabilitySet::decode(&mut src), Ok(first));
    assert_eq!(CapabilitySet::decode(&mut src), Ok(second));
    assert_eq!(CapabilitySet::decode(&mut src), Ok(third));
    assert_eq!(src.len(), 0);
}

#[test]
fn whatever_is_decoded_can_be_encoded_again() {
    let inputs: [&[u8]; 5] = [
        &[0x0e, 0x00, 0xff, 0xff],
        &[0x17, 0x00, 0xff, 0xff],
        &[0x01, 0x00, 0xff, 0xff],
        &[0x05, 0x00, 0x10, 0x00],
        &[0x0a, 0x00, 0x04, 0x01],
    ];
    for header in inputs {
        let mut bytes = header.to_vec();
        bytes.resize(0xffff, 0x33);
        let mut src = ReadCursor::new(&bytes);
        let set = CapabilitySet::decode(&mut src).unwrap();
        let taken = bytes.len() - src.len();
        assert!(set.size() <= taken);
        let again = wire_of(&set);
        assert_eq!(decoded(&again), Ok(set));
    }
}

#[test]
fn a_capability_set_tells_its_name() {
    assert_eq!(font_set().name(), "CapabilitySet");
}
