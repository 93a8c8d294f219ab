//! The Demand Active message: the part that the server's and the client's form
//! have in common.
use crate::capability_set::{CapabilitySet, CapabilitySetView};
use crate::codec::{Encoded, Parsed, PduDecode, PduEncode};
use crate::cursor::{ReadCursor, WriteCursor};
use crate::error::{PduError, PduResult};
use crate::set_list::{
    capability_sets_size, decode_capability_sets, parse_sets, parse_sets_stays_in_bounds,
    sets_round_trip, sets_size, sets_size_bounds, sets_wire, sets_wire_length, views,
};
use crate::text::{decode_string, field_bytes, text_bytes, text_round_trip, NULL_TERMINATOR};
use crate::wire::{cast_length, u16_from_le, u16_le, u16_round_trip};
use vstd::prelude::*;
use vstd::utf8::{decode_utf8, encode_utf8, valid_utf8};

verus! {

/// The size of the field that counts the capability sets.
pub const NUMBER_CAPABILITIES_FIELD_SIZE: usize = 2;

/// The size of the padding behind the count.
pub const PADDING_SIZE: usize = 2;

/// The Demand Active message: a text that describes the sender, and the
/// capability sets in the order in which they are sent.
#[derive(Debug, Clone, PartialEq, Eq)]
pub struct DemandActive {
    pub source_descriptor: String,
    pub capability_sets: Vec<CapabilitySet>,
}

/// What a Demand Active message says.
pub struct DemandActiveView {
    pub source_descriptor: Seq<char>,
    pub capability_sets: Seq<CapabilitySetView>,
}

impl View for DemandActive {
    type V = DemandActiveView;

    open spec fn view(&self) -> DemandActiveView {
        DemandActiveView {
            source_descriptor: self.source_descriptor@,
            capability_sets: views(self.capability_sets@),
        }
    }
}

impl DemandActiveView {
    /// The value of the descriptor length field: the bytes of the text and the
    /// terminator.
    pub open spec fn descriptor_size(self) -> nat {
        encode_utf8(self.source_descriptor).len() + 1
    }

    /// The value of the combined length field: the count, the padding and the
    /// capability sets.
    pub open spec fn combined_size(self) -> nat {
        (NUMBER_CAPABILITIES_FIELD_SIZE + PADDING_SIZE) as nat + sets_size(self.capability_sets)
    }

    /// The number of bytes of the message on the wire.
    pub open spec fn size(self) -> nat {
        DemandActive::FIXED_PART_SIZE as nat + self.descriptor_size() + self.combined_size()
    }

    /// The bytes of a message are as many as its size says.
    pub proof fn size_is_wire_length(self)
        ensures
            DemandActive::wire(self).len() == self.size(),
    {
        sets_wire_length(self.capability_sets);
    }

    /// In a message that fits, every capability set fits its length field and
    /// the count fits its own.
    pub proof fn parts_fit(self)
        requires
            DemandActive::fits(self),
        ensures
            self.capability_sets.len() <= u16::MAX,
            forall|i: int|
                0 <= i < self.capability_sets.len() ==> CapabilitySet::fits(
                    #[trigger] self.capability_sets[i],
                ),
    {
        sets_size_bounds(self.capability_sets);
    }

    /// A message is decoded from the front of any stream that starts with its
    /// bytes, and the decoder stops where the message ends.
    pub proof fn round_trip_in_stream(self, rest: Seq<u8>)
        requires
            DemandActive::fits(self),
        ensures
            DemandActive::parse(DemandActive::wire(self) + rest) == (Parsed {
                outcome: Ok(self),
                consumed: DemandActive::wire(self).len(),
            }),
    {
        let descriptor_length = self.descriptor_size() as u16;
        let combined_length = self.combined_size() as u16;
        let count = self.capability_sets.len() as u16;
        let field = field_bytes(self.source_descriptor);
        let sets = sets_wire(self.capability_sets) + rest;
        let stream = u16_le(descriptor_length) + u16_le(combined_length) + field + u16_le(count)
            + u16_le(0) + sets;
        self.parts_fit();
        self.size_is_wire_length();
        assert(DemandActive::wire(self) + rest =~= stream);
        message_layout(descriptor_length, combined_length, field, count, sets);
        text_round_trip(self.source_descriptor);
        sets_round_trip(self.capability_sets, rest);
    }
}

/// Where the parts of a message lie in a stream that starts with it.
proof fn message_layout(
    descriptor_length: u16,
    combined_length: u16,
    field: Seq<u8>,
    count: u16,
    sets: Seq<u8>,
)
    requires
        field.len() == descriptor_length,
    ensures
        ({
            let stream = u16_le(descriptor_length) + u16_le(combined_length) + field + u16_le(
                count,
            ) + u16_le(0) + sets;
            let behind_field = stream.skip(4).skip(descriptor_length as int);
            &&& stream.len() == 8 + descriptor_length + sets.len()
            &&& u16_from_le(stream) == descriptor_length
            &&& stream.skip(4).take(descriptor_length as int) == field
            &&& behind_field.len() == 4 + sets.len()
            &&& u16_from_le(behind_field) == count
            &&& behind_field.skip(4) == sets
        }),
{
    let stream = u16_le(descriptor_length) + u16_le(combined_length) + field + u16_le(count)
        + u16_le(0) + sets;
    let behind_count = u16_le(0) + sets;
    let behind_field = u16_le(count) + behind_count;
    let behind_lengths = field + behind_field;
    let behind_first = u16_le(combined_length) + behind_lengths;
    u16_round_trip(descriptor_length, behind_first);
    assert(stream.skip(4) =~= behind_lengths);
    assert(behind_lengths.take(descriptor_length as int) =~= field);
    assert(behind_lengths.skip(descriptor_length as int) =~= behind_field);
}

impl DemandActive {
    /// The size of the two length fields that open the message.
    pub const FIXED_PART_SIZE: usize = 4;
}

impl PduEncode for DemandActive {
    /// The two lengths, the text with its terminator, the count, padding of
    /// zeros, and the capability sets. The fields hold what their names say in
    /// a message that fits.
    open spec fn wire(value: DemandActiveView) -> Seq<u8> {
        u16_le(value.descriptor_size() as u16) + u16_le(value.combined_size() as u16) + field_bytes(
            value.source_descriptor,
        ) + u16_le(value.capability_sets.len() as u16) + u16_le(0) + sets_wire(
            value.capability_sets,
        )
    }

    /// A message fits where both lengths fit their 16-bit fields. The count
    /// then fits its field, and every capability set fits its own.
    open spec fn fits(value: DemandActiveView) -> bool {
        value.descriptor_size() <= u16::MAX && value.combined_size() <= u16::MAX
    }

    /// An encoder writes nothing where the message has no room or the
    /// descriptor length does not fit its field. It stops behind the descriptor
    /// length where the combined length does not fit.
    open spec fn encoded(value: DemandActiveView, room: nat) -> Encoded {
        if room < value.size() {
            Encoded {
                outcome: Err(
                    PduError::NotEnoughBytes {
                        received: room as usize,
                        expected: value.size() as usize,
                    },
                ),
                written: Seq::empty(),
            }
        } else if value.descriptor_size() > u16::MAX {
            Encoded { outcome: Err(PduError::LengthOverflow), written: Seq::empty() }
        } else if value.combined_size() > u16::MAX {
            Encoded {
                outcome: Err(PduError::LengthOverflow),
                written: u16_le(value.descriptor_size() as u16),
            }
        } else {
            Encoded { outcome: Ok(()), written: Self::wire(value) }
        }
    }

    proof fn encoder_is_faithful(value: DemandActiveView, room: nat) {
        value.size_is_wire_length();
    }

    fn name(&self) -> (name: &'static str)
        ensures
            name@ == "DemandActive"@,
    {
        "DemandActive"
    }

    fn size(&self) -> (n: usize)
        ensures
            n == self@.size(),
    {
        proof {
            self@.size_is_wire_length();
        }
        DemandActive::FIXED_PART_SIZE + self.source_descriptor.as_str().len() + 1
            + NUMBER_CAPABILITIES_FIELD_SIZE + PADDING_SIZE + capability_sets_size(
            &self.capability_sets,
        )
    }

    /// Writes the two lengths, the text, the count, the padding and the sets.
    /// Both length fields are computed from what is written behind them.
    fn encode(&self, dst: &mut WriteCursor) -> (res: PduResult<()>)
        ensures
            res is Ok <==> self@.size() <= old(dst).unwritten().len() && Self::fits(self@),
            res is Ok ==> final(dst).written() == old(dst).written() + Self::wire(self@),
    {
        let size: usize = self.size();
        let room: usize = dst.len();
        if room < size {
            return Err(PduError::NotEnoughBytes { received: room, expected: size });
        }
        let combined_length: usize = capability_sets_size(&self.capability_sets)
            + NUMBER_CAPABILITIES_FIELD_SIZE + PADDING_SIZE;
        let text: &[u8] = self.source_descriptor.as_str().as_bytes();
        let descriptor_length: u16 = cast_length(text.len() + 1)?;
        dst.write_u16(descriptor_length);
        let combined_length: u16 = cast_length(combined_length)?;
        dst.write_u16(combined_length);
        dst.write_slice(text);
        dst.write_u8(NULL_TERMINATOR);
        proof {
            self@.parts_fit();
        }
        let count: u16 = cast_length(self.capability_sets.len())?;
        dst.write_u16(count);
        dst.write_u16(0);
        let ghost all = self@.capability_sets;
        let ghost head = u16_le(descriptor_length) + u16_le(combined_length) + field_bytes(
            self@.source_descriptor,
        ) + u16_le(count) + u16_le(0);
        proof {
            sets_size_bounds(all);
            assert(dst.unwritten() =~= old(dst).unwritten().skip(
                (head.len() + sets_size(all.take(0))) as int,
            ));
        }
        let mut i: usize = 0;
        while i < self.capability_sets.len()
            invariant
                i <= self.capability_sets.len(),
                all == views(self.capability_sets@),
                head.len() + sets_size(all) <= old(dst).unwritten().len(),
                sets_size(all) + 4 <= u16::MAX,
                dst.written() == old(dst).written() + head + sets_wire(all.take(i as int)),
                dst.unwritten() == old(dst).unwritten().skip(
                    (head.len() + sets_size(all.take(i as int))) as int,
                ),
                forall|k: int| 0 <= k < all.len() ==> (#[trigger] all[k]).size() <= sets_size(all),
                forall|k: int|
                    0 <= k <= all.len() ==> #[trigger] sets_size(all.take(k)) <= sets_size(all),
            decreases self.capability_sets.len() - i,
        {
            proof {
                assert(all.take(i + 1).drop_last() =~= all.take(i as int));
                assert(all.take(i + 1).last() == all[i as int]);
                assert(sets_size(all.take(i + 1)) <= sets_size(all));
            }
            self.capability_sets[i].encode(dst)?;
            i = i + 1;
        }
        assert(all.take(i as int) =~= all);
        Ok(())
    }
}

impl PduDecode for DemandActive {
    /// A decoder reads the two lengths, then as many bytes of descriptor as the
    /// first length says, then the count and the padding, then as many
    /// capability sets as the count says. The last byte of the descriptor is
    /// its terminator and no part of the text. The decoder reads the combined
    /// length and does not hold it against what follows.
    open spec fn parse(s: Seq<u8>) -> Parsed<DemandActiveView> {
        if s.len() < DemandActive::FIXED_PART_SIZE {
            Parsed {
                outcome: Err(
                    PduError::NotEnoughBytes {
                        received: s.len() as usize,
                        expected: DemandActive::FIXED_PART_SIZE,
                    },
                ),
                consumed: 0,
            }
        } else {
            let descriptor_length = u16_from_le(s) as nat;
            let behind_lengths = s.skip(4);
            if behind_lengths.len() < descriptor_length {
                Parsed {
                    outcome: Err(
                        PduError::NotEnoughBytes {
                            received: behind_lengths.len() as usize,
                            expected: descriptor_length as usize,
                        },
                    ),
                    consumed: 4,
                }
            } else {
                let field = behind_lengths.take(descriptor_length as int);
                let behind_field = behind_lengths.skip(descriptor_length as int);
                if !valid_utf8(text_bytes(field)) {
                    Parsed {
                        outcome: Err(PduError::InvalidText),
                        consumed: 4 + descriptor_length,
                    }
                } else if behind_field.len() < NUMBER_CAPABILITIES_FIELD_SIZE + PADDING_SIZE {
                    Parsed {
                        outcome: Err(
                            PduError::NotEnoughBytes {
                                received: behind_field.len() as usize,
                                expected: (NUMBER_CAPABILITIES_FIELD_SIZE + PADDING_SIZE) as usize,
                            },
                        ),
                        consumed: 4 + descriptor_length,
                    }
                } else {
                    let count = u16_from_le(behind_field) as nat;
                    let sets = parse_sets(behind_field.skip(4), count);
                    Parsed {
                        outcome: match sets.outcome {
                            Ok(capability_sets) => Ok(
                                DemandActiveView {
                                    source_descriptor: decode_utf8(text_bytes(field)),
                                    capability_sets,
                                },
                            ),
                            Err(e) => Err(e),
                        },
                        consumed: 8 + descriptor_length + sets.consumed,
                    }
                }
            }
        }
    }

    proof fn parse_stays_in_bounds(s: Seq<u8>) {
        if s.len() >= 4 {
            let descriptor_length = u16_from_le(s) as nat;
            let behind_lengths = s.skip(4);
            if behind_lengths.len() >= descriptor_length {
                let behind_field = behind_lengths.skip(descriptor_length as int);
                if behind_field.len() >= 4 {
                    parse_sets_stays_in_bounds(
                        behind_field.skip(4),
                        u16_from_le(behind_field) as nat,
                    );
                }
            }
        }
    }

    proof fn round_trip(value: DemandActiveView) {
        value.round_trip_in_stream(Seq::empty());
    }

    fn decode(src: &mut ReadCursor<'_>) -> (res: PduResult<DemandActive>)
        ensures
            res is Ok <==> Self::parse(old(src)@).outcome is Ok,
    {
        let available: usize = src.len();
        if available < DemandActive::FIXED_PART_SIZE {
            return Err(
                PduError::NotEnoughBytes {
                    received: available,
                    expected: DemandActive::FIXED_PART_SIZE,
                },
            );
        }
        let descriptor_length: usize = src.read_u16() as usize;
        // The size of the count, the padding and the capability sets taken together.
        let _combined_length: u16 = src.read_u16();
        let ghost behind_lengths = old(src)@.skip(4);
        assert(src@ =~= behind_lengths);
        let available: usize = src.len();
        if available < descriptor_length {
            return Err(
                PduError::NotEnoughBytes { received: available, expected: descriptor_length },
            );
        }
        let field: &[u8] = src.read_slice(descriptor_length);
        let ghost behind_field = behind_lengths.skip(descriptor_length as int);
        let source_descriptor = decode_string(field)?;
        let available: usize = src.len();
        if available < NUMBER_CAPABILITIES_FIELD_SIZE + PADDING_SIZE {
            return Err(
                PduError::NotEnoughBytes {
                    received: available,
                    expected: NUMBER_CAPABILITIES_FIELD_SIZE + PADDING_SIZE,
                },
            );
        }
        let count: usize = src.read_u16() as usize;
        let _padding: u16 = src.read_u16();
        let ghost list = behind_field.skip(4);
        assert(src@ =~= list);
        proof {
            parse_sets_stays_in_bounds(list, count as nat);
            assert(list.skip(parse_sets(list, count as nat).consumed as int) =~= old(src)@.skip(
                8 + descriptor_length + parse_sets(list, count as nat).consumed,
            ));
        }
        let capability_sets = decode_capability_sets(src, count)?;
        Ok(DemandActive { source_descriptor, capability_sets })
    }
}

} // verus!
