//! The color table cache capability set.
use crate::codec::{Encoded, Parsed, PduDecode, PduEncode};
use crate::cursor::{ReadCursor, WriteCursor};
use crate::error::{PduError, PduResult};
use crate::wire::{u16_from_le, u16_le};
use vstd::prelude::*;

verus! {

/// The color table cache capability set: the size of the cache and two bytes
/// of padding.
#[derive(Debug, PartialEq, Eq, Clone)]
pub struct ColorCache {
    pub color_cache_table_size: u16,
}

impl View for ColorCache {
    type V = ColorCache;

    /// The set says what its one field holds.
    open spec fn view(&self) -> ColorCache {
        *self
    }
}

impl Default for ColorCache {
    fn default() -> (cache: Self)
        ensures
            cache.color_cache_table_size == ColorCache::DEFAULT_TABLE_SIZE,
    {
        ColorCache::new()
    }
}

impl ColorCache {
    /// The size of the payload in bytes.
    pub const FIXED_PART_SIZE: usize = 4;

    /// The table size that a peer goes by, whatever it is told.
    pub const DEFAULT_TABLE_SIZE: u16 = 0x0006;

    /// The set that a sender announces.
    pub fn new() -> (cache: Self)
        ensures
            cache.color_cache_table_size == ColorCache::DEFAULT_TABLE_SIZE,
    {
        ColorCache { color_cache_table_size: ColorCache::DEFAULT_TABLE_SIZE }
    }
}

impl PduEncode for ColorCache {
    /// The table size, then padding of zeros.
    open spec fn wire(value: ColorCache) -> Seq<u8> {
        u16_le(value.color_cache_table_size) + u16_le(0)
    }

    open spec fn fits(value: ColorCache) -> bool {
        true
    }

    /// An encoder that has no room for the payload writes nothing.
    open spec fn encoded(value: ColorCache, room: nat) -> Encoded {
        if room < ColorCache::FIXED_PART_SIZE {
            Encoded {
                outcome: Err(
                    PduError::NotEnoughBytes {
                        received: room as usize,
                        expected: ColorCache::FIXED_PART_SIZE,
                    },
                ),
                written: Seq::empty(),
            }
        } else {
            Encoded { outcome: Ok(()), written: Self::wire(value) }
        }
    }

    proof fn encoder_is_faithful(value: ColorCache, room: nat) {
    }

    fn name(&self) -> (name: &'static str)
        ensures
            name@ == "ColorCache"@,
    {
        "ColorCache"
    }

    fn size(&self) -> (n: usize)
        ensures
            n == ColorCache::FIXED_PART_SIZE,
    {
        ColorCache::FIXED_PART_SIZE
    }

    fn encode(&self, dst: &mut WriteCursor) -> (res: PduResult<()>)
        ensures
            res is Ok <==> ColorCache::FIXED_PART_SIZE <= old(dst).unwritten().len(),
            res is Ok ==> final(dst).written() == old(dst).written() + Self::wire(self@),
    {
        let room: usize = dst.len();
        if room < ColorCache::FIXED_PART_SIZE {
            return Err(
                PduError::NotEnoughBytes {
                    received: room,
                    expected: ColorCache::FIXED_PART_SIZE,
                },
            );
        }
        dst.write_u16(self.color_cache_table_size);
        dst.write_u16(0);
        Ok(())
    }
}

impl PduDecode for ColorCache {
    /// A decoder needs four bytes. It reads the table size from the first two
    /// and passes over the padding, whatever it holds.
    open spec fn parse(s: Seq<u8>) -> Parsed<ColorCache> {
        if s.len() < ColorCache::FIXED_PART_SIZE {
            Parsed {
                outcome: Err(
                    PduError::NotEnoughBytes {
                        received: s.len() as usize,
                        expected: ColorCache::FIXED_PART_SIZE,
                    },
                ),
                consumed: 0,
            }
        } else {
            Parsed {
                outcome: Ok(ColorCache { color_cache_table_size: u16_from_le(s) }),
                consumed: ColorCache::FIXED_PART_SIZE as nat,
            }
        }
    }

    proof fn parse_stays_in_bounds(s: Seq<u8>) {
    }

    proof fn round_trip(value: ColorCache) {
    }

    fn decode(src: &mut ReadCursor<'_>) -> (res: PduResult<ColorCache>)
        ensures
            res is Ok <==> ColorCache::FIXED_PART_SIZE <= old(src)@.len(),
    {
        let available: usize = src.len();
        if available < ColorCache::FIXED_PART_SIZE {
            return Err(
                PduError::NotEnoughBytes {
                    received: available,
                    expected: ColorCache::FIXED_PART_SIZE,
                },
            );
        }
        let color_cache_table_size: u16 = src.read_u16();
        let _padding: u16 = src.read_u16();
        Ok(ColorCache { color_cache_table_size })
    }
}

} // verus!
