//! The LCD control register.
//!
//! | Bit | Meaning                      | 0         | 1         |
//! |-----|------------------------------|-----------|-----------|
//! | 7   | LCD and PPU enable           | off       | on        |
//! | 6   | window tile map              | 9800-9BFF | 9C00-9FFF |
//! | 5   | window enable                | off       | on        |
//! | 4   | BG and window tile data      | 8800-97FF | 8000-8FFF |
//! | 3   | BG tile map                  | 9800-9BFF | 9C00-9FFF |
//! | 2   | object size                  | 8x8       | 8x16      |
//! | 1   | object enable                | off       | on        |
//! | 0   | BG and window enable         | off       | on        |

use crate::util::{byte_of, get_nth_bit, lemma_bits_of_byte, lemma_byte_of_bits, nth_bit, pack_bits, Addr};
use vstd::prelude::*;
use vstd::std_specs::convert::FromSpecImpl;

verus! {

/// One of the two tile maps in video RAM.
#[derive(Clone, Copy, Debug, PartialEq, Eq, Structural)]
pub enum TileMap {
    /// 9800-9BFF.
    Low,
    /// 9C00-9FFF.
    High,
}

impl TileMap {
    /// The map selected by a register bit.
    pub open spec fn of(bit: bool) -> TileMap {
        if bit {
            TileMap::High
        } else {
            TileMap::Low
        }
    }

    /// The register bit that selects the map.
    pub open spec fn bit(self) -> bool {
        self == TileMap::High
    }

    /// The bus address of the first entry of the map.
    pub open spec fn base(self) -> u16 {
        match self {
            TileMap::Low => 0x9800,
            TileMap::High => 0x9c00,
        }
    }

    pub fn from_bool(value: bool) -> (r: TileMap)
        ensures
            r == TileMap::of(value),
    {
        if value {
            TileMap::High
        } else {
            TileMap::Low
        }
    }

    pub fn to_bool(self) -> (r: bool)
        ensures
            r == self.bit(),
    {
        match self {
            TileMap::Low => false,
            TileMap::High => true,
        }
    }

    /// The bus address of the first entry of the map.
    pub fn addr(self) -> (r: Addr)
        ensures
            r.0 == self.base(),
    {
        match self {
            TileMap::Low => Addr(0x9800),
            TileMap::High => Addr(0x9c00),
        }
    }
}

/// How a tile index finds its tile data.
#[derive(Clone, Copy, Debug, PartialEq, Eq, Structural)]
pub enum TileData {
    /// From 0x8000, by an unsigned index.
    Low,
    /// From 0x9000, by a signed index.
    High,
}

impl TileData {
    /// The mode selected by a register bit.
    pub open spec fn of(bit: bool) -> TileData {
        if bit {
            TileData::Low
        } else {
            TileData::High
        }
    }

    /// The register bit that selects the mode.
    pub open spec fn bit(self) -> bool {
        self == TileData::Low
    }

    /// The bus address of the 16 bytes of a tile: `0x8000 + 16 * index`, or
    /// `0x9000 + 16 * index` with the index taken as signed.
    pub open spec fn tile_addr(self, tile_index: u8) -> u16 {
        match self {
            TileData::Low => (0x8000 + 16 * tile_index) as u16,
            TileData::High => (0x9000 + 16 * crate::util::signed8(tile_index)) as u16,
        }
    }

    pub fn from_bool(value: bool) -> (r: TileData)
        ensures
            r == TileData::of(value),
    {
        if value {
            TileData::Low
        } else {
            TileData::High
        }
    }

    pub fn to_bool(self) -> (r: bool)
        ensures
            r == self.bit(),
    {
        match self {
            TileData::Low => true,
            TileData::High => false,
        }
    }

    /// The bus address of the 16 bytes of a tile. It lies in video RAM, and
    /// so does the whole tile.
    pub fn get_tile_data_addr(&self, tile_index: u8) -> (r: Addr)
        ensures
            r.0 == self.tile_addr(tile_index),
            0x8000 <= r.0 <= 0x97f0,
            r.0 % 16 == 0,
    {
        match self {
            TileData::Low => Addr(0x8000 + 16 * (tile_index as u16)),
            TileData::High => {
                if tile_index < 0x80 {
                    Addr(0x9000 + 16 * (tile_index as u16))
                } else {
                    Addr(0x9000 - 16 * (0x100 - tile_index as u16))
                }
            },
        }
    }
}

/// The height of objects.
#[derive(Clone, Copy, Debug, PartialEq, Eq, Structural)]
pub enum ObjectSize {
    /// 8x8.
    Short,
    /// 8x16.
    Long,
}

impl ObjectSize {
    /// The size selected by a register bit.
    pub open spec fn of(bit: bool) -> ObjectSize {
        if bit {
            ObjectSize::Long
        } else {
            ObjectSize::Short
        }
    }

    /// The register bit that selects the size.
    pub open spec fn bit(self) -> bool {
        self == ObjectSize::Long
    }

    /// The number of lines of an object.
    pub open spec fn lines(self) -> u8 {
        match self {
            ObjectSize::Short => 8,
            ObjectSize::Long => 16,
        }
    }

    pub fn from_bool(value: bool) -> (r: ObjectSize)
        ensures
            r == ObjectSize::of(value),
    {
        if value {
            ObjectSize::Long
        } else {
            ObjectSize::Short
        }
    }

    pub fn to_bool(self) -> (r: bool)
        ensures
            r == self.bit(),
    {
        match self {
            ObjectSize::Short => false,
            ObjectSize::Long => true,
        }
    }

    /// The number of lines of an object.
    pub fn height(self) -> (r: u8)
        ensures
            r == self.lines(),
    {
        match self {
            ObjectSize::Short => 8,
            ObjectSize::Long => 16,
        }
    }
}

/// The LCD control register.
#[derive(Clone, Copy, Debug, PartialEq, Eq, Structural)]
pub struct LCDC {
    pub ppu_enable: bool,
    pub window_tile_map: TileMap,
    pub window_enable: bool,
    pub bg_window_tile_data: TileData,
    pub bg_tile_map: TileMap,
    pub object_size: ObjectSize,
    pub object_enable: bool,
    pub bg_window_enable: bool,
}

impl LCDC {
    /// The register held in a byte.
    pub open spec fn unpack(value: u8) -> LCDC {
        LCDC {
            ppu_enable: nth_bit(value, 7),
            window_tile_map: TileMap::of(nth_bit(value, 6)),
            window_enable: nth_bit(value, 5),
            bg_window_tile_data: TileData::of(nth_bit(value, 4)),
            bg_tile_map: TileMap::of(nth_bit(value, 3)),
            object_size: ObjectSize::of(nth_bit(value, 2)),
            object_enable: nth_bit(value, 1),
            bg_window_enable: nth_bit(value, 0),
        }
    }

    /// The byte that holds the register.
    pub open spec fn pack(self) -> u8 {
        byte_of(
            self.ppu_enable,
            self.window_tile_map.bit(),
            self.window_enable,
            self.bg_window_tile_data.bit(),
            self.bg_tile_map.bit(),
            self.object_size.bit(),
            self.object_enable,
            self.bg_window_enable,
        )
    }
}

impl From<u8> for LCDC {
    fn from(value: u8) -> (r: LCDC) {
        LCDC {
            ppu_enable: get_nth_bit(value, 7),
            window_tile_map: TileMap::from_bool(get_nth_bit(value, 6)),
            window_enable: get_nth_bit(value, 5),
            bg_window_tile_data: TileData::from_bool(get_nth_bit(value, 4)),
            bg_tile_map: TileMap::from_bool(get_nth_bit(value, 3)),
            object_size: ObjectSize::from_bool(get_nth_bit(value, 2)),
            object_enable: get_nth_bit(value, 1),
            bg_window_enable: get_nth_bit(value, 0),
        }
    }
}

impl FromSpecImpl<u8> for LCDC {
    open spec fn obeys_from_spec() -> bool {
        true
    }

    open spec fn from_spec(value: u8) -> LCDC {
        LCDC::unpack(value)
    }
}

impl From<LCDC> for u8 {
    fn from(value: LCDC) -> (r: u8) {
        pack_bits(
            value.ppu_enable,
            value.window_tile_map.to_bool(),
            value.window_enable,
            value.bg_window_tile_data.to_bool(),
            value.bg_tile_map.to_bool(),
            value.object_size.to_bool(),
            value.object_enable,
            value.bg_window_enable,
        )
    }
}

impl FromSpecImpl<LCDC> for u8 {
    open spec fn obeys_from_spec() -> bool {
        true
    }

    open spec fn from_spec(value: LCDC) -> u8 {
        value.pack()
    }
}

impl Default for LCDC {
    fn default() -> (r: LCDC)
        ensures
            r == LCDC::unpack(0),
    {
        LCDC::from(0)
    }
}

/// A byte unpacked into the register and packed again is the same byte, and
/// a register packed and unpacked is the same register.
pub proof fn lemma_lcdc_round_trip(v: u8, r: LCDC)
    ensures
        LCDC::unpack(v).pack() == v,
        LCDC::unpack(r.pack()) == r,
{
    lemma_byte_of_bits(v);
    lemma_bits_of_byte(
        r.ppu_enable,
        r.window_tile_map.bit(),
        r.window_enable,
        r.bg_window_tile_data.bit(),
        r.bg_tile_map.bit(),
        r.object_size.bit(),
        r.object_enable,
        r.bg_window_enable,
    );
}

} // verus!
