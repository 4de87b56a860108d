//! The palette registers `BGP`, `OBP0` and `OBP1`: four two-bit shades each,
//! one for each colour index.

use super::colour::Colour;
use crate::util::{byte_of, get_nth_bit, lemma_byte_of_bits, nth_bit, pack_bits};
use vstd::prelude::*;
use vstd::std_specs::convert::FromSpecImpl;

verus! {

/// The shades that the background and the window give to the colour indices.
#[derive(Clone, Copy, Debug, PartialEq, Eq, Structural)]
pub struct BgWinPalette {
    /// Bits 0 and 1.
    pub colour0: Colour,
    /// Bits 2 and 3.
    pub colour1: Colour,
    /// Bits 4 and 5.
    pub colour2: Colour,
    /// Bits 6 and 7.
    pub colour3: Colour,
}

impl BgWinPalette {
    /// The palette held in a byte.
    pub open spec fn unpack(value: u8) -> BgWinPalette {
        BgWinPalette {
            colour0: Colour::of_bits(nth_bit(value, 1), nth_bit(value, 0)),
            colour1: Colour::of_bits(nth_bit(value, 3), nth_bit(value, 2)),
            colour2: Colour::of_bits(nth_bit(value, 5), nth_bit(value, 4)),
            colour3: Colour::of_bits(nth_bit(value, 7), nth_bit(value, 6)),
        }
    }

    /// The byte that holds the palette.
    pub open spec fn pack(self) -> u8 {
        byte_of(
            self.colour3.high(),
            self.colour3.low(),
            self.colour2.high(),
            self.colour2.low(),
            self.colour1.high(),
            self.colour1.low(),
            self.colour0.high(),
            self.colour0.low(),
        )
    }

    /// Whether the palette holds shades only.
    pub open spec fn shades(self) -> bool {
        self.colour0.is_shade() && self.colour1.is_shade() && self.colour2.is_shade()
            && self.colour3.is_shade()
    }

    /// The shade of a colour index; index 0 for any index above 3.
    pub open spec fn lookup(self, v: u8) -> Colour {
        if v == 1 {
            self.colour1
        } else if v == 2 {
            self.colour2
        } else if v == 3 {
            self.colour3
        } else {
            self.colour0
        }
    }

    /// The shade of a colour index, or the index itself if it is above 3.
    pub fn map(&self, v: u8) -> (r: Result<Colour, u8>)
        ensures
            v <= 3 ==> r == Ok::<Colour, u8>(self.lookup(v)),
            v > 3 ==> r == Err::<Colour, u8>(v),
    {
        match v {
            0 => Ok(self.colour0),
            1 => Ok(self.colour1),
            2 => Ok(self.colour2),
            3 => Ok(self.colour3),
            _ => Err(v),
        }
    }
}

impl From<u8> for BgWinPalette {
    fn from(value: u8) -> (r: BgWinPalette) {
        BgWinPalette {
            colour0: Colour::from_bits(get_nth_bit(value, 1), get_nth_bit(value, 0)),
            colour1: Colour::from_bits(get_nth_bit(value, 3), get_nth_bit(value, 2)),
            colour2: Colour::from_bits(get_nth_bit(value, 5), get_nth_bit(value, 4)),
            colour3: Colour::from_bits(get_nth_bit(value, 7), get_nth_bit(value, 6)),
        }
    }
}

impl FromSpecImpl<u8> for BgWinPalette {
    open spec fn obeys_from_spec() -> bool {
        true
    }

    open spec fn from_spec(value: u8) -> BgWinPalette {
        BgWinPalette::unpack(value)
    }
}

fn high_bit(c: Colour) -> (r: bool)
    ensures
        r == c.high(),
{
    match c {
        Colour::DarkGrey | Colour::Black => true,
        _ => false,
    }
}

fn low_bit(c: Colour) -> (r: bool)
    ensures
        r == c.low(),
{
    match c {
        Colour::LightGrey | Colour::Black => true,
        _ => false,
    }
}

impl From<BgWinPalette> for u8 {
    fn from(value: BgWinPalette) -> (r: u8) {
        pack_bits(
            high_bit(value.colour3),
            low_bit(value.colour3),
            high_bit(value.colour2),
            low_bit(value.colour2),
            high_bit(value.colour1),
            low_bit(value.colour1),
            high_bit(value.colour0),
            low_bit(value.colour0),
        )
    }
}

impl FromSpecImpl<BgWinPalette> for u8 {
    open spec fn obeys_from_spec() -> bool {
        true
    }

    open spec fn from_spec(value: BgWinPalette) -> u8 {
        value.pack()
    }
}

impl Default for BgWinPalette {
    fn default() -> (r: BgWinPalette)
        ensures
            r == BgWinPalette::unpack(0),
    {
        BgWinPalette::from(0)
    }
}

/// The shades that objects give to the colour indices. Index 0 is never
/// drawn: it stands for a transparent pixel.
#[derive(Clone, Copy, Debug, PartialEq, Eq, Structural)]
pub struct ObjPalette {
    /// Bits 0 and 1: stored, never shown.
    pub colour0: Colour,
    /// Bits 2 and 3.
    pub colour1: Colour,
    /// Bits 4 and 5.
    pub colour2: Colour,
    /// Bits 6 and 7.
    pub colour3: Colour,
}

impl ObjPalette {
    /// The palette held in a byte.
    pub open spec fn unpack(value: u8) -> ObjPalette {
        ObjPalette {
            colour0: Colour::of_bits(nth_bit(value, 1), nth_bit(value, 0)),
            colour1: Colour::of_bits(nth_bit(value, 3), nth_bit(value, 2)),
            colour2: Colour::of_bits(nth_bit(value, 5), nth_bit(value, 4)),
            colour3: Colour::of_bits(nth_bit(value, 7), nth_bit(value, 6)),
        }
    }

    /// The byte that holds the palette.
    pub open spec fn pack(self) -> u8 {
        byte_of(
            self.colour3.high(),
            self.colour3.low(),
            self.colour2.high(),
            self.colour2.low(),
            self.colour1.high(),
            self.colour1.low(),
            self.colour0.high(),
            self.colour0.low(),
        )
    }

    /// The colour of a colour index: transparency for index 0 and for any
    /// index above 3.
    pub open spec fn lookup(self, v: u8) -> Colour {
        if v == 1 {
            self.colour1
        } else if v == 2 {
            self.colour2
        } else if v == 3 {
            self.colour3
        } else {
            Colour::Transparent
        }
    }

    /// The colour of a colour index, or the index itself if it is above 3.
    pub fn map(&self, v: u8) -> (r: Result<Colour, u8>)
        ensures
            v <= 3 ==> r == Ok::<Colour, u8>(self.lookup(v)),
            v > 3 ==> r == Err::<Colour, u8>(v),
    {
        match v {
            0 => Ok(Colour::Transparent),
            1 => Ok(self.colour1),
            2 => Ok(self.colour2),
            3 => Ok(self.colour3),
            _ => Err(v),
        }
    }
}

impl From<u8> for ObjPalette {
    fn from(value: u8) -> (r: ObjPalette) {
        ObjPalette {
            colour0: Colour::from_bits(get_nth_bit(value, 1), get_nth_bit(value, 0)),
            colour1: Colour::from_bits(get_nth_bit(value, 3), get_nth_bit(value, 2)),
            colour2: Colour::from_bits(get_nth_bit(value, 5), get_nth_bit(value, 4)),
            colour3: Colour::from_bits(get_nth_bit(value, 7), get_nth_bit(value, 6)),
        }
    }
}

impl FromSpecImpl<u8> for ObjPalette {
    open spec fn obeys_from_spec() -> bool {
        true
    }

    open spec fn from_spec(value: u8) -> ObjPalette {
        ObjPalette::unpack(value)
    }
}

impl From<ObjPalette> for u8 {
    fn from(value: ObjPalette) -> (r: u8) {
        pack_bits(
            high_bit(value.colour3),
            low_bit(value.colour3),
            high_bit(value.colour2),
            low_bit(value.colour2),
            high_bit(value.colour1),
            low_bit(value.colour1),
            high_bit(value.colour0),
            low_bit(value.colour0),
        )
    }
}

impl FromSpecImpl<ObjPalette> for u8 {
    open spec fn obeys_from_spec() -> bool {
        true
    }

    open spec fn from_spec(value: ObjPalette) -> u8 {
        value.pack()
    }
}

impl Default for ObjPalette {
    fn default() -> (r: ObjPalette)
        ensures
            r == ObjPalette::unpack(0),
    {
        ObjPalette::from(0)
    }
}

/// A byte unpacked into a palette and packed again is the same byte, and
/// the palette of a byte holds shades only.
pub proof fn lemma_palette_pack_unpack(v: u8)
    ensures
        BgWinPalette::unpack(v).pack() == v,
        ObjPalette::unpack(v).pack() == v,
        BgWinPalette::unpack(v).shades(),
{
    lemma_byte_of_bits(v);
}

} // verus!
