//! The four shades of the screen, and the transparency of object pixels.

use vstd::prelude::*;

verus! {

/// A shade, or no shade at all.
#[derive(Clone, Copy, Debug, PartialEq, Eq, Structural)]
pub enum Colour {
    White,
    LightGrey,
    DarkGrey,
    Black,
    Transparent,
}

impl Colour {
    /// The number of the colour: 0 to 3 for the shades from white to black,
    /// 4 for transparency.
    pub open spec fn code(self) -> u8 {
        match self {
            Colour::White => 0,
            Colour::LightGrey => 1,
            Colour::DarkGrey => 2,
            Colour::Black => 3,
            Colour::Transparent => 4,
        }
    }

    /// Whether the colour is one of the four shades.
    pub open spec fn is_shade(self) -> bool {
        self != Colour::Transparent
    }

    /// The shade numbered by two bits.
    pub open spec fn of_bits(high: bool, low: bool) -> Colour {
        if high {
            if low {
                Colour::Black
            } else {
                Colour::DarkGrey
            }
        } else {
            if low {
                Colour::LightGrey
            } else {
                Colour::White
            }
        }
    }

    /// Bit 1 of the number of a shade.
    pub open spec fn high(self) -> bool {
        self == Colour::DarkGrey || self == Colour::Black
    }

    /// Bit 0 of the number of a shade.
    pub open spec fn low(self) -> bool {
        self == Colour::LightGrey || self == Colour::Black
    }

    /// The colour 0x00RRGGBB that a host shows for this one: 255, 192, 96 or
    /// 0 in each of the three channels.
    pub open spec fn rgb(self) -> u32 {
        match self {
            Colour::White => 0xffffff,
            Colour::LightGrey => 0xc0c0c0,
            Colour::DarkGrey => 0x606060,
            Colour::Black => 0,
            Colour::Transparent => 0,
        }
    }

    /// This colour laid over another: the other one shows only through
    /// transparency.
    pub open spec fn over(self, below: Colour) -> Colour {
        if self == Colour::Transparent {
            below
        } else {
            self
        }
    }

    /// The colour with a given number, if the number is at most 4.
    pub fn try_from(value: u8) -> (r: Result<Colour, ()>)
        ensures
            r is Ok <==> value <= 4,
            r is Ok ==> r->Ok_0.code() == value,
    {
        match value {
            0 => Ok(Colour::White),
            1 => Ok(Colour::LightGrey),
            2 => Ok(Colour::DarkGrey),
            3 => Ok(Colour::Black),
            4 => Ok(Colour::Transparent),
            _ => Err(()),
        }
    }

    /// The shade numbered by two bits.
    pub fn from_bits(high: bool, low: bool) -> (r: Colour)
        ensures
            r == Colour::of_bits(high, low),
            r != Colour::Transparent,
            r.high() == high,
            r.low() == low,
    {
        if high {
            if low {
                Colour::Black
            } else {
                Colour::DarkGrey
            }
        } else {
            if low {
                Colour::LightGrey
            } else {
                Colour::White
            }
        }
    }

    /// The number of the colour.
    pub fn index(self) -> (r: u8)
        ensures
            r == self.code(),
            r <= 4,
    {
        match self {
            Colour::White => 0,
            Colour::LightGrey => 1,
            Colour::DarkGrey => 2,
            Colour::Black => 3,
            Colour::Transparent => 4,
        }
    }

    /// The colour 0x00RRGGBB that a host shows for this one.
    pub fn to_u32(self) -> (r: u32)
        ensures
            r == self.rgb(),
    {
        match self {
            Colour::White => 0xffffff,
            Colour::LightGrey => 0xc0c0c0,
            Colour::DarkGrey => 0x606060,
            Colour::Black => 0,
            Colour::Transparent => 0,
        }
    }

    /// This colour laid over `rhs`.
    pub fn bitor(self, rhs: Colour) -> (r: Colour)
        ensures
            r == self.over(rhs),
    {
        match self {
            Colour::Transparent => rhs,
            colour => colour,
        }
    }
}

} // verus!
