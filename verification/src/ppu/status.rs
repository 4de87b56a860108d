//! The LCD status register and the four modes of the PPU.

use crate::util::{byte_of, get_nth_bit, lemma_bits_of_byte, nth_bit, pack_bits};
use vstd::prelude::*;
use vstd::std_specs::convert::FromSpecImpl;

verus! {

/// What the PPU is doing. The modes are numbered as the status register
/// shows them.
#[derive(Clone, Copy, Debug, PartialEq, Eq, Structural)]
pub enum PpuMode {
    /// Mode 2.
    OAMSearch,
    /// Mode 3.
    PixelTransfer,
    /// Mode 0.
    HBlank,
    /// Mode 1.
    VBlank,
}

impl PpuMode {
    /// The mode numbered by two bits.
    pub open spec fn of_bits(high: bool, low: bool) -> PpuMode {
        if high {
            if low {
                PpuMode::PixelTransfer
            } else {
                PpuMode::OAMSearch
            }
        } else {
            if low {
                PpuMode::VBlank
            } else {
                PpuMode::HBlank
            }
        }
    }

    /// The number of the mode.
    pub open spec fn code(self) -> u8 {
        match self {
            PpuMode::OAMSearch => 2,
            PpuMode::PixelTransfer => 3,
            PpuMode::HBlank => 0,
            PpuMode::VBlank => 1,
        }
    }

    /// The T-cycles that the mode lasts; for `VBlank`, those of one of its
    /// ten lines.
    pub open spec fn budget(self) -> int {
        match self {
            PpuMode::OAMSearch => 80,
            PpuMode::PixelTransfer => 172,
            PpuMode::HBlank => 204,
            PpuMode::VBlank => 456,
        }
    }

    /// The T-cycles of a line that have gone by when the mode begins.
    pub open spec fn start(self) -> int {
        match self {
            PpuMode::OAMSearch => 0,
            PpuMode::PixelTransfer => 80,
            PpuMode::HBlank => 252,
            PpuMode::VBlank => 0,
        }
    }

    /// The mode with a given number, if the number is at most 3.
    pub fn try_from(value: u8) -> (r: Result<PpuMode, ()>)
        ensures
            r is Ok <==> value <= 3,
            r is Ok ==> r->Ok_0.code() == value,
    {
        match value {
            2 => Ok(PpuMode::OAMSearch),
            3 => Ok(PpuMode::PixelTransfer),
            0 => Ok(PpuMode::HBlank),
            1 => Ok(PpuMode::VBlank),
            _ => Err(()),
        }
    }

    /// The number of the mode.
    pub fn number(self) -> (r: u8)
        ensures
            r == self.code(),
    {
        match self {
            PpuMode::OAMSearch => 2,
            PpuMode::PixelTransfer => 3,
            PpuMode::HBlank => 0,
            PpuMode::VBlank => 1,
        }
    }

    /// The T-cycles that the mode lasts.
    pub fn ticks(self) -> (r: u64)
        ensures
            r == self.budget(),
    {
        match self {
            PpuMode::OAMSearch => 80,
            PpuMode::PixelTransfer => 172,
            PpuMode::HBlank => 204,
            PpuMode::VBlank => 456,
        }
    }
}

/// The LCD status register: four interrupt selects in bits 6 to 3, the
/// coincidence flag in bit 2, the mode in bits 1 and 0.
#[derive(Clone, Copy, Debug, PartialEq, Eq, Structural)]
pub struct Status {
    pub lyc_int: bool,
    pub oam_int: bool,
    pub vblank_int: bool,
    pub hblank_int: bool,
    pub lyc_equal: bool,
    pub mode: PpuMode,
}

impl Status {
    /// The register held in the seven low bits of a byte.
    pub open spec fn unpack(value: u8) -> Status {
        Status {
            lyc_int: nth_bit(value, 6),
            oam_int: nth_bit(value, 5),
            vblank_int: nth_bit(value, 4),
            hblank_int: nth_bit(value, 3),
            lyc_equal: nth_bit(value, 2),
            mode: PpuMode::of_bits(nth_bit(value, 1), nth_bit(value, 0)),
        }
    }

    /// The byte that holds the register; bit 7 is zero.
    pub open spec fn pack(self) -> u8 {
        byte_of(
            false,
            self.lyc_int,
            self.oam_int,
            self.vblank_int,
            self.hblank_int,
            self.lyc_equal,
            self.mode.code() >= 2,
            self.mode.code() % 2 == 1,
        )
    }
}

impl From<u8> for Status {
    fn from(value: u8) -> (r: Status) {
        let high = get_nth_bit(value, 1);
        let low = get_nth_bit(value, 0);
        let mode = if high {
            if low {
                PpuMode::PixelTransfer
            } else {
                PpuMode::OAMSearch
            }
        } else {
            if low {
                PpuMode::VBlank
            } else {
                PpuMode::HBlank
            }
        };
        Status {
            lyc_int: get_nth_bit(value, 6),
            oam_int: get_nth_bit(value, 5),
            vblank_int: get_nth_bit(value, 4),
            hblank_int: get_nth_bit(value, 3),
            lyc_equal: get_nth_bit(value, 2),
            mode,
        }
    }
}

impl FromSpecImpl<u8> for Status {
    open spec fn obeys_from_spec() -> bool {
        true
    }

    open spec fn from_spec(value: u8) -> Status {
        Status::unpack(value)
    }
}

impl From<Status> for u8 {
    fn from(value: Status) -> (r: u8) {
        let n = value.mode.number();
        pack_bits(
            false,
            value.lyc_int,
            value.oam_int,
            value.vblank_int,
            value.hblank_int,
            value.lyc_equal,
            n >= 2,
            n % 2 == 1,
        )
    }
}

impl FromSpecImpl<Status> for u8 {
    open spec fn obeys_from_spec() -> bool {
        true
    }

    open spec fn from_spec(value: Status) -> u8 {
        value.pack()
    }
}

impl Default for Status {
    fn default() -> (r: Status)
        ensures
            r == (Status {
                lyc_int: false,
                oam_int: false,
                vblank_int: false,
                hblank_int: false,
                lyc_equal: false,
                mode: PpuMode::OAMSearch,
            }),
    {
        Status {
            lyc_int: false,
            oam_int: false,
            vblank_int: false,
            hblank_int: false,
            lyc_equal: false,
            mode: PpuMode::OAMSearch,
        }
    }
}

/// A status packed and unpacked is the same status.
pub proof fn lemma_status_unpack_pack(s: Status)
    ensures
        Status::unpack(s.pack()) == s,
{
    lemma_bits_of_byte(
        false,
        s.lyc_int,
        s.oam_int,
        s.vblank_int,
        s.hblank_int,
        s.lyc_equal,
        s.mode.code() >= 2,
        s.mode.code() % 2 == 1,
    );
}

} // verus!
