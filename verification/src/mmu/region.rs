//! The regions of the 16-bit address space.
//!
//! | Range         | Region                                   |
//! |---------------|------------------------------------------|
//! | 0x0000-0x00ff | boot ROM, while it is mapped             |
//! | 0x0000-0x7fff | cartridge ROM                            |
//! | 0x8000-0x9fff | video RAM                                |
//! | 0xa000-0xbfff | cartridge RAM                            |
//! | 0xc000-0xdfff | work RAM                                 |
//! | 0xe000-0xfdff | echo of work RAM 0xc000-0xddff           |
//! | 0xfe00-0xfe9f | object attribute memory                  |
//! | 0xfea0-0xfeff | not usable                               |
//! | 0xff00-0xff7f | I/O registers                            |
//! | 0xff80-0xfffe | high RAM                                 |
//! | 0xffff        | interrupt enable register                |

use crate::util::Addr;
use vstd::prelude::*;

verus! {

/// A region of the address space.
#[derive(Clone, Copy, Debug, PartialEq, Eq, Structural)]
pub enum Region {
    BootRom,
    CartridgeRom,
    VideoRam,
    CartridgeRam,
    WorkRam,
    EchoRam,
    Oam,
    NotUsable,
    IoRegisters,
    HighRam,
    InterruptEnable,
}

impl Region {
    /// The first address of the region. While the boot ROM is mapped, the
    /// cartridge ROM begins behind it.
    pub open spec fn first(self, boot: bool) -> u16 {
        match self {
            Region::BootRom => 0x0000,
            Region::CartridgeRom => if boot {
                0x0100
            } else {
                0x0000
            },
            Region::VideoRam => 0x8000,
            Region::CartridgeRam => 0xa000,
            Region::WorkRam => 0xc000,
            Region::EchoRam => 0xe000,
            Region::Oam => 0xfe00,
            Region::NotUsable => 0xfea0,
            Region::IoRegisters => 0xff00,
            Region::HighRam => 0xff80,
            Region::InterruptEnable => 0xffff,
        }
    }

    /// The last address of the region.
    pub open spec fn last(self) -> u16 {
        match self {
            Region::BootRom => 0x00ff,
            Region::CartridgeRom => 0x7fff,
            Region::VideoRam => 0x9fff,
            Region::CartridgeRam => 0xbfff,
            Region::WorkRam => 0xdfff,
            Region::EchoRam => 0xfdff,
            Region::Oam => 0xfe9f,
            Region::NotUsable => 0xfeff,
            Region::IoRegisters => 0xff7f,
            Region::HighRam => 0xfffe,
            Region::InterruptEnable => 0xffff,
        }
    }

    /// Whether the region answers for an address. The boot ROM answers for
    /// none once it is unmapped.
    pub open spec fn covers(self, addr: u16, boot: bool) -> bool {
        self.first(boot) <= addr <= self.last() && (self == Region::BootRom ==> boot)
    }

    /// The region that answers for an address.
    pub open spec fn of(addr: u16, boot: bool) -> Region {
        if addr < 0x0100 && boot {
            Region::BootRom
        } else if addr < 0x8000 {
            Region::CartridgeRom
        } else if addr < 0xa000 {
            Region::VideoRam
        } else if addr < 0xc000 {
            Region::CartridgeRam
        } else if addr < 0xe000 {
            Region::WorkRam
        } else if addr < 0xfe00 {
            Region::EchoRam
        } else if addr < 0xfea0 {
            Region::Oam
        } else if addr < 0xff00 {
            Region::NotUsable
        } else if addr < 0xff80 {
            Region::IoRegisters
        } else if addr < 0xffff {
            Region::HighRam
        } else {
            Region::InterruptEnable
        }
    }

    /// The first address of the region.
    pub fn start(self, boot: bool) -> (r: Addr)
        ensures
            r.0 == self.first(boot),
    {
        match self {
            Region::BootRom => Addr(0x0000),
            Region::CartridgeRom => if boot {
                Addr(0x0100)
            } else {
                Addr(0x0000)
            },
            Region::VideoRam => Addr(0x8000),
            Region::CartridgeRam => Addr(0xa000),
            Region::WorkRam => Addr(0xc000),
            Region::EchoRam => Addr(0xe000),
            Region::Oam => Addr(0xfe00),
            Region::NotUsable => Addr(0xfea0),
            Region::IoRegisters => Addr(0xff00),
            Region::HighRam => Addr(0xff80),
            Region::InterruptEnable => Addr(0xffff),
        }
    }

    /// The last address of the region.
    pub fn end(self) -> (r: Addr)
        ensures
            r.0 == self.last(),
    {
        match self {
            Region::BootRom => Addr(0x00ff),
            Region::CartridgeRom => Addr(0x7fff),
            Region::VideoRam => Addr(0x9fff),
            Region::CartridgeRam => Addr(0xbfff),
            Region::WorkRam => Addr(0xdfff),
            Region::EchoRam => Addr(0xfdff),
            Region::Oam => Addr(0xfe9f),
            Region::NotUsable => Addr(0xfeff),
            Region::IoRegisters => Addr(0xff7f),
            Region::HighRam => Addr(0xfffe),
            Region::InterruptEnable => Addr(0xffff),
        }
    }

    /// Whether the region answers for an address.
    pub fn contains(self, addr: Addr, boot: bool) -> (r: bool)
        ensures
            r == self.covers(addr.0, boot),
    {
        let inside = self.start(boot).le(addr) && addr.le(self.end());
        match self {
            Region::BootRom => inside && boot,
            _ => inside,
        }
    }

    /// The region that answers for an address.
    pub fn find(addr: Addr, boot: bool) -> (r: Region)
        ensures
            r == Region::of(addr.0, boot),
            r.covers(addr.0, boot),
    {
        let a = addr.0;
        if a < 0x0100 && boot {
            Region::BootRom
        } else if a < 0x8000 {
            Region::CartridgeRom
        } else if a < 0xa000 {
            Region::VideoRam
        } else if a < 0xc000 {
            Region::CartridgeRam
        } else if a < 0xe000 {
            Region::WorkRam
        } else if a < 0xfe00 {
            Region::EchoRam
        } else if a < 0xfea0 {
            Region::Oam
        } else if a < 0xff00 {
            Region::NotUsable
        } else if a < 0xff80 {
            Region::IoRegisters
        } else if a < 0xffff {
            Region::HighRam
        } else {
            Region::InterruptEnable
        }
    }

    /// The place of an address of the region, counted from its start. An
    /// address of the echo thus falls on the byte of work RAM that it
    /// mirrors.
    pub fn remap_addr(self, addr: Addr, boot: bool) -> (r: Addr)
        requires
            self.covers(addr.0, boot),
        ensures
            r.0 == addr.0 - self.first(boot),
    {
        addr.wrapping_sub(self.start(boot))
    }
}

/// The regions cover the address space and no two of them overlap: for every
/// address, whether the boot ROM is mapped or not, exactly one region
/// answers.
pub proof fn lemma_regions_partition(addr: u16, boot: bool)
    ensures
        Region::of(addr, boot).covers(addr, boot),
        forall|r: Region| r.covers(addr, boot) ==> r == Region::of(addr, boot),
{
}

/// Two regions that answer for one address are the same region.
pub proof fn lemma_regions_disjoint(a: Region, b: Region, addr: u16, boot: bool)
    requires
        a.covers(addr, boot),
        b.covers(addr, boot),
    ensures
        a == b,
{
}

} // verus!
