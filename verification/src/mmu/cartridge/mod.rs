//! The cartridge: ROM and RAM behind one of three bank controllers, chosen
//! by byte 0x147 of the image.

pub mod mbc0;
pub mod mbc1;
pub mod mbc5;
pub mod ram_bank;
pub mod rom_bank;

use crate::util::{high_byte, join, low_byte, lsb, msb, wrap16, Addr};
use mbc0::{Mbc0View, MBC0};
use mbc1::{Mbc1View, MBC1};
use mbc5::{Mbc5View, MBC5};
use vstd::prelude::*;

verus! {

/// Where the image names its bank controller.
pub const MBC_MODE_ADDR: usize = 0x147;

/// Where the image gives the number of its RAM banks.
pub const RAM_BANKS_ADDR: usize = 0x149;

/// The length of the header: no image is shorter.
pub const HEADER_END: usize = 0x150;

/// Why an image is not a cartridge.
#[derive(Clone, Copy, Debug, PartialEq, Eq, Structural)]
pub enum CartridgeError {
    /// The image is shorter than its header, or not a whole number of 16 KiB
    /// banks.
    Truncated,
    /// Byte 0x147 names a bank controller that is not supported.
    UnsupportedMbc(u8),
    /// Byte 0x149 asks for more than four RAM banks.
    BadRamSize(u8),
}

/// The kinds of cartridge.
#[derive(Clone, Copy, Debug, PartialEq, Eq, Structural)]
pub enum MbcKind {
    Mbc0,
    Mbc1,
    Mbc5,
}

/// The kind of cartridge that a value of byte 0x147 stands for.
pub open spec fn kind_of(code: u8) -> Option<MbcKind> {
    if code == 0 {
        Some(MbcKind::Mbc0)
    } else if 1 <= code <= 3 {
        Some(MbcKind::Mbc1)
    } else if 0x19 <= code <= 0x1e {
        Some(MbcKind::Mbc5)
    } else {
        None
    }
}

/// The kind of cartridge that a value of byte 0x147 stands for: 0 is no
/// controller, 1 to 3 MBC1, 0x19 to 0x1e MBC5; no other value is supported.
pub fn mbc_kind(code: u8) -> (r: Option<MbcKind>)
    ensures
        r == kind_of(code),
{
    if code == 0 {
        Some(MbcKind::Mbc0)
    } else if code <= 3 {
        Some(MbcKind::Mbc1)
    } else if code >= 0x19 && code <= 0x1e {
        Some(MbcKind::Mbc5)
    } else {
        None
    }
}

/// What a cartridge holds.
pub enum CartridgeView {
    MBC0(Mbc0View),
    MBC1(Mbc1View),
    MBC5(Mbc5View),
}

impl CartridgeView {
    pub open spec fn wf(self) -> bool {
        match self {
            CartridgeView::MBC0(c) => c.wf(),
            CartridgeView::MBC1(c) => c.wf(),
            CartridgeView::MBC5(c) => c.wf(),
        }
    }

    /// The byte read at a bus address.
    pub open spec fn read(self, addr: u16) -> u8 {
        match self {
            CartridgeView::MBC0(c) => c.read(addr),
            CartridgeView::MBC1(c) => c.read(addr),
            CartridgeView::MBC5(c) => c.read(addr),
        }
    }

    /// The cartridge after a write.
    pub open spec fn write(self, addr: u16, value: u8) -> CartridgeView {
        match self {
            CartridgeView::MBC0(c) => CartridgeView::MBC0(c.write(addr, value)),
            CartridgeView::MBC1(c) => CartridgeView::MBC1(c.write(addr, value)),
            CartridgeView::MBC5(c) => CartridgeView::MBC5(c.write(addr, value)),
        }
    }

    /// The cartridge that an image makes, or why it makes none.
    pub open spec fn load(raw: Seq<u8>) -> Result<CartridgeView, CartridgeError> {
        if raw.len() < HEADER_END || raw.len() % 0x4000 != 0 {
            Err(CartridgeError::Truncated)
        } else {
            match kind_of(raw[MBC_MODE_ADDR as int]) {
                None => Err(CartridgeError::UnsupportedMbc(raw[MBC_MODE_ADDR as int])),
                Some(MbcKind::Mbc0) => Ok(CartridgeView::MBC0(Mbc0View::load(raw))),
                Some(kind) => if raw[RAM_BANKS_ADDR as int] > 4 {
                    Err(CartridgeError::BadRamSize(raw[RAM_BANKS_ADDR as int]))
                } else if kind == MbcKind::Mbc1 {
                    Ok(CartridgeView::MBC1(Mbc1View::load(raw)))
                } else {
                    Ok(CartridgeView::MBC5(Mbc5View::load(raw)))
                },
            }
        }
    }
}

/// A cartridge.
#[derive(Debug)]
pub enum Cartridge {
    /// No bank controller.
    MBC0(MBC0),
    MBC1(MBC1),
    MBC5(MBC5),
}

impl View for Cartridge {
    type V = CartridgeView;

    open spec fn view(&self) -> CartridgeView {
        match self {
            Cartridge::MBC0(c) => CartridgeView::MBC0(c@),
            Cartridge::MBC1(c) => CartridgeView::MBC1(c@),
            Cartridge::MBC5(c) => CartridgeView::MBC5(c@),
        }
    }
}

impl Cartridge {
    /// Makes a cartridge from an image. The image is refused if it is
    /// shorter than 0x150 bytes or not a multiple of 16 KiB long, if byte
    /// 0x147 names an unsupported controller, or if a cartridge with a
    /// controller asks for more than four RAM banks.
    pub fn new(raw: Vec<u8>) -> (r: Result<Cartridge, CartridgeError>)
        ensures
            r is Ok <==> CartridgeView::load(raw@) is Ok,
            r is Ok ==> r->Ok_0@ == CartridgeView::load(raw@)->Ok_0 && r->Ok_0@.wf(),
            r is Err ==> r->Err_0 == CartridgeView::load(raw@)->Err_0,
    {
        if raw.len() < HEADER_END || raw.len() % 0x4000 != 0 {
            return Err(CartridgeError::Truncated);
        }
        let mbc_mode = raw[MBC_MODE_ADDR];
        let rams = raw[RAM_BANKS_ADDR];
        match mbc_kind(mbc_mode) {
            None => Err(CartridgeError::UnsupportedMbc(mbc_mode)),
            Some(MbcKind::Mbc0) => Ok(Cartridge::MBC0(MBC0::new(raw))),
            Some(MbcKind::Mbc1) => {
                if rams > 4 {
                    Err(CartridgeError::BadRamSize(rams))
                } else {
                    Ok(Cartridge::MBC1(MBC1::new(raw, mbc_mode)))
                }
            },
            Some(MbcKind::Mbc5) => {
                if rams > 4 {
                    Err(CartridgeError::BadRamSize(rams))
                } else {
                    Ok(Cartridge::MBC5(MBC5::new(raw, mbc_mode)))
                }
            },
        }
    }

    pub fn readu8(&self, addr: Addr) -> (r: u8)
        requires
            self@.wf(),
        ensures
            r == self@.read(addr.0),
    {
        match self {
            Cartridge::MBC0(mbc0) => mbc0.readu8(addr),
            Cartridge::MBC1(mbc1) => mbc1.readu8(addr),
            Cartridge::MBC5(mbc5) => mbc5.readu8(addr),
        }
    }

    pub fn writeu8(&mut self, addr: Addr, value: u8)
        requires
            old(self)@.wf(),
        ensures
            final(self)@ == old(self)@.write(addr.0, value),
            final(self)@.wf(),
    {
        match self {
            Cartridge::MBC0(mbc0) => mbc0.writeu8(addr, value),
            Cartridge::MBC1(mbc1) => mbc1.writeu8(addr, value),
            Cartridge::MBC5(mbc5) => mbc5.writeu8(addr, value),
        }
    }

    /// The little-endian 16-bit value at `addr` and the address after it.
    pub fn readu16(&self, addr: Addr) -> (r: u16)
        requires
            self@.wf(),
        ensures
            r == self@.read(addr.0) + 256 * self@.read(wrap16(addr.0 + 1)),
    {
        let lo = self.readu8(addr);
        let hi = self.readu8(addr.offset(1));
        join(hi, lo)
    }

    /// Stores a 16-bit value, low byte first.
    pub fn writeu16(&mut self, addr: Addr, value: u16)
        requires
            old(self)@.wf(),
        ensures
            final(self)@ == old(self)@.write(addr.0, low_byte(value)).write(
                wrap16(addr.0 + 1),
                high_byte(value),
            ),
            final(self)@.wf(),
    {
        self.writeu8(addr, lsb(value));
        self.writeu8(addr.offset(1), msb(value));
    }
}

/// A write leaves a well-formed cartridge well-formed.
pub proof fn lemma_cartridge_write_keeps_wf(c: CartridgeView, addr: u16, value: u8)
    requires
        c.wf(),
    ensures
        c.write(addr, value).wf(),
{
    match c {
        CartridgeView::MBC0(m) => {},
        CartridgeView::MBC1(m) => {
            if 0xa000 <= addr < 0xc000 && m.ram_on() {
                let bank = m.ram_number() % m.ram.len() as int;
                assert(m.ram[bank].len() == 0x2000);
                let after = m.write(addr, value);
                assert forall|i: int| 0 <= i < after.ram.len() implies (#[trigger] after.ram[i]).len()
                    == 0x2000 by {
                    assert(m.ram[i].len() == 0x2000);
                }
            }
        },
        CartridgeView::MBC5(m) => {
            if 0xa000 <= addr < 0xc000 && m.ram_on() {
                let bank = m.cur_ram as int % m.ram.len() as int;
                assert(m.ram[bank].len() == 0x2000);
                let after = m.write(addr, value);
                assert forall|i: int| 0 <= i < after.ram.len() implies (#[trigger] after.ram[i]).len()
                    == 0x2000 by {
                    assert(m.ram[i].len() == 0x2000);
                }
            }
        },
    }
}

} // verus!
