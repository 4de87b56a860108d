//! A cartridge without a bank controller: 32 KiB of ROM and 8 KiB of RAM.

use crate::mmu::rom::{fit, fitted};
use crate::util::{high_byte, join, low_byte, lsb, msb, wrap16, Addr};
use vstd::prelude::*;

verus! {

pub const MBC0_ROM_SIZE: u16 = 0x8000;

pub const MBC0_RAM_SIZE: u16 = 0x2000;

pub const EXTERNAL_RAM_START: u16 = 0xa000;

pub const EXTERNAL_RAM_END: u16 = 0xc000;

/// What a cartridge without a controller holds.
pub struct Mbc0View {
    pub rom: Seq<u8>,
    pub ram: Seq<u8>,
}

impl Mbc0View {
    /// 32 KiB of ROM and 8 KiB of RAM.
    pub open spec fn wf(self) -> bool {
        self.rom.len() == 0x8000 && self.ram.len() == 0x2000
    }

    /// The byte read at a bus address: ROM below 0x8000, RAM from 0xa000 to
    /// 0xbfff, 0xff elsewhere.
    pub open spec fn read(self, addr: u16) -> u8 {
        if addr < 0x8000 {
            self.rom[addr as int]
        } else if 0xa000 <= addr < 0xc000 {
            self.ram[addr - 0xa000]
        } else {
            0xff
        }
    }

    /// The cartridge after a write: only RAM takes it.
    pub open spec fn write(self, addr: u16, value: u8) -> Mbc0View {
        if 0xa000 <= addr < 0xc000 {
            Mbc0View { ram: self.ram.update(addr - 0xa000, value), ..self }
        } else {
            self
        }
    }

    /// The cartridge made from an image: its first 32 KiB, zero-filled, and
    /// blank RAM.
    pub open spec fn load(raw: Seq<u8>) -> Mbc0View {
        Mbc0View { rom: fitted(raw, 0x8000), ram: Seq::new(0x2000, |i: int| 0u8) }
    }
}

/// A cartridge without a bank controller.
#[derive(Debug)]
pub struct MBC0 {
    rom: Vec<u8>,
    ram: Vec<u8>,
}

impl View for MBC0 {
    type V = Mbc0View;

    closed spec fn view(&self) -> Mbc0View {
        Mbc0View { rom: self.rom@, ram: self.ram@ }
    }
}

impl MBC0 {
    /// Makes the cartridge from an image of any length.
    pub fn new(raw: Vec<u8>) -> (r: MBC0)
        ensures
            r@ == Mbc0View::load(raw@),
            r@.wf(),
    {
        let rom = fit(raw, 0x8000);
        let ram = fit(Vec::new(), 0x2000);
        assert(ram@ =~= Seq::new(0x2000, |i: int| 0u8));
        MBC0 { rom, ram }
    }

    pub fn readu8(&self, addr: Addr) -> (r: u8)
        requires
            self@.wf(),
        ensures
            r == self@.read(addr.0),
    {
        let a = addr.0;
        if a < MBC0_ROM_SIZE {
            self.rom[a as usize]
        } else if a >= EXTERNAL_RAM_START && a < EXTERNAL_RAM_END {
            self.ram[(a - EXTERNAL_RAM_START) as usize]
        } else {
            0xff
        }
    }

    pub fn writeu8(&mut self, addr: Addr, value: u8)
        requires
            old(self)@.wf(),
        ensures
            final(self)@ == old(self)@.write(addr.0, value),
            final(self)@.wf(),
    {
        let a = addr.0;
        if a >= EXTERNAL_RAM_START && a < EXTERNAL_RAM_END {
            self.ram.set((a - EXTERNAL_RAM_START) as usize, value);
        }
    }

    /// The little-endian 16-bit value at `addr` and the address after it.
    pub fn readu16(&self, addr: Addr) -> (r: u16)
        requires
            self@.wf(),
        ensures
            r == self@.read(addr.0) + 256 * self@.read(wrap16(addr.0 + 1)),
    {
        let lo = self.readu8(addr);
        let hi = self.readu8(addr.offset(1));
        join(hi, lo)
    }

    /// Stores a 16-bit value, low byte first.
    pub fn writeu16(&mut self, addr: Addr, value: u16)
        requires
            old(self)@.wf(),
        ensures
            final(self)@ == old(self)@.write(addr.0, low_byte(value)).write(
                wrap16(addr.0 + 1),
                high_byte(value),
            ),
            final(self)@.wf(),
    {
        self.writeu8(addr, lsb(value));
        self.writeu8(addr.offset(1), msb(value));
    }
}

} // verus!
