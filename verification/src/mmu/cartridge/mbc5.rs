//! A cartridge with an MBC5 controller: up to 512 ROM banks, selected by a
//! nine-bit number, and up to sixteen RAM banks.

use super::ram_bank::{blank_banks, blank_ram, ram_view, RamBank};
use super::rom_bank::{rom_banks, rom_view, split_banks, RomBank};
use crate::util::{high_byte, join, low_byte, lsb, msb, wrap16, Addr};
use vstd::prelude::*;

verus! {

pub const NUM_OF_RAMS_ADDR: usize = 0x149;

/// What an MBC5 cartridge holds.
pub struct Mbc5View {
    /// The ROM banks, 16 KiB each.
    pub rom: Seq<Seq<u8>>,
    /// The RAM banks, 8 KiB each.
    pub ram: Seq<Seq<u8>>,
    /// The low eight bits of the ROM bank number.
    pub cur_rom_lower: u8,
    /// Bit 8 of the ROM bank number.
    pub cur_rom_higher: u8,
    /// The four-bit RAM bank number.
    pub cur_ram: u8,
    pub ram_enabled: bool,
}

impl Mbc5View {
    pub open spec fn wf(self) -> bool {
        &&& self.rom.len() >= 1
        &&& forall|i: int| 0 <= i < self.rom.len() ==> (#[trigger] self.rom[i]).len() == 0x4000
        &&& forall|i: int| 0 <= i < self.ram.len() ==> (#[trigger] self.ram[i]).len() == 0x2000
        &&& self.cur_rom_higher < 2
        &&& self.cur_ram < 16
    }

    /// The nine-bit ROM bank number, before it is reduced to the banks that
    /// exist.
    pub open spec fn rom_number(self) -> int {
        self.cur_rom_higher * 256 + self.cur_rom_lower
    }

    /// Whether RAM answers: it is enabled and there is some.
    pub open spec fn ram_on(self) -> bool {
        self.ram_enabled && self.ram.len() > 0
    }

    /// The byte read at a bus address. Bank 0 is seen from 0x0000 to 0x3fff,
    /// the selected bank from 0x4000 to 0x7fff; RAM that is off reads 0xff.
    pub open spec fn read(self, addr: u16) -> u8 {
        if addr < 0x4000 {
            self.rom[0][addr as int]
        } else if addr < 0x8000 {
            self.rom[self.rom_number() % self.rom.len() as int][addr - 0x4000]
        } else if 0xa000 <= addr < 0xc000 {
            if self.ram_on() {
                self.ram[self.cur_ram as int % self.ram.len() as int][addr - 0xa000]
            } else {
                0xff
            }
        } else {
            0xff
        }
    }

    /// The cartridge after a write. Below 0x6000 a write sets a register;
    /// from 0xa000 to 0xbfff it goes to RAM, if that is on.
    pub open spec fn write(self, addr: u16, value: u8) -> Mbc5View {
        if addr < 0x2000 {
            Mbc5View { ram_enabled: value & 0x0f == 0x0a, ..self }
        } else if addr < 0x3000 {
            Mbc5View { cur_rom_lower: value, ..self }
        } else if addr < 0x4000 {
            Mbc5View { cur_rom_higher: value % 2, ..self }
        } else if addr < 0x6000 {
            Mbc5View { cur_ram: value % 16, ..self }
        } else if 0xa000 <= addr < 0xc000 && self.ram_on() {
            let bank = self.cur_ram as int % self.ram.len() as int;
            Mbc5View { ram: self.ram.update(bank, self.ram[bank].update(addr - 0xa000, value)), ..self }
        } else {
            self
        }
    }

    /// The cartridge made from an image: its ROM banks, as many blank RAM
    /// banks as byte 0x149 says, ROM bank 0 and RAM bank 0 selected, RAM off.
    pub open spec fn load(raw: Seq<u8>) -> Mbc5View {
        Mbc5View {
            rom: rom_banks(raw),
            ram: blank_ram(raw[NUM_OF_RAMS_ADDR as int] as nat),
            cur_rom_lower: 0,
            cur_rom_higher: 0,
            cur_ram: 0,
            ram_enabled: false,
        }
    }
}

/// A cartridge with an MBC5 controller.
#[derive(Debug)]
pub struct MBC5 {
    roms: Vec<RomBank>,
    rams: Vec<RamBank>,
    cur_rom_lower: u8,
    cur_rom_higher: u8,
    cur_ram: u8,
    ram_enabled: bool,
}

impl View for MBC5 {
    type V = Mbc5View;

    closed spec fn view(&self) -> Mbc5View {
        Mbc5View {
            rom: rom_view(self.roms@),
            ram: ram_view(self.rams@),
            cur_rom_lower: self.cur_rom_lower,
            cur_rom_higher: self.cur_rom_higher,
            cur_ram: self.cur_ram,
            ram_enabled: self.ram_enabled,
        }
    }
}

impl MBC5 {
    /// Makes the cartridge from an image that holds a header and is a whole
    /// number of banks long.
    pub fn new(raw: Vec<u8>, _mbc_mode: u8) -> (r: MBC5)
        requires
            raw@.len() >= 0x150,
            raw@.len() % 0x4000 == 0,
            raw@[NUM_OF_RAMS_ADDR as int] <= 4,
        ensures
            r@ == Mbc5View::load(raw@),
            r@.wf(),
    {
        let num_rams = raw[NUM_OF_RAMS_ADDR] as usize;
        let roms = split_banks(&raw);
        let rams = blank_banks(num_rams);
        let r = MBC5 { roms, rams, cur_rom_lower: 0, cur_rom_higher: 0, cur_ram: 0, ram_enabled: false };
        proof {
            assert forall|i: int| 0 <= i < r@.rom.len() implies (#[trigger] r@.rom[i]).len() == 0x4000 by {
                assert(r.roms@[i].wf());
            }
            assert forall|i: int| 0 <= i < r@.ram.len() implies (#[trigger] r@.ram[i]).len() == 0x2000 by {
                assert(r.rams@[i].wf());
            }
        }
        r
    }

    /// The nine-bit number of the ROM bank seen from 0x4000 on.
    pub fn get_rom_number(&self) -> (r: usize)
        requires
            self@.wf(),
        ensures
            r == self@.rom_number(),
    {
        self.cur_rom_higher as usize * 256 + self.cur_rom_lower as usize
    }

    pub fn readu8(&self, addr: Addr) -> (r: u8)
        requires
            self@.wf(),
        ensures
            r == self@.read(addr.0),
    {
        let a = addr.0;
        if a < 0x4000 {
            assert(self.roms@[0].wf()) by {
                assert(self@.rom[0].len() == 0x4000);
            }
            self.roms[0].readu8(addr)
        } else if a < 0x8000 {
            let index = self.get_rom_number() % self.roms.len();
            assert(self.roms@[index as int].wf()) by {
                assert(self@.rom[index as int].len() == 0x4000);
            }
            self.roms[index].readu8(addr)
        } else if a >= 0xa000 && a < 0xc000 {
            if self.ram_enabled && self.rams.len() > 0 {
                let index = self.cur_ram as usize % self.rams.len();
                assert(self.rams@[index as int].wf()) by {
                    assert(self@.ram[index as int].len() == 0x2000);
                }
                self.rams[index].readu8(addr)
            } else {
                0xff
            }
        } else {
            0xff
        }
    }

    pub fn writeu8(&mut self, addr: Addr, value: u8)
        requires
            old(self)@.wf(),
        ensures
            final(self)@ == old(self)@.write(addr.0, value),
            final(self)@.wf(),
    {
        let a = addr.0;
        if a < 0x2000 {
            self.ram_enabled = value & 0x0f == 0x0a;
        } else if a < 0x3000 {
            self.cur_rom_lower = value;
        } else if a < 0x4000 {
            self.cur_rom_higher = value % 2;
        } else if a < 0x6000 {
            self.cur_ram = value % 16;
        } else if a >= 0xa000 && a < 0xc000 && self.ram_enabled && self.rams.len() > 0 {
            let index = self.cur_ram as usize % self.rams.len();
            assert(self.rams@[index as int].wf()) by {
                assert(self@.ram[index as int].len() == 0x2000);
            }
            self.rams[index].writeu8(addr, value);
            proof {
                let before = old(self)@;
                assert(self@.ram =~= before.ram.update(
                    index as int,
                    before.ram[index as int].update(addr.0 - 0xa000, value),
                ));
            }
        }
    }

    /// The little-endian 16-bit value at `addr` and the address after it.
    pub fn readu16(&self, addr: Addr) -> (r: u16)
        requires
            self@.wf(),
        ensures
            r == self@.read(addr.0) + 256 * self@.read(wrap16(addr.0 + 1)),
    {
        let lo = self.readu8(addr);
        let hi = self.readu8(addr.offset(1));
        join(hi, lo)
    }

    /// Stores a 16-bit value, low byte first.
    pub fn writeu16(&mut self, addr: Addr, value: u16)
        requires
            old(self)@.wf(),
        ensures
            final(self)@ == old(self)@.write(addr.0, low_byte(value)).write(
                wrap16(addr.0 + 1),
                high_byte(value),
            ),
            final(self)@.wf(),
    {
        self.writeu8(addr, lsb(value));
        self.writeu8(addr.offset(1), msb(value));
    }
}

} // verus!
