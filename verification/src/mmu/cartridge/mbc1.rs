//! A cartridge with an MBC1 controller: up to 128 ROM banks, of which the
//! low five bits of the number come from one register and two more bits from
//! a second one, and up to four RAM banks.

use super::ram_bank::{blank_banks, blank_ram, ram_view, RamBank};
use super::rom_bank::{rom_banks, rom_view, split_banks, RomBank};
use crate::util::{high_byte, join, low_byte, lsb, msb, wrap16, Addr};
use vstd::prelude::*;

verus! {

pub const NUM_OF_RAMS_ADDR: usize = 0x149;

/// What an MBC1 cartridge holds.
pub struct Mbc1View {
    /// The ROM banks, 16 KiB each.
    pub rom: Seq<Seq<u8>>,
    /// The RAM banks, 8 KiB each.
    pub ram: Seq<Seq<u8>>,
    /// The five-bit bank register; never zero.
    pub cur_rom: u8,
    /// The two-bit secondary register.
    pub secondary: u8,
    pub ram_enabled: bool,
    /// The banking mode: when set, the secondary register picks the RAM
    /// bank, else it gives bits 5 and 6 of the ROM bank.
    pub use_secondary: bool,
}

impl Mbc1View {
    pub open spec fn wf(self) -> bool {
        &&& self.rom.len() >= 1
        &&& forall|i: int| 0 <= i < self.rom.len() ==> (#[trigger] self.rom[i]).len() == 0x4000
        &&& forall|i: int| 0 <= i < self.ram.len() ==> (#[trigger] self.ram[i]).len() == 0x2000
        &&& 1 <= self.cur_rom < 32
        &&& self.secondary < 4
    }

    /// The ROM bank seen from 0x4000 to 0x7fff, before it is reduced to the
    /// banks that exist.
    pub open spec fn rom_number(self) -> int {
        if self.use_secondary {
            self.cur_rom as int
        } else {
            self.secondary * 32 + self.cur_rom
        }
    }

    /// The RAM bank seen from 0xa000 to 0xbfff, before it is reduced to the
    /// banks that exist.
    pub open spec fn ram_number(self) -> int {
        if self.use_secondary {
            self.secondary as int
        } else {
            0
        }
    }

    /// Whether RAM answers: it is enabled and there is some.
    pub open spec fn ram_on(self) -> bool {
        self.ram_enabled && self.ram.len() > 0
    }

    /// The byte read at a bus address. Bank 0 is seen from 0x0000 to 0x3fff,
    /// the selected bank from 0x4000 to 0x7fff; RAM that is off reads 0xff.
    pub open spec fn read(self, addr: u16) -> u8 {
        if addr < 0x4000 {
            self.rom[0][addr as int]
        } else if addr < 0x8000 {
            self.rom[self.rom_number() % self.rom.len() as int][addr - 0x4000]
        } else if 0xa000 <= addr < 0xc000 {
            if self.ram_on() {
                self.ram[self.ram_number() % self.ram.len() as int][addr - 0xa000]
            } else {
                0xff
            }
        } else {
            0xff
        }
    }

    /// The cartridge after a write. Below 0x8000 a write sets a register;
    /// from 0xa000 to 0xbfff it goes to RAM, if that is on.
    pub open spec fn write(self, addr: u16, value: u8) -> Mbc1View {
        if addr < 0x2000 {
            Mbc1View { ram_enabled: value & 0x0f == 0x0a, ..self }
        } else if addr < 0x4000 {
            Mbc1View {
                cur_rom: if value % 32 == 0 {
                    1
                } else {
                    value % 32
                },
                ..self
            }
        } else if addr < 0x6000 {
            Mbc1View { secondary: value % 4, ..self }
        } else if addr < 0x8000 {
            Mbc1View { use_secondary: value % 2 == 1, ..self }
        } else if 0xa000 <= addr < 0xc000 && self.ram_on() {
            let bank = self.ram_number() % self.ram.len() as int;
            Mbc1View { ram: self.ram.update(bank, self.ram[bank].update(addr - 0xa000, value)), ..self }
        } else {
            self
        }
    }

    /// The cartridge made from an image: its ROM banks, as many blank RAM
    /// banks as byte 0x149 says, bank 1 selected and RAM off.
    pub open spec fn load(raw: Seq<u8>) -> Mbc1View {
        Mbc1View {
            rom: rom_banks(raw),
            ram: blank_ram(raw[NUM_OF_RAMS_ADDR as int] as nat),
            cur_rom: 1,
            secondary: 0,
            ram_enabled: false,
            use_secondary: false,
        }
    }
}

/// A cartridge with an MBC1 controller.
#[derive(Debug)]
pub struct MBC1 {
    roms: Vec<RomBank>,
    rams: Vec<RamBank>,
    cur_rom: u8,
    secondary: u8,
    ram_enabled: bool,
    use_secondary: bool,
}

impl View for MBC1 {
    type V = Mbc1View;

    closed spec fn view(&self) -> Mbc1View {
        Mbc1View {
            rom: rom_view(self.roms@),
            ram: ram_view(self.rams@),
            cur_rom: self.cur_rom,
            secondary: self.secondary,
            ram_enabled: self.ram_enabled,
            use_secondary: self.use_secondary,
        }
    }
}

impl MBC1 {
    /// Makes the cartridge from an image that holds a header and is a whole
    /// number of banks long.
    pub fn new(raw: Vec<u8>, _mbc_mode: u8) -> (r: MBC1)
        requires
            raw@.len() >= 0x150,
            raw@.len() % 0x4000 == 0,
            raw@[NUM_OF_RAMS_ADDR as int] <= 4,
        ensures
            r@ == Mbc1View::load(raw@),
            r@.wf(),
    {
        let num_rams = raw[NUM_OF_RAMS_ADDR] as usize;
        let roms = split_banks(&raw);
        let rams = blank_banks(num_rams);
        let r = MBC1 { roms, rams, cur_rom: 1, secondary: 0, ram_enabled: false, use_secondary: false };
        proof {
            assert forall|i: int| 0 <= i < r@.rom.len() implies (#[trigger] r@.rom[i]).len() == 0x4000 by {
                assert(r.roms@[i].wf());
            }
            assert forall|i: int| 0 <= i < r@.ram.len() implies (#[trigger] r@.ram[i]).len() == 0x2000 by {
                assert(r.rams@[i].wf());
            }
        }
        r
    }

    /// The number of the ROM bank seen from 0x4000 on.
    pub fn get_rom_number(&self) -> (r: usize)
        requires
            self@.wf(),
        ensures
            r == self@.rom_number(),
    {
        if self.use_secondary {
            self.cur_rom as usize
        } else {
            self.secondary as usize * 32 + self.cur_rom as usize
        }
    }

    pub fn readu8(&self, addr: Addr) -> (r: u8)
        requires
            self@.wf(),
        ensures
            r == self@.read(addr.0),
    {
        let a = addr.0;
        if a < 0x4000 {
            assert(self.roms@[0].wf()) by {
                assert(self@.rom[0].len() == 0x4000);
            }
            self.roms[0].readu8(addr)
        } else if a < 0x8000 {
            let index = self.get_rom_number() % self.roms.len();
            assert(self.roms@[index as int].wf()) by {
                assert(self@.rom[index as int].len() == 0x4000);
            }
            self.roms[index].readu8(addr)
        } else if a >= 0xa000 && a < 0xc000 {
            if self.ram_enabled && self.rams.len() > 0 {
                let bank = if self.use_secondary {
                    self.secondary as usize
                } else {
                    0
                };
                let index = bank % self.rams.len();
                assert(self.rams@[index as int].wf()) by {
                    assert(self@.ram[index as int].len() == 0x2000);
                }
                self.rams[index].readu8(addr)
            } else {
                0xff
            }
        } else {
            0xff
        }
    }

    pub fn writeu8(&mut self, addr: Addr, value: u8)
        requires
            old(self)@.wf(),
        ensures
            final(self)@ == old(self)@.write(addr.0, value),
            final(self)@.wf(),
    {
        let a = addr.0;
        if a < 0x2000 {
            self.ram_enabled = value & 0x0f == 0x0a;
        } else if a < 0x4000 {
            let cur_rom = value % 32;
            self.cur_rom = if cur_rom == 0 {
                1
            } else {
                cur_rom
            };
        } else if a < 0x6000 {
            self.secondary = value % 4;
        } else if a < 0x8000 {
            self.use_secondary = value % 2 == 1;
        } else if a >= 0xa000 && a < 0xc000 && self.ram_enabled && self.rams.len() > 0 {
            let bank = if self.use_secondary {
                self.secondary as usize
            } else {
                0
            };
            let index = bank % self.rams.len();
            assert(self.rams@[index as int].wf()) by {
                assert(self@.ram[index as int].len() == 0x2000);
            }
            self.rams[index].writeu8(addr, value);
            proof {
                let before = old(self)@;
                assert(self@.ram =~= before.ram.update(
                    index as int,
                    before.ram[index as int].update(addr.0 - 0xa000, value),
                ));
            }
        }
    }

    /// The little-endian 16-bit value at `addr` and the address after it.
    pub fn readu16(&self, addr: Addr) -> (r: u16)
        requires
            self@.wf(),
        ensures
            r == self@.read(addr.0) + 256 * self@.read(wrap16(addr.0 + 1)),
    {
        let lo = self.readu8(addr);
        let hi = self.readu8(addr.offset(1));
        join(hi, lo)
    }

    /// Stores a 16-bit value, low byte first.
    pub fn writeu16(&mut self, addr: Addr, value: u16)
        requires
            old(self)@.wf(),
        ensures
            final(self)@ == old(self)@.write(addr.0, low_byte(value)).write(
                wrap16(addr.0 + 1),
                high_byte(value),
            ),
            final(self)@.wf(),
    {
        self.writeu8(addr, lsb(value));
        self.writeu8(addr.offset(1), msb(value));
    }
}

} // verus!
