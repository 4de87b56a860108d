//! The memory bus: it finds the device behind each address and hands reads
//! and writes on to it.

pub mod cartridge;
pub mod laws;
pub mod not_usable;
pub mod ram;
pub mod region;
pub mod rom;

use crate::cpu::interrupts::{Interrupt, Interrupts};
use crate::joypad::{Joypad, Key, REG_JOYPAD};
use crate::ppu::{PpuView, PPU};
use crate::timer::{Select, Timer, TimerControl, REG_DIV, REG_TAC, REG_TIMA, REG_TMA};
use crate::util::{high_byte, join, low_byte, lsb, msb, nth_bit, wrap16, Addr};
use cartridge::{Cartridge, CartridgeError, CartridgeView};
use not_usable::NotUsableHigh;
use ram::RAM;
use region::Region;
use rom::{fitted, ROM};
use vstd::prelude::*;

verus! {

pub const IFR: u16 = 0xff0f;

pub const DMA: u16 = 0xff46;

pub const BANK_REG: u16 = 0xff50;

/// Everything behind the bus.
pub struct MmuView {
    /// The boot ROM is unmapped. Once set, this stays set.
    pub boot_disabled: bool,
    pub bootrom: Option<Seq<u8>>,
    pub cartridge: CartridgeView,
    pub work_ram: Seq<u8>,
    pub high_ram: Seq<u8>,
    /// `IE`.
    pub ier: Interrupts,
    /// Bit 1 of `IF`.
    pub lcd_stat_request: bool,
    /// Bit 3 of `IF`.
    pub serial_request: bool,
    pub ppu: PpuView,
    pub timer: Timer,
    pub joypad: Joypad,
}

impl MmuView {
    pub open spec fn wf(self) -> bool {
        &&& !self.boot_disabled ==> self.bootrom is Some
        &&& self.bootrom is Some ==> self.bootrom->0.len() == 0x100
        &&& self.cartridge.wf()
        &&& self.work_ram.len() == 0x2000
        &&& self.high_ram.len() == 0x7f
        &&& self.ppu.wf()
    }

    /// The machine behind the bus when it is switched on. A boot ROM, if
    /// there is one, is mapped; the memories are zero, the timer stands
    /// still, no key is held down and no interrupt is requested. Of the
    /// interrupts only the vertical blank is enabled.
    pub open spec fn power_on(cartridge: CartridgeView, bootrom: Option<Seq<u8>>) -> MmuView {
        MmuView {
            boot_disabled: bootrom is None,
            bootrom: match bootrom {
                Some(bytes) => Some(fitted(bytes, 0x100)),
                None => None,
            },
            cartridge,
            work_ram: Seq::new(0x2000, |i: int| 0u8),
            high_ram: Seq::new(0x7f, |i: int| 0u8),
            ier: Interrupts { vblank: true, lcd_stat: false, timer: false, serial: false, joypad: false },
            lcd_stat_request: false,
            serial_request: false,
            ppu: PpuView::power_on(),
            timer: Timer {
                divider: 0,
                counter: 0,
                tm: 0,
                tc: TimerControl { enable: false, select: Select::Zero },
                prev_and_res: false,
                interrupt: false,
            },
            joypad: Joypad {
                select_button: true,
                select_dir: true,
                down: false,
                up: false,
                left: false,
                right: false,
                start: false,
                select: false,
                button_a: false,
                button_b: false,
                interrupt: false,
            },
        }
    }

    /// The region that answers for an address.
    pub open spec fn region(self, addr: u16) -> Region {
        Region::of(addr, !self.boot_disabled)
    }

    /// `IF`: the requests that the PPU, the timer and the joypad hold, and
    /// the two that no device of this machine raises.
    pub open spec fn ifr(self) -> Interrupts {
        Interrupts {
            vblank: self.ppu.vblank_interrupt,
            lcd_stat: self.lcd_stat_request,
            timer: self.timer.interrupt,
            serial: self.serial_request,
            joypad: self.joypad.interrupt,
        }
    }

    /// The machine with `IF` replaced.
    pub open spec fn with_ifr(self, i: Interrupts) -> MmuView {
        MmuView {
            ppu: PpuView { vblank_interrupt: i.vblank, ..self.ppu },
            lcd_stat_request: i.lcd_stat,
            timer: Timer { interrupt: i.timer, ..self.timer },
            serial_request: i.serial,
            joypad: Joypad { interrupt: i.joypad, ..self.joypad },
            ..self
        }
    }

    /// What a read of an I/O register gives. Registers that this machine
    /// does not have (serial, audio and others) read 0xff.
    pub open spec fn read_io(self, addr: u16) -> u8 {
        if addr == REG_JOYPAD {
            self.joypad.register()
        } else if addr == REG_DIV {
            high_byte(self.timer.divider)
        } else if addr == REG_TIMA {
            self.timer.counter
        } else if addr == REG_TMA {
            self.timer.tm
        } else if addr == REG_TAC {
            self.timer.tc.pack()
        } else if addr == IFR {
            self.ifr().pack()
        } else if 0xff40 <= addr <= 0xff4b {
            self.ppu.read_register(addr)
        } else if addr == BANK_REG {
            if self.boot_disabled {
                1
            } else {
                0
            }
        } else {
            0xff
        }
    }

    /// The byte read at an address.
    #[verifier::opaque]
    pub open spec fn read(self, addr: u16) -> u8 {
        match self.region(addr) {
            Region::BootRom => self.bootrom->0[addr as int],
            Region::CartridgeRom => self.cartridge.read(addr),
            Region::VideoRam => self.ppu.vram[addr - 0x8000],
            Region::CartridgeRam => self.cartridge.read(addr),
            Region::WorkRam => self.work_ram[addr - 0xc000],
            Region::EchoRam => self.work_ram[addr - 0x2000 - 0xc000],
            Region::Oam => self.ppu.oam[addr - 0xfe00],
            Region::NotUsable => 0xff,
            Region::IoRegisters => self.read_io(addr),
            Region::HighRam => self.high_ram[addr - 0xff80],
            Region::InterruptEnable => self.ier.pack(),
        }
    }

    /// The little-endian 16-bit value read at `addr` and the address after
    /// it.
    pub open spec fn read16(self, addr: u16) -> u16 {
        (self.read(addr) + 256 * self.read(wrap16(addr + 1))) as u16
    }

    /// The machine after a transfer to object attribute memory of the 160
    /// bytes from `value * 0x100` on.
    pub open spec fn dma(self, value: u8) -> MmuView {
        MmuView {
            ppu: PpuView { oam: Seq::new(0xa0, |i: int| self.read((value * 0x100 + i) as u16)), ..self.ppu },
            ..self
        }
    }

    /// The machine after a write to an I/O register. Writes to registers
    /// that this machine does not have are lost.
    pub open spec fn write_io(self, addr: u16, value: u8) -> MmuView {
        if addr == REG_JOYPAD {
            MmuView { joypad: self.joypad.with_lines(nth_bit(value, 5), nth_bit(value, 4)), ..self }
        } else if addr == REG_DIV {
            MmuView { timer: (Timer { divider: 0, ..self.timer }).settle(), ..self }
        } else if addr == REG_TIMA {
            MmuView { timer: Timer { counter: value, ..self.timer }, ..self }
        } else if addr == REG_TMA {
            MmuView { timer: Timer { tm: value, ..self.timer }, ..self }
        } else if addr == REG_TAC {
            MmuView { timer: (Timer { tc: TimerControl::unpack(value), ..self.timer }).settle(), ..self }
        } else if addr == IFR {
            self.with_ifr(Interrupts::unpack(value))
        } else if addr == DMA {
            self.dma(value)
        } else if 0xff40 <= addr <= 0xff4b {
            MmuView { ppu: self.ppu.write_register(addr, value), ..self }
        } else if addr == BANK_REG {
            if value != 0 {
                MmuView { boot_disabled: true, ..self }
            } else {
                self
            }
        } else {
            self
        }
    }

    /// The machine after a write.
    #[verifier::opaque]
    pub open spec fn write(self, addr: u16, value: u8) -> MmuView {
        match self.region(addr) {
            Region::BootRom => self,
            Region::CartridgeRom => MmuView { cartridge: self.cartridge.write(addr, value), ..self },
            Region::VideoRam => MmuView {
                ppu: PpuView { vram: self.ppu.vram.update(addr - 0x8000, value), ..self.ppu },
                ..self
            },
            Region::CartridgeRam => MmuView { cartridge: self.cartridge.write(addr, value), ..self },
            Region::WorkRam => MmuView { work_ram: self.work_ram.update(addr - 0xc000, value), ..self },
            Region::EchoRam => MmuView {
                work_ram: self.work_ram.update(addr - 0x2000 - 0xc000, value),
                ..self
            },
            Region::Oam => MmuView {
                ppu: PpuView { oam: self.ppu.oam.update(addr - 0xfe00, value), ..self.ppu },
                ..self
            },
            Region::NotUsable => self,
            Region::IoRegisters => self.write_io(addr, value),
            Region::HighRam => MmuView { high_ram: self.high_ram.update(addr - 0xff80, value), ..self },
            Region::InterruptEnable => MmuView { ier: Interrupts::unpack(value), ..self },
        }
    }

    /// The machine after a 16-bit write: the low byte goes to `addr`, then
    /// the high byte to the address after it.
    pub open spec fn write16(self, addr: u16, value: u16) -> MmuView {
        self.write(addr, low_byte(value)).write(wrap16(addr + 1), high_byte(value))
    }

    /// The machine after its devices have run for `n` T-cycles.
    pub open spec fn tick(self, n: nat) -> MmuView {
        MmuView { ppu: self.ppu.advance(n), timer: self.timer.advance(n), ..self }
    }

    /// The machine with a key held down or let go.
    pub open spec fn with_key(self, key: Key, pressed: bool) -> MmuView {
        if pressed {
            MmuView {
                joypad: self.joypad.with_key(key, true).with_interrupt(
                    self.joypad.interrupt || (self.joypad.group_selected(key) && self.joypad.line_high(
                        key.line(),
                    )),
                ),
                ..self
            }
        } else {
            MmuView { joypad: self.joypad.with_key(key, false), ..self }
        }
    }
}

/// The bus and the devices behind it.
#[derive(Debug)]
pub struct MMU {
    boot_disabled: bool,
    bootrom: Option<ROM>,
    cartridge: Cartridge,
    work_ram: RAM,
    high_ram: RAM,
    nuh: NotUsableHigh,
    ier: Interrupts,
    lcd_stat_request: bool,
    serial_request: bool,
    ppu: PPU,
    timer: Timer,
    joypad: Joypad,
}

impl View for MMU {
    type V = MmuView;

    closed spec fn view(&self) -> MmuView {
        MmuView {
            boot_disabled: self.boot_disabled,
            bootrom: match self.bootrom {
                Some(rom) => Some(rom@),
                None => None,
            },
            cartridge: self.cartridge@,
            work_ram: self.work_ram@,
            high_ram: self.high_ram@,
            ier: self.ier,
            lcd_stat_request: self.lcd_stat_request,
            serial_request: self.serial_request,
            ppu: self.ppu@,
            timer: self.timer,
            joypad: self.joypad,
        }
    }
}

impl MMU {
    /// The state is well-formed and every memory is mapped where the bus
    /// expects it.
    pub closed spec fn wf(&self) -> bool {
        &&& self@.wf()
        &&& self.ppu.wf()
        &&& self.work_ram.wf()
        &&& self.work_ram.base() == 0xc000
        &&& self.high_ram.wf()
        &&& self.high_ram.base() == 0xff80
    }

    /// The state of a well-formed bus is well-formed.
    pub proof fn lemma_wf(&self)
        requires
            self.wf(),
        ensures
            self@.wf(),
    {
    }

    /// Builds the machine behind the bus from a cartridge image and, if
    /// there is one, a boot ROM image, which is then mapped. The result is an
    /// error exactly when the image makes no cartridge.
    pub fn new(bootrom: Option<Vec<u8>>, cartridge: Vec<u8>) -> (r: Result<MMU, CartridgeError>)
        ensures
            r is Ok <==> CartridgeView::load(cartridge@) is Ok,
            r is Err ==> r->Err_0 == CartridgeView::load(cartridge@)->Err_0,
            r is Ok ==> r->Ok_0.wf() && r->Ok_0@ == MmuView::power_on(
                CartridgeView::load(cartridge@)->Ok_0,
                match bootrom {
                    Some(bytes) => Some(bytes@),
                    None => None,
                },
            ),
    {
        let cart = match Cartridge::new(cartridge) {
            Ok(c) => c,
            Err(e) => {
                return Err(e);
            },
        };
        let (boot_disabled, bootrom) = match bootrom {
            Some(bytes) => (false, Some(ROM::new(bytes))),
            None => (true, None),
        };
        let mut ier = Interrupts::default();
        ier.set(Interrupt::VBlank);
        let ppu = PPU::new();
        proof {
            ppu.lemma_wf();
        }
        Ok(
            MMU {
                boot_disabled,
                bootrom,
                cartridge: cart,
                work_ram: RAM::new(0x2000, 0xc000),
                high_ram: RAM::new(0x7f, 0xff80),
                nuh: NotUsableHigh,
                ier,
                lcd_stat_request: false,
                serial_request: false,
                ppu,
                timer: Timer::default(),
                joypad: Joypad::default(),
            },
        )
    }

    /// The region that answers for an address.
    pub fn find_region(&self, addr: Addr) -> (r: Region)
        ensures
            r == self@.region(addr.0),
            r.covers(addr.0, !self@.boot_disabled),
    {
        Region::find(addr, !self.boot_disabled)
    }

    /// `IF`.
    pub fn ifr(&self) -> (r: Interrupts)
        ensures
            r == self@.ifr(),
    {
        Interrupts {
            vblank: self.ppu.vblank_requested(),
            lcd_stat: self.lcd_stat_request,
            timer: self.timer.interrupt,
            serial: self.serial_request,
            joypad: self.joypad.interrupt,
        }
    }

    /// Replaces `IF` by the five low bits of a byte.
    pub fn ifr_set(&mut self, value: u8)
        requires
            old(self).wf(),
        ensures
            final(self)@ == old(self)@.with_ifr(Interrupts::unpack(value)),
            final(self).wf(),
    {
        let ifr = Interrupts::from(value);
        self.set_requests(ifr);
    }

    fn set_requests(&mut self, ifr: Interrupts)
        requires
            old(self).wf(),
        ensures
            final(self)@ == old(self)@.with_ifr(ifr),
            final(self).wf(),
    {
        self.set_vblank_request(ifr.vblank);
        self.set_device_requests(ifr);
    }

    fn set_vblank_request(&mut self, on: bool)
        requires
            old(self).wf(),
        ensures
            final(self)@ == (MmuView { ppu: PpuView { vblank_interrupt: on, ..old(self)@.ppu }, ..old(self)@ }),
            final(self).wf(),
    {
        self.ppu.set_vblank_interrupt(on);
        proof {
            self.ppu.lemma_wf();
        }
    }

    fn set_device_requests(&mut self, ifr: Interrupts)
        requires
            old(self).wf(),
        ensures
            final(self)@ == (MmuView {
                lcd_stat_request: ifr.lcd_stat,
                timer: Timer { interrupt: ifr.timer, ..old(self)@.timer },
                serial_request: ifr.serial,
                joypad: Joypad { interrupt: ifr.joypad, ..old(self)@.joypad },
                ..old(self)@
            }),
            final(self).wf(),
    {
        let timer = self.timer;
        let joypad = self.joypad;
        self.lcd_stat_request = ifr.lcd_stat;
        self.serial_request = ifr.serial;
        self.timer = Timer { interrupt: ifr.timer, ..timer };
        self.joypad = Joypad { interrupt: ifr.joypad, ..joypad };
    }

    /// What a read of an I/O register gives.
    pub fn read_io(&self, addr: Addr) -> (r: u8)
        requires
            self.wf(),
        ensures
            r == self@.read_io(addr.0),
    {
        match addr.0 {
            0xff00 => self.joypad.read(),
            0xff04 => self.timer.read_divider(),
            0xff05 => self.timer.read_counter(),
            0xff06 => self.timer.read_modulo(),
            0xff07 => self.timer.read_control(),
            0xff0f => self.ifr().readu8(),
            0xff40..=0xff4b => self.ppu.read_register(addr.0),
            0xff50 => if self.boot_disabled {
                1
            } else {
                0
            },
            _ => self.nuh.readu8(addr),
        }
    }

    /// The byte read at an address.
    pub fn readu8(&self, addr: Addr) -> (r: u8)
        requires
            self.wf(),
        ensures
            r == self@.read(addr.0),
    {
        reveal(MmuView::read);
        match self.find_region(addr) {
            Region::BootRom => match &self.bootrom {
                Some(rom) => rom.readu8(addr),
                None => 0xff,
            },
            Region::CartridgeRom => self.cartridge.readu8(addr),
            Region::VideoRam => self.ppu.read_vram(addr),
            Region::CartridgeRam => self.cartridge.readu8(addr),
            Region::WorkRam => self.work_ram.readu8(addr),
            Region::EchoRam => self.work_ram.readu8(addr.offset_back(0x2000)),
            Region::Oam => self.ppu.read_oam(addr),
            Region::NotUsable => self.nuh.readu8(addr),
            Region::IoRegisters => self.read_io(addr),
            Region::HighRam => self.high_ram.readu8(addr),
            Region::InterruptEnable => self.ier.readu8(),
        }
    }

    /// The little-endian 16-bit value read at `addr` and the address after
    /// it.
    pub fn readu16(&self, addr: Addr) -> (r: u16)
        requires
            self.wf(),
        ensures
            r == self@.read16(addr.0),
    {
        let lo = self.readu8(addr);
        let hi = self.readu8(addr.offset(1));
        join(hi, lo)
    }

    /// Copies the 160 bytes from `value * 0x100` on to object attribute
    /// memory.
    pub fn dma(&mut self, value: u8)
        requires
            old(self).wf(),
        ensures
            final(self)@ == old(self)@.dma(value),
            final(self).wf(),
    {
        let base = (value as u16) * 0x100;
        let mut bytes: Vec<u8> = Vec::new();
        let mut i: u16 = 0;
        while i < 0xa0
            invariant
                self.wf(),
                *self == *old(self),
                i <= 0xa0,
                base == value * 0x100,
                bytes@.len() == i,
                forall|k: int| 0 <= k < i ==> bytes@[k] == self@.read((value * 0x100 + k) as u16),
            decreases 0xa0 - i,
        {
            bytes.push(self.readu8(Addr(base + i)));
            i = i + 1;
        }
        assert(bytes@ =~= Seq::new(0xa0, |i: int| old(self)@.read((value * 0x100 + i) as u16)));
        self.ppu.dma(&bytes);
        proof {
            self.ppu.lemma_wf();
        }
    }

    /// A write to an I/O register.
    pub fn write_io(&mut self, addr: Addr, value: u8)
        requires
            old(self).wf(),
        ensures
            final(self)@ == old(self)@.write_io(addr.0, value),
            final(self).wf(),
    {
        let a = addr.0;
        if a == 0xff00 {
            self.write_joypad(value);
        } else if a == 0xff04 {
            self.write_divider(value);
        } else if a == 0xff05 {
            self.write_counter(value);
        } else if a == 0xff06 {
            self.write_modulo(value);
        } else if a == 0xff07 {
            self.write_control(value);
        } else if a == 0xff0f {
            self.ifr_set(value);
        } else if a == 0xff46 {
            self.dma(value);
        } else if 0xff40 <= a && a <= 0xff4b {
            self.write_ppu_register(addr, value);
        } else if a == 0xff50 {
            self.write_bank_register(value);
        }
    }

    fn write_joypad(&mut self, value: u8)
        requires
            old(self).wf(),
        ensures
            final(self)@ == (MmuView {
                joypad: old(self)@.joypad.with_lines(nth_bit(value, 5), nth_bit(value, 4)),
                ..old(self)@
            }),
            final(self).wf(),
    {
        let mut joypad = self.joypad;
        joypad.write_reg(value);
        self.joypad = joypad;
    }

    fn write_divider(&mut self, value: u8)
        requires
            old(self).wf(),
        ensures
            final(self)@ == (MmuView { timer: (Timer { divider: 0, ..old(self)@.timer }).settle(), ..old(self)@ }),
            final(self).wf(),
    {
        let mut timer = self.timer;
        timer.write_divider(value);
        self.timer = timer;
    }

    fn write_counter(&mut self, value: u8)
        requires
            old(self).wf(),
        ensures
            final(self)@ == (MmuView { timer: Timer { counter: value, ..old(self)@.timer }, ..old(self)@ }),
            final(self).wf(),
    {
        let mut timer = self.timer;
        timer.write_counter(value);
        self.timer = timer;
    }

    fn write_modulo(&mut self, value: u8)
        requires
            old(self).wf(),
        ensures
            final(self)@ == (MmuView { timer: Timer { tm: value, ..old(self)@.timer }, ..old(self)@ }),
            final(self).wf(),
    {
        let mut timer = self.timer;
        timer.write_modulo(value);
        self.timer = timer;
    }

    fn write_control(&mut self, value: u8)
        requires
            old(self).wf(),
        ensures
            final(self)@ == (MmuView {
                timer: (Timer { tc: TimerControl::unpack(value), ..old(self)@.timer }).settle(),
                ..old(self)@
            }),
            final(self).wf(),
    {
        let mut timer = self.timer;
        timer.write_control(value);
        self.timer = timer;
    }

    fn write_ppu_register(&mut self, addr: Addr, value: u8)
        requires
            old(self).wf(),
        ensures
            final(self)@ == (MmuView { ppu: old(self)@.ppu.write_register(addr.0, value), ..old(self)@ }),
            final(self).wf(),
    {
        self.ppu.write_register(addr.0, value);
        proof {
            self.ppu.lemma_wf();
        }
    }

    fn write_bank_register(&mut self, value: u8)
        requires
            old(self).wf(),
        ensures
            final(self)@ == old(self)@.write_io(0xff50, value),
            final(self).wf(),
    {
        if value != 0 {
            self.boot_disabled = true;
        }
    }

    fn write_cartridge(&mut self, addr: Addr, value: u8)
        requires
            old(self).wf(),
        ensures
            final(self)@ == (MmuView { cartridge: old(self)@.cartridge.write(addr.0, value), ..old(self)@ }),
            final(self).wf(),
    {
        self.cartridge.writeu8(addr, value);
    }

    fn write_vram(&mut self, addr: Addr, value: u8)
        requires
            old(self).wf(),
            0x8000 <= addr.0 < 0xa000,
        ensures
            final(self)@ == (MmuView {
                ppu: PpuView { vram: old(self)@.ppu.vram.update(addr.0 - 0x8000, value), ..old(self)@.ppu },
                ..old(self)@
            }),
            final(self).wf(),
    {
        self.ppu.write_vram(addr, value);
        proof {
            self.ppu.lemma_wf();
        }
    }

    fn write_oam(&mut self, addr: Addr, value: u8)
        requires
            old(self).wf(),
            0xfe00 <= addr.0 < 0xfea0,
        ensures
            final(self)@ == (MmuView {
                ppu: PpuView { oam: old(self)@.ppu.oam.update(addr.0 - 0xfe00, value), ..old(self)@.ppu },
                ..old(self)@
            }),
            final(self).wf(),
    {
        self.ppu.write_oam(addr, value);
        proof {
            self.ppu.lemma_wf();
        }
    }

    fn write_work_ram(&mut self, addr: Addr, value: u8)
        requires
            old(self).wf(),
            0xc000 <= addr.0 < 0xe000,
        ensures
            final(self)@ == (MmuView {
                work_ram: old(self)@.work_ram.update(addr.0 - 0xc000, value),
                ..old(self)@
            }),
            final(self).wf(),
    {
        self.work_ram.writeu8(addr, value);
    }

    fn write_high_ram(&mut self, addr: Addr, value: u8)
        requires
            old(self).wf(),
            0xff80 <= addr.0 < 0xffff,
        ensures
            final(self)@ == (MmuView {
                high_ram: old(self)@.high_ram.update(addr.0 - 0xff80, value),
                ..old(self)@
            }),
            final(self).wf(),
    {
        self.high_ram.writeu8(addr, value);
    }

    fn write_ier(&mut self, value: u8)
        requires
            old(self).wf(),
        ensures
            final(self)@ == (MmuView { ier: Interrupts::unpack(value), ..old(self)@ }),
            final(self).wf(),
    {
        self.ier = Interrupts::from(value);
    }

    /// A write of a byte to an address.
    pub fn writeu8(&mut self, addr: Addr, value: u8)
        requires
            old(self).wf(),
        ensures
            final(self)@ == old(self)@.write(addr.0, value),
            final(self).wf(),
    {
        reveal(MmuView::write);
        match self.find_region(addr) {
            Region::BootRom => {},
            Region::CartridgeRom => self.write_cartridge(addr, value),
            Region::VideoRam => self.write_vram(addr, value),
            Region::CartridgeRam => self.write_cartridge(addr, value),
            Region::WorkRam => self.write_work_ram(addr, value),
            Region::EchoRam => self.write_work_ram(addr.offset_back(0x2000), value),
            Region::Oam => self.write_oam(addr, value),
            Region::NotUsable => self.nuh.writeu8(addr, value),
            Region::IoRegisters => self.write_io(addr, value),
            Region::HighRam => self.write_high_ram(addr, value),
            Region::InterruptEnable => self.write_ier(value),
        }
    }

    /// A write of a 16-bit value: the low byte to `addr`, then the high
    /// byte to the address after it.
    pub fn writeu16(&mut self, addr: Addr, value: u16)
        requires
            old(self).wf(),
        ensures
            final(self)@ == old(self)@.write16(addr.0, value),
            final(self).wf(),
    {
        self.writeu8(addr, lsb(value));
        self.writeu8(addr.offset(1), msb(value));
    }

    /// Runs the PPU and the timer for the T-cycles that the CPU has used.
    pub fn tick(&mut self, cpu_ticks: u64)
        requires
            old(self).wf(),
        ensures
            final(self)@ == old(self)@.tick(cpu_ticks as nat),
            final(self).wf(),
    {
        let mut timer = self.timer;
        timer.tick(cpu_ticks);
        self.timer = timer;
        self.ppu.tick(cpu_ticks);
        proof {
            self.ppu.lemma_wf();
        }
    }

    /// Unmaps the boot ROM.
    pub fn disable_boot(&mut self)
        requires
            old(self).wf(),
        ensures
            final(self)@ == (MmuView { boot_disabled: true, ..old(self)@ }),
            final(self).wf(),
    {
        self.boot_disabled = true;
    }

    /// Holds a key down or lets it go. A key that makes its line fall
    /// requests the joypad interrupt.
    pub fn set_key(&mut self, key: Key, pressed: bool)
        requires
            old(self).wf(),
        ensures
            final(self)@ == old(self)@.with_key(key, pressed),
            final(self).wf(),
    {
        let mut joypad = self.joypad;
        if pressed {
            joypad.set(key);
        } else {
            joypad.release(key);
        }
        self.joypad = joypad;
    }

    /// The PPU.
    pub fn ppu(&self) -> (r: &PPU)
        requires
            self.wf(),
        ensures
            r@ == self@.ppu,
            r.wf(),
    {
        &self.ppu
    }

    /// The joypad.
    pub fn joypad(&self) -> (r: &Joypad)
        ensures
            *r == self@.joypad,
    {
        &self.joypad
    }
}

} // verus!
