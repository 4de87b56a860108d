//! What holds of reads and writes over the bus.

use super::region::Region;
use super::MmuView;
use crate::cpu::interrupts::{lemma_interrupts_unpack_pack, Interrupts};
use super::cartridge::lemma_cartridge_write_keeps_wf;
use crate::ppu::laws::{lemma_advance_keeps_time, lemma_register_write_keeps_wf};
use crate::ppu::PpuView;
use crate::util::{high_byte, low_byte, wrap16};
use vstd::prelude::*;

verus! {

/// Whether an address names a byte of plain memory, which keeps what is
/// written to it: video RAM, work RAM and its echo, object attribute memory
/// and high RAM.
pub open spec fn is_plain(addr: u16) -> bool {
    (0x8000 <= addr < 0xa000) || (0xc000 <= addr < 0xfea0) || (0xff80 <= addr < 0xffff)
}

/// The address of the byte that an address names: an address of the echo
/// names a byte of work RAM.
pub open spec fn cell(addr: u16) -> int {
    if 0xe000 <= addr < 0xfe00 {
        addr - 0x2000
    } else {
        addr as int
    }
}

/// Every address of the echo reads the byte of work RAM 0x2000 below it, and
/// a write to it is a write to that byte.
pub proof fn lemma_echo_mirrors_work_ram(mmu: MmuView, addr: u16, value: u8)
    requires
        0xe000 <= addr <= 0xfdff,
    ensures
        mmu.read(addr) == mmu.read((addr - 0x2000) as u16),
        mmu.write(addr, value) == mmu.write((addr - 0x2000) as u16, value),
{
    reveal(MmuView::read);
    reveal(MmuView::write);
}

proof fn lemma_work_ram_write(mmu: MmuView, addr: u16, value: u8, other: u16)
    requires
        mmu.wf(),
        0xc000 <= addr < 0xfe00,
    ensures
        mmu.write(addr, value) == (MmuView { work_ram: mmu.work_ram.update(cell(addr) - 0xc000, value), ..mmu }),
        mmu.write(addr, value).read(other) == (if cell(other) == cell(addr) {
            value
        } else {
            mmu.read(other)
        }),
{
    reveal(MmuView::read);
    reveal(MmuView::write);
    let after = MmuView { work_ram: mmu.work_ram.update(cell(addr) - 0xc000, value), ..mmu };
    assert(mmu.write(addr, value) == after);
    assert(after.region(other) == mmu.region(other));
    if 0xc000 <= other < 0xfe00 {
        assert(after.read(other) == after.work_ram[cell(other) - 0xc000]);
    } else {
        assert(after.read_io(other) == mmu.read_io(other));
        assert(after.read(other) == mmu.read(other));
    }
}

proof fn lemma_high_ram_write(mmu: MmuView, addr: u16, value: u8, other: u16)
    requires
        mmu.wf(),
        0xff80 <= addr < 0xffff,
    ensures
        mmu.write(addr, value) == (MmuView { high_ram: mmu.high_ram.update(addr - 0xff80, value), ..mmu }),
        mmu.write(addr, value).read(other) == (if other == addr {
            value
        } else {
            mmu.read(other)
        }),
{
    reveal(MmuView::read);
    reveal(MmuView::write);
    let after = MmuView { high_ram: mmu.high_ram.update(addr - 0xff80, value), ..mmu };
    assert(mmu.write(addr, value) == after);
    assert(after.region(other) == mmu.region(other));
    if 0xff80 <= other < 0xffff {
        assert(after.read(other) == after.high_ram[other - 0xff80]);
    } else {
        assert(after.read_io(other) == mmu.read_io(other));
        assert(after.read(other) == mmu.read(other));
    }
}

proof fn lemma_video_ram_write(mmu: MmuView, addr: u16, value: u8, other: u16)
    requires
        mmu.wf(),
        0x8000 <= addr < 0xa000,
    ensures
        mmu.write(addr, value) == (MmuView {
            ppu: PpuView { vram: mmu.ppu.vram.update(addr - 0x8000, value), ..mmu.ppu },
            ..mmu
        }),
        mmu.write(addr, value).read(other) == (if other == addr {
            value
        } else {
            mmu.read(other)
        }),
{
    reveal(MmuView::read);
    reveal(MmuView::write);
    let after = MmuView { ppu: PpuView { vram: mmu.ppu.vram.update(addr - 0x8000, value), ..mmu.ppu }, ..mmu };
    assert(mmu.write(addr, value) == after);
    assert(after.region(other) == mmu.region(other));
    if 0x8000 <= other < 0xa000 {
        assert(after.read(other) == after.ppu.vram[other - 0x8000]);
    } else {
        assert(after.ifr() == mmu.ifr());
        assert(after.ppu.read_register(other) == mmu.ppu.read_register(other));
        assert(after.read_io(other) == mmu.read_io(other));
        assert(after.read(other) == mmu.read(other));
    }
}

proof fn lemma_oam_write(mmu: MmuView, addr: u16, value: u8, other: u16)
    requires
        mmu.wf(),
        0xfe00 <= addr < 0xfea0,
    ensures
        mmu.write(addr, value) == (MmuView {
            ppu: PpuView { oam: mmu.ppu.oam.update(addr - 0xfe00, value), ..mmu.ppu },
            ..mmu
        }),
        mmu.write(addr, value).read(other) == (if other == addr {
            value
        } else {
            mmu.read(other)
        }),
{
    reveal(MmuView::read);
    reveal(MmuView::write);
    let after = MmuView { ppu: PpuView { oam: mmu.ppu.oam.update(addr - 0xfe00, value), ..mmu.ppu }, ..mmu };
    assert(mmu.write(addr, value) == after);
    assert(after.region(other) == mmu.region(other));
    if 0xfe00 <= other < 0xfea0 {
        assert(after.read(other) == after.ppu.oam[other - 0xfe00]);
    } else {
        assert(after.ifr() == mmu.ifr());
        assert(after.ppu.read_register(other) == mmu.ppu.read_register(other));
        assert(after.read_io(other) == mmu.read_io(other));
        assert(after.read(other) == mmu.read(other));
    }
}

/// A write to plain memory is read back at every address of the byte, and
/// changes what is read at no other address. It keeps the machine
/// well-formed, the boot ROM mapped or unmapped as it was, and the interrupt
/// registers as they were.
pub proof fn lemma_plain_write(mmu: MmuView, addr: u16, value: u8, other: u16)
    requires
        mmu.wf(),
        is_plain(addr),
    ensures
        mmu.write(addr, value).wf(),
        mmu.write(addr, value).boot_disabled == mmu.boot_disabled,
        mmu.write(addr, value).ier == mmu.ier,
        mmu.write(addr, value).ifr() == mmu.ifr(),
        mmu.write(addr, value).read(other) == (if cell(other) == cell(addr) {
            value
        } else {
            mmu.read(other)
        }),
{
    if addr < 0xa000 {
        lemma_video_ram_write(mmu, addr, value, other);
    } else if addr < 0xfe00 {
        lemma_work_ram_write(mmu, addr, value, other);
    } else if addr < 0xfea0 {
        lemma_oam_write(mmu, addr, value, other);
    } else {
        lemma_high_ram_write(mmu, addr, value, other);
    }
}

/// A 16-bit value written to two bytes of plain memory is read back.
pub proof fn lemma_plain_write16(mmu: MmuView, addr: u16, value: u16)
    requires
        mmu.wf(),
        is_plain(addr),
        is_plain(wrap16(addr + 1)),
    ensures
        mmu.write16(addr, value).wf(),
        mmu.write16(addr, value).read16(addr) == value,
{
    let next = wrap16(addr + 1);
    let first = mmu.write(addr, low_byte(value));
    lemma_plain_write(mmu, addr, low_byte(value), addr);
    lemma_plain_write(first, next, high_byte(value), addr);
    lemma_plain_write(first, next, high_byte(value), next);
}

/// A 16-bit write to plain memory keeps the interrupt registers as they
/// were.
pub proof fn lemma_plain_write16_keeps_interrupts(mmu: MmuView, addr: u16, value: u16)
    requires
        mmu.wf(),
        is_plain(addr),
        is_plain(wrap16(addr + 1)),
    ensures
        mmu.write16(addr, value).ier == mmu.ier,
        mmu.write16(addr, value).ifr() == mmu.ifr(),
{
    let next = wrap16(addr + 1);
    let first = mmu.write(addr, low_byte(value));
    lemma_plain_write(mmu, addr, low_byte(value), addr);
    lemma_plain_write(first, next, high_byte(value), addr);
}

/// The interrupt registers are on the bus as bytes: 0xffff reads `IE` and
/// 0xff0f reads `IF`, each with its five flags in bits 0 to 4, and a write
/// to 0xff0f replaces `IF` and changes no plain memory.
pub proof fn lemma_interrupt_registers(mmu: MmuView, value: u8, other: u16)
    requires
        mmu.wf(),
    ensures
        mmu.read(0xffff) == mmu.ier.pack(),
        mmu.read(0xff0f) == mmu.ifr().pack(),
        Interrupts::unpack(mmu.read(0xffff)) == mmu.ier,
        Interrupts::unpack(mmu.read(0xff0f)) == mmu.ifr(),
        mmu.write(0xff0f, value) == mmu.with_ifr(Interrupts::unpack(value)),
        mmu.write(0xff0f, value).ifr() == Interrupts::unpack(value),
        mmu.write(0xff0f, value).ier == mmu.ier,
        mmu.write(0xff0f, value).wf(),
        is_plain(other) ==> mmu.write(0xff0f, value).read(other) == mmu.read(other),
{
    reveal(MmuView::read);
    reveal(MmuView::write);
    lemma_interrupts_unpack_pack(mmu.ier);
    lemma_interrupts_unpack_pack(mmu.ifr());
    let after = mmu.with_ifr(Interrupts::unpack(value));
    assert(after.region(other) == mmu.region(other));
}

proof fn lemma_write_io_keeps_wf(mmu: MmuView, addr: u16, value: u8)
    requires
        mmu.wf(),
    ensures
        mmu.write_io(addr, value).wf(),
{
    if addr == 0xff46 {
        assert(mmu.dma(value).ppu.oam.len() == 0xa0);
    } else if 0xff40 <= addr <= 0xff4b {
        lemma_register_write_keeps_wf(mmu.ppu, addr, value);
    }
}

/// A write leaves a well-formed machine well-formed, whatever the address.
pub proof fn lemma_write_keeps_wf(mmu: MmuView, addr: u16, value: u8)
    requires
        mmu.wf(),
    ensures
        mmu.write(addr, value).wf(),
{
    reveal(MmuView::write);
    match mmu.region(addr) {
        Region::CartridgeRom | Region::CartridgeRam => {
            lemma_cartridge_write_keeps_wf(mmu.cartridge, addr, value);
        },
        Region::IoRegisters => {
            lemma_write_io_keeps_wf(mmu, addr, value);
        },
        _ => {},
    }
}

/// A 16-bit write leaves a well-formed machine well-formed.
pub proof fn lemma_write16_keeps_wf(mmu: MmuView, addr: u16, value: u16)
    requires
        mmu.wf(),
    ensures
        mmu.write16(addr, value).wf(),
{
    lemma_write_keeps_wf(mmu, addr, low_byte(value));
    lemma_write_keeps_wf(mmu.write(addr, low_byte(value)), wrap16(addr + 1), high_byte(value));
}

/// Running the devices leaves a well-formed machine well-formed.
pub proof fn lemma_tick_keeps_wf(mmu: MmuView, n: nat)
    requires
        mmu.wf(),
    ensures
        mmu.tick(n).wf(),
{
    lemma_advance_keeps_time(mmu.ppu, n);
}

} // verus!
