use machine::mmu::cartridge::{Cartridge, CartridgeError};
use machine::mmu::region::Region;
use machine::mmu::MMU;
use machine::util::Addr;

fn plain_rom() -> Vec<u8> {
    let mut rom = vec![0u8; 0x8000];
    for (i, b) in rom.iter_mut().enumerate() {
        *b = (i % 251) as u8;
    }
    rom[0x147] = 0;
    rom
}

/// An image of `banks` ROM banks whose every byte is the number of its bank.
fn banked_rom(code: u8, banks: usize, rams: u8) -> Vec<u8> {
    let mut rom = vec![0u8; banks * 0x4000];
    for (i, b) in rom.iter_mut().enumerate() {
        *b = (i / 0x4000) as u8;
    }
    rom[0x147] = code;
    rom[0x149] = rams;
    rom
}

const ALL_REGIONS: [Region; 11] = [
    Region::BootRom,
    Region::CartridgeRom,
    Region::VideoRam,
    Region::CartridgeRam,
    Region::WorkRam,
    Region::EchoRam,
    Region::Oam,
    Region::NotUsable,
    Region::IoRegisters,
    Region::HighRam,
    Region::InterruptEnable,
];

#[test]
fn exactly_one_region_answers_for_each_address() {
    for boot in [false, true] {
        for a in 0..=0xffffu16 {
            let found = Region::find(Addr(a), boot);
            let mut answering = 0;
            for r in ALL_REGIONS {
                if r.contains(Addr(a), boot) {
                    answering += 1;
                    assert_eq!(r, found);
                }
            }
            assert_eq!(answering, 1);
        }
    }
}

#[test]
fn region_bounds() {
    assert_eq!(Region::find(Addr(0x00ff), true), Region::BootRom);
    assert_eq!(Region::find(Addr(0x00ff), false), Region::CartridgeRom);
    assert_eq!(Region::find(Addr(0x0100), true), Region::CartridgeRom);
    assert_eq!(Region::find(Addr(0x7fff), false), Region::CartridgeRom);
    assert_eq!(Region::find(Addr(0x8000), false), Region::VideoRam);
    assert_eq!(Region::find(Addr(0x9fff), false), Region::VideoRam);
    assert_eq!(Region::find(Addr(0xa000), false), Region::CartridgeRam);
    assert_eq!(Region::find(Addr(0xc000), false), Region::WorkRam);
    assert_eq!(Region::find(Addr(0xdfff), false), Region::WorkRam);
    assert_eq!(Region::find(Addr(0xe000), false), Region::EchoRam);
    assert_eq!(Region::find(Addr(0xfdff), false), Region::EchoRam);
    assert_eq!(Region::find(Addr(0xfe00), false), Region::Oam);
    assert_eq!(Region::find(Addr(0xfe9f), false), Region::Oam);
    assert_eq!(Region::find(Addr(0xfea0), false), Region::NotUsable);
    assert_eq!(Region::find(Addr(0xfeff), false), Region::NotUsable);
    assert_eq!(Region::find(Addr(0xff00), false), Region::IoRegisters);
    assert_eq!(Region::find(Addr(0xff7f), false), Region::IoRegisters);
    assert_eq!(Region::find(Addr(0xff80), false), Region::HighRam);
    assert_eq!(Region::find(Addr(0xfffe), false), Region::HighRam);
    assert_eq!(Region::find(Addr(0xffff), false), Region::InterruptEnable);
    assert_eq!(Region::EchoRam.start(false), Addr(0xe000));
    assert_eq!(Region::EchoRam.end(), Addr(0xfdff));
    assert_eq!(Region::EchoRam.remap_addr(Addr(0xe123), false), Addr(0x0123));
    assert_eq!(Region::CartridgeRom.start(true), Addr(0x0100));
}

#[test]
fn echo_mirrors_work_ram() {
    let mut mmu = MMU::new(None, plain_rom()).unwrap();
    for a in (0xe000..=0xfdffu16).step_by(0x1ff) {
        mmu.writeu8(Addr(a - 0x2000), (a % 200) as u8 + 1);
        assert_eq!(mmu.readu8(Addr(a)), (a % 200) as u8 + 1);
        mmu.writeu8(Addr(a), (a % 100) as u8 + 7);
        assert_eq!(mmu.readu8(Addr(a - 0x2000)), (a % 100) as u8 + 7);
        assert_eq!(mmu.readu8(Addr(a)), mmu.readu8(Addr(a - 0x2000)));
    }
    mmu.writeu8(Addr(0xfdff), 0x5a);
    assert_eq!(mmu.readu8(Addr(0xddff)), 0x5a);
    // 0xde00 to 0xdfff have no echo.
    mmu.writeu8(Addr(0xde00), 0x77);
    assert_eq!(mmu.readu8(Addr(0xfe00)), 0x00);
}

#[test]
fn plain_memory_keeps_what_is_written() {
    let mut mmu = MMU::new(None, plain_rom()).unwrap();
    for a in [0x8000u16, 0x9fff, 0xc000, 0xdfff, 0xfe00, 0xfe9f, 0xff80, 0xfffe] {
        mmu.writeu8(Addr(a), 0xa5);
        assert_eq!(mmu.readu8(Addr(a)), 0xa5);
    }
    mmu.writeu16(Addr(0xc100), 0xbeef);
    assert_eq!(mmu.readu8(Addr(0xc100)), 0xef);
    assert_eq!(mmu.readu8(Addr(0xc101)), 0xbe);
    assert_eq!(mmu.readu16(Addr(0xc100)), 0xbeef);
    // A 16-bit access wraps at the end of the address space.
    mmu.writeu8(Addr(0xffff), 0x1f);
    assert_eq!(mmu.readu16(Addr(0xffff)), 0x1f | ((mmu.readu8(Addr(0x0000)) as u16) << 8));
}

#[test]
fn rom_and_unusable_memory_ignore_writes() {
    let mut mmu = MMU::new(None, plain_rom()).unwrap();
    let before = mmu.readu8(Addr(0x1234));
    mmu.writeu8(Addr(0x1234), before.wrapping_add(1));
    assert_eq!(mmu.readu8(Addr(0x1234)), before);
    assert_eq!(before, (0x1234 % 251) as u8);
    for a in [0xfea0u16, 0xfeff] {
        mmu.writeu8(Addr(a), 0x12);
        assert_eq!(mmu.readu8(Addr(a)), 0xff);
    }
}

#[test]
fn registers_without_a_device_read_ff() {
    let mut mmu = MMU::new(None, plain_rom()).unwrap();
    for a in [0xff01u16, 0xff02, 0xff03, 0xff10, 0xff26, 0xff3f, 0xff45, 0xff46, 0xff4c, 0xff51, 0xff7f] {
        mmu.writeu8(Addr(a), 0x00);
        assert_eq!(mmu.readu8(Addr(a)), 0xff);
    }
}

#[test]
fn ppu_registers_are_read_back() {
    let mut mmu = MMU::new(None, plain_rom()).unwrap();
    for (a, v) in [
        (0xff40u16, 0xd3u8),
        (0xff42, 0x12),
        (0xff43, 0x34),
        (0xff47, 0xe4),
        (0xff48, 0x1b),
        (0xff49, 0xc6),
        (0xff4a, 0x56),
        (0xff4b, 0x78),
    ] {
        mmu.writeu8(Addr(a), v);
        assert_eq!(mmu.readu8(Addr(a)), v);
    }
    // LY is read-only, and so is the mode in STAT.
    mmu.writeu8(Addr(0xff44), 0x55);
    assert_eq!(mmu.readu8(Addr(0xff44)), 0x00);
    mmu.writeu8(Addr(0xff41), 0xff);
    assert_eq!(mmu.readu8(Addr(0xff41)), 0x7e);
    mmu.writeu8(Addr(0xff41), 0x00);
    assert_eq!(mmu.readu8(Addr(0xff41)), 0x02);
}

#[test]
fn interrupt_registers_hold_five_bits() {
    let mut mmu = MMU::new(None, plain_rom()).unwrap();
    assert_eq!(mmu.readu8(Addr(0xffff)), 0x01);
    assert_eq!(mmu.readu8(Addr(0xff0f)), 0x00);
    mmu.writeu8(Addr(0xffff), 0xff);
    assert_eq!(mmu.readu8(Addr(0xffff)), 0x1f);
    mmu.writeu8(Addr(0xff0f), 0xea);
    assert_eq!(mmu.readu8(Addr(0xff0f)), 0x0a);
    assert_eq!(u8::from(mmu.ifr()), 0x0a);
    mmu.ifr_set(0x15);
    assert_eq!(mmu.readu8(Addr(0xff0f)), 0x15);
}

#[test]
fn boot_rom_shadows_until_it_is_switched_off() {
    let mut boot = vec![0u8; 0x100];
    for (i, b) in boot.iter_mut().enumerate() {
        *b = 0xf0 | (i % 16) as u8;
    }
    let mut mmu = MMU::new(Some(boot), plain_rom()).unwrap();
    assert_eq!(mmu.find_region(Addr(0x0042)), Region::BootRom);
    assert_eq!(mmu.readu8(Addr(0x0042)), 0xf2);
    assert_eq!(mmu.readu8(Addr(0x0100)), (0x100 % 251) as u8);
    assert_eq!(mmu.readu8(Addr(0xff50)), 0);
    mmu.writeu8(Addr(0xff50), 0);
    assert_eq!(mmu.readu8(Addr(0x0042)), 0xf2);
    mmu.writeu8(Addr(0xff50), 1);
    assert_eq!(mmu.find_region(Addr(0x0042)), Region::CartridgeRom);
    assert_eq!(mmu.readu8(Addr(0x0042)), 0x42);
    assert_eq!(mmu.readu8(Addr(0xff50)), 1);
    // The latch cannot be opened again.
    mmu.writeu8(Addr(0xff50), 0);
    assert_eq!(mmu.readu8(Addr(0x0042)), 0x42);
}

#[test]
fn short_boot_rom_is_zero_filled() {
    let mmu = MMU::new(Some(vec![0xaa, 0xbb]), plain_rom()).unwrap();
    assert_eq!(mmu.readu8(Addr(0x0000)), 0xaa);
    assert_eq!(mmu.readu8(Addr(0x0001)), 0xbb);
    assert_eq!(mmu.readu8(Addr(0x0002)), 0x00);
    assert_eq!(mmu.readu8(Addr(0x00ff)), 0x00);
}

#[test]
fn dma_copies_160_bytes_to_oam() {
    let mut mmu = MMU::new(None, plain_rom()).unwrap();
    for i in 0..0xa0u16 {
        mmu.writeu8(Addr(0xc200 + i), (i as u8) ^ 0x5a);
    }
    mmu.writeu8(Addr(0xc2a0), 0x99);
    mmu.writeu8(Addr(0xff46), 0xc2);
    for i in 0..0xa0u16 {
        assert_eq!(mmu.readu8(Addr(0xfe00 + i)), (i as u8) ^ 0x5a);
    }
    // From ROM as well.
    mmu.writeu8(Addr(0xff46), 0x10);
    assert_eq!(mmu.readu8(Addr(0xfe00)), (0x1000 % 251) as u8);
    assert_eq!(mmu.readu8(Addr(0xfe9f)), (0x109f % 251) as u8);
}

#[test]
fn cartridge_kinds() {
    assert!(matches!(Cartridge::new(banked_rom(0x00, 2, 0)), Ok(Cartridge::MBC0(_))));
    for code in [1u8, 2, 3] {
        assert!(matches!(Cartridge::new(banked_rom(code, 4, 1)), Ok(Cartridge::MBC1(_))));
    }
    for code in 0x19..=0x1eu8 {
        assert!(matches!(Cartridge::new(banked_rom(code, 4, 1)), Ok(Cartridge::MBC5(_))));
    }
    for code in [0x04u8, 0x05, 0x18, 0x1f, 0xff] {
        assert_eq!(Cartridge::new(banked_rom(code, 2, 0)).err(), Some(CartridgeError::UnsupportedMbc(code)));
    }
    assert_eq!(Cartridge::new(vec![0u8; 0x14f]).err(), Some(CartridgeError::Truncated));
    assert_eq!(Cartridge::new(vec![0u8; 0x4000 + 1]).err(), Some(CartridgeError::Truncated));
    assert_eq!(Cartridge::new(Vec::new()).err(), Some(CartridgeError::Truncated));
    assert_eq!(Cartridge::new(banked_rom(0x19, 2, 5)).err(), Some(CartridgeError::BadRamSize(5)));
    assert!(Cartridge::new(banked_rom(0x00, 2, 9)).is_ok());
}

#[test]
fn cartridge_without_controller() {
    let mut c = Cartridge::new(plain_rom()).unwrap();
    assert_eq!(c.readu8(Addr(0x7fff)), (0x7fff % 251) as u8);
    c.writeu8(Addr(0x2000), 0x05);
    assert_eq!(c.readu8(Addr(0x4000)), (0x4000 % 251) as u8);
    c.writeu8(Addr(0xa000), 0x11);
    c.writeu16(Addr(0xbffe), 0x3322);
    assert_eq!(c.readu8(Addr(0xa000)), 0x11);
    assert_eq!(c.readu16(Addr(0xbffe)), 0x3322);
    assert_eq!(c.readu8(Addr(0xc000)), 0xff);
    // A single bank is zero-filled to 32 KiB.
    let mut short = vec![0x07u8; 0x4000];
    short[0x147] = 0;
    short[0x149] = 0;
    let c = Cartridge::new(short).unwrap();
    assert_eq!(c.readu8(Addr(0x3fff)), 0x07);
    assert_eq!(c.readu8(Addr(0x4000)), 0x00);
}

#[test]
fn mbc1_switches_rom_banks() {
    let mut c = Cartridge::new(banked_rom(0x01, 64, 0)).unwrap();
    assert_eq!(c.readu8(Addr(0x0000)), 0);
    assert_eq!(c.readu8(Addr(0x4000)), 1);
    c.writeu8(Addr(0x2000), 0x05);
    assert_eq!(c.readu8(Addr(0x7fff)), 5);
    assert_eq!(c.readu8(Addr(0x3fff)), 0);
    // Bank 0 cannot be selected: it becomes bank 1.
    c.writeu8(Addr(0x3fff), 0x00);
    assert_eq!(c.readu8(Addr(0x4000)), 1);
    // Only five bits count.
    c.writeu8(Addr(0x2000), 0xe3);
    assert_eq!(c.readu8(Addr(0x4000)), 3);
    // The secondary register gives bits 5 and 6.
    c.writeu8(Addr(0x4000), 0x01);
    assert_eq!(c.readu8(Addr(0x4000)), 0x23);
    // In RAM banking mode it does not.
    c.writeu8(Addr(0x6000), 0x01);
    assert_eq!(c.readu8(Addr(0x4000)), 3);
    c.writeu8(Addr(0x6000), 0x00);
    // A bank beyond the image wraps.
    c.writeu8(Addr(0x4000), 0x03);
    assert_eq!(c.readu8(Addr(0x4000)), (0x63 % 64) as u8);
}

#[test]
fn mbc1_ram_is_gated_and_banked() {
    let mut c = Cartridge::new(banked_rom(0x03, 4, 4)).unwrap();
    assert_eq!(c.readu8(Addr(0xa000)), 0xff);
    c.writeu8(Addr(0xa000), 0x12);
    assert_eq!(c.readu8(Addr(0xa000)), 0xff);
    c.writeu8(Addr(0x0000), 0x0a);
    assert_eq!(c.readu8(Addr(0xa000)), 0x00);
    c.writeu8(Addr(0xa000), 0x12);
    assert_eq!(c.readu8(Addr(0xa000)), 0x12);
    // Another bank in RAM banking mode.
    c.writeu8(Addr(0x6000), 0x01);
    c.writeu8(Addr(0x4000), 0x02);
    assert_eq!(c.readu8(Addr(0xa000)), 0x00);
    c.writeu8(Addr(0xbfff), 0x34);
    assert_eq!(c.readu8(Addr(0xbfff)), 0x34);
    c.writeu8(Addr(0x4000), 0x00);
    assert_eq!(c.readu8(Addr(0xa000)), 0x12);
    assert_eq!(c.readu8(Addr(0xbfff)), 0x00);
    // Any low nibble but 0xa switches the RAM off.
    c.writeu8(Addr(0x1fff), 0x1b);
    assert_eq!(c.readu8(Addr(0xa000)), 0xff);
    c.writeu8(Addr(0x0000), 0x3a);
    assert_eq!(c.readu8(Addr(0xa000)), 0x12);
    // A cartridge without RAM reads 0xff even when enabled.
    let mut c = Cartridge::new(banked_rom(0x01, 4, 0)).unwrap();
    c.writeu8(Addr(0x0000), 0x0a);
    c.writeu8(Addr(0xa000), 0x12);
    assert_eq!(c.readu8(Addr(0xa000)), 0xff);
}

#[test]
fn mbc5_switches_banks() {
    let mut rom = vec![0u8; 300 * 0x4000];
    for (i, b) in rom.iter_mut().enumerate() {
        *b = ((i / 0x4000) % 256) as u8 ^ ((i / 0x4000) / 256) as u8 * 0x80;
    }
    rom[0x147] = 0x1b;
    rom[0x149] = 4;
    let mut c = Cartridge::new(rom).unwrap();
    // Bank 0 can be selected.
    assert_eq!(c.readu8(Addr(0x4000)), 0);
    c.writeu8(Addr(0x2000), 0x7f);
    assert_eq!(c.readu8(Addr(0x4000)), 0x7f);
    c.writeu8(Addr(0x3000), 0x01);
    // Bank 0x17f does not exist: 0x17f mod 300 = 83.
    assert_eq!(c.readu8(Addr(0x4000)), 83);
    c.writeu8(Addr(0x2fff), 0x05);
    assert_eq!(c.readu8(Addr(0x4000)), 0x05 ^ 0x80);
    assert_eq!(c.readu8(Addr(0x0000)), 0);
    c.writeu8(Addr(0x3000), 0xfe);
    assert_eq!(c.readu8(Addr(0x4000)), 0x05);
    // RAM
    assert_eq!(c.readu8(Addr(0xa123)), 0xff);
    c.writeu8(Addr(0x0000), 0x0a);
    c.writeu8(Addr(0x4000), 0x03);
    c.writeu8(Addr(0xa123), 0x44);
    c.writeu8(Addr(0x5fff), 0x01);
    assert_eq!(c.readu8(Addr(0xa123)), 0x00);
    c.writeu8(Addr(0x4000), 0x07);
    // Bank 7 of four is bank 3.
    assert_eq!(c.readu8(Addr(0xa123)), 0x44);
    c.writeu8(Addr(0x6000), 0xff);
    assert_eq!(c.readu8(Addr(0xa123)), 0x44);
}
