use machine::cpu::registers::Flags;
use machine::cpu::{ErrorKind, IMEState};
use machine::joypad::Key;
use machine::mmu::cartridge::CartridgeError;
use machine::ppu::colour::Colour;
use machine::util::Addr;
use machine::Machine;

/// A 32 KiB image without bank controller that holds `program` at `at`.
fn image(at: usize, program: &[u8]) -> Vec<u8> {
    let mut rom = vec![0u8; 0x8000];
    for (i, b) in program.iter().enumerate() {
        rom[at + i] = *b;
    }
    rom
}

fn machine_with(at: u16, program: &[u8]) -> Machine {
    let mut m = Machine::new(image(at as usize, program), None).unwrap();
    m.cpu.pc = Addr(at);
    m.cpu.regs.f = Flags::new();
    m
}

#[test]
fn add_immediate_to_a() {
    let mut m = machine_with(0x0000, &[0xc6, 0x3a]);
    m.cpu.regs.a = 0x3a;
    let ticks = m.step().unwrap();
    assert_eq!(m.cpu.regs.a, 0x74);
    assert!(!m.cpu.regs.f.zero);
    assert!(!m.cpu.regs.f.subtraction);
    // The low nibbles 0xa and 0xa add up to 0x14: a carry leaves bit 3.
    assert!(m.cpu.regs.f.half_carry);
    assert!(!m.cpu.regs.f.carry);
    assert_eq!(ticks, 8);
    assert_eq!(m.cpu.pc, Addr(0x0002));
}

#[test]
fn inc_a_wraps_and_keeps_carry() {
    for carry in [false, true] {
        let mut m = machine_with(0x0200, &[0x3c]);
        m.cpu.regs.a = 0xff;
        m.cpu.regs.f.carry = carry;
        let ticks = m.step().unwrap();
        assert_eq!(m.cpu.regs.a, 0x00);
        assert!(m.cpu.regs.f.zero);
        assert!(!m.cpu.regs.f.subtraction);
        assert!(m.cpu.regs.f.half_carry);
        assert_eq!(m.cpu.regs.f.carry, carry);
        assert_eq!(ticks, 4);
    }
}

#[test]
fn call_pushes_return_address() {
    let mut m = machine_with(0x0100, &[0xcd, 0x34, 0x12]);
    m.cpu.sp = Addr(0xfffe);
    let ticks = m.step().unwrap();
    assert_eq!(m.cpu.sp, Addr(0xfffc));
    assert_eq!(m.mmu.readu8(Addr(0xfffc)), 0x03);
    assert_eq!(m.mmu.readu8(Addr(0xfffd)), 0x01);
    assert_eq!(m.cpu.pc, Addr(0x1234));
    assert_eq!(ticks, 24);
}

#[test]
fn daa_leaves_bcd_alone() {
    let mut m = machine_with(0x0100, &[0x27]);
    m.cpu.regs.a = 0x45;
    m.step().unwrap();
    assert_eq!(m.cpu.regs.a, 0x45);
    assert!(!m.cpu.regs.f.zero);
    assert!(!m.cpu.regs.f.half_carry);
    assert!(!m.cpu.regs.f.carry);
}

#[test]
fn timer_overflow_reloads_and_requests() {
    let mut m = machine_with(0x0100, &[]);
    m.mmu.writeu8(Addr(0xff05), 0xff);
    m.mmu.writeu8(Addr(0xff06), 0xa0);
    m.mmu.writeu8(Addr(0xff07), 0x05);
    m.mmu.writeu8(Addr(0xff04), 0x00);
    // Bit 3 of the counter rises at 8 and falls at 16.
    m.mmu.tick(15);
    assert_eq!(m.mmu.readu8(Addr(0xff05)), 0xff);
    assert_eq!(m.mmu.readu8(Addr(0xff0f)) & 0x04, 0);
    m.mmu.tick(1);
    assert_eq!(m.mmu.readu8(Addr(0xff05)), 0xa0);
    assert_eq!(m.mmu.readu8(Addr(0xff0f)) & 0x04, 0x04);
}

#[test]
fn background_row_of_tile_zero() {
    let mut m = machine_with(0x0100, &[]);
    m.mmu.writeu8(Addr(0xff40), 0x81);
    m.mmu.writeu8(Addr(0xff47), 0xe4);
    m.mmu.writeu8(Addr(0x9000), 0xff);
    m.mmu.writeu8(Addr(0x9001), 0x00);
    m.mmu.writeu8(Addr(0xff42), 0);
    m.mmu.writeu8(Addr(0xff43), 0);
    // Line 0 is drawn when pixel transfer ends, 252 T-cycles into the frame.
    m.mmu.tick(251);
    assert_eq!(m.frame_buffer().get(0, 0), Colour::White);
    m.mmu.tick(1);
    for x in 0..8 {
        assert_eq!(m.frame_buffer().get(0, x), Colour::LightGrey);
    }
    // Tile data mode 0 takes tile 0 from 0x9000; every tile of the row is
    // tile 0.
    assert_eq!(m.frame_buffer().get(0, 8), Colour::LightGrey);
    assert_eq!(m.frame_buffer().get(1, 0), Colour::White);
}

#[test]
fn undefined_opcode_is_reported() {
    let mut m = machine_with(0x0150, &[0xd3]);
    let before = m.cpu;
    let e = m.step().unwrap_err();
    assert_eq!(e.pc, 0x0150);
    assert_eq!(e.opcode, 0x00d3);
    assert_eq!(e.kind, ErrorKind::UndefinedOpcode);
    assert_eq!(m.cpu, before);
}

#[test]
fn cartridge_errors() {
    assert_eq!(Machine::new(vec![0u8; 0x100], None).err(), Some(CartridgeError::Truncated));
    assert_eq!(Machine::new(vec![0u8; 0x8001], None).err(), Some(CartridgeError::Truncated));
    let mut rom = vec![0u8; 0x8000];
    rom[0x147] = 0x05;
    assert_eq!(Machine::new(rom, None).err(), Some(CartridgeError::UnsupportedMbc(0x05)));
    let mut rom = vec![0u8; 0x8000];
    rom[0x147] = 0x01;
    rom[0x149] = 0x05;
    assert_eq!(Machine::new(rom, None).err(), Some(CartridgeError::BadRamSize(0x05)));
}

#[test]
fn ei_enables_after_delay_and_di_cancels() {
    // EI; NOP; NOP
    let mut m = machine_with(0x0100, &[0xfb, 0x00, 0x00, 0x00]);
    m.step().unwrap();
    assert_eq!(m.cpu.ime, IMEState::EnablePending1);
    m.step().unwrap();
    assert_eq!(m.cpu.ime, IMEState::EnablePending2);
    m.step().unwrap();
    assert_eq!(m.cpu.ime, IMEState::Enabled);
    // EI; DI
    let mut m = machine_with(0x0100, &[0xfb, 0xf3]);
    m.step().unwrap();
    m.step().unwrap();
    assert_eq!(m.cpu.ime, IMEState::Disabled);
}

#[test]
fn key_press_requests_interrupt_when_group_selected() {
    let mut m = machine_with(0x0100, &[]);
    m.set_key(Key::Start, true);
    assert_eq!(m.mmu.readu8(Addr(0xff0f)) & 0x10, 0);
    assert_eq!(m.mmu.readu8(Addr(0xff00)), 0xff);
    // Select the buttons: bit 5 low.
    m.mmu.writeu8(Addr(0xff00), 0x10);
    assert_eq!(m.mmu.readu8(Addr(0xff00)), 0xd7);
    m.set_key(Key::ButtonA, true);
    assert_eq!(m.mmu.readu8(Addr(0xff00)), 0xd6);
    assert_eq!(m.mmu.readu8(Addr(0xff0f)) & 0x10, 0x10);
    m.set_key(Key::Start, false);
    assert_eq!(m.mmu.readu8(Addr(0xff00)), 0xde);
}

#[test]
fn idle_cpu_sees_a_vertical_blank_every_17556_steps() {
    // HALT with no interrupt enabled.
    let mut m = machine_with(0x0100, &[0x76]);
    m.mmu.writeu8(Addr(0xffff), 0x00);
    assert_eq!(m.step().unwrap(), 4);
    let mut steps_to_first = 1u64;
    while m.mmu.readu8(Addr(0xff0f)) & 1 == 0 {
        assert_eq!(m.step().unwrap(), 4);
        steps_to_first += 1;
    }
    assert_eq!(steps_to_first * 4, 65664);
    for _ in 0..2 {
        m.mmu.writeu8(Addr(0xff0f), 0x00);
        let mut steps = 0u64;
        while m.mmu.readu8(Addr(0xff0f)) & 1 == 0 {
            assert_eq!(m.step().unwrap(), 4);
            steps += 1;
        }
        assert_eq!(steps, 17556);
        assert_eq!(steps * 4, 70224);
    }
    assert!(m.cpu.halted);
    assert_eq!(m.cpu.pc, Addr(0x0101));
}
