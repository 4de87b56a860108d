use machine::cpu::instruction::{
    check_condition, decode, get_p, get_r, get_r8_reg, get_y, get_z, perform_acc_flag, perform_alu8, perform_sr8,
    AccFlagOp, AluOp, Condition, SrOp, R8,
};
use machine::cpu::interrupts::{Interrupt, Interrupts};
use machine::cpu::registers::{Flags, Registers};
use machine::cpu::{IMEState, CPU};
use machine::util::Addr;
use machine::Machine;

fn rom_with(at: usize, program: &[u8]) -> Vec<u8> {
    let mut rom = vec![0u8; 0x8000];
    for (i, b) in program.iter().enumerate() {
        rom[at + i] = *b;
    }
    rom
}

fn boot(program: &[u8]) -> Machine {
    let mut m = Machine::new(rom_with(0x100, program), None).unwrap();
    m.cpu.regs.f = Flags::new();
    m
}

fn flags(z: bool, n: bool, h: bool, c: bool) -> Flags {
    Flags { zero: z, subtraction: n, half_carry: h, carry: c }
}

fn alu(op: AluOp, a: u8, b: u8, carry: bool) -> (u8, Flags) {
    let mut cpu = CPU::new();
    cpu.regs.a = a;
    cpu.regs.f.carry = carry;
    perform_alu8(&mut cpu, op, b);
    (cpu.regs.a, cpu.regs.f)
}

#[test]
fn flags_pack_into_the_high_nibble() {
    assert_eq!(u8::from(flags(true, false, false, false)), 0x80);
    assert_eq!(u8::from(flags(false, true, false, false)), 0x40);
    assert_eq!(u8::from(flags(false, false, true, false)), 0x20);
    assert_eq!(u8::from(flags(false, false, false, true)), 0x10);
    assert_eq!(Flags::from(0xa0), flags(true, false, true, false));
    for v in 0..=255u8 {
        assert_eq!(u8::from(Flags::from(v)), v & 0xf0);
    }
}

#[test]
fn register_pairs_are_big_endian() {
    let mut r = Registers::new();
    r.set_bc(0x1234);
    assert_eq!((r.get_b(), r.get_c()), (0x12, 0x34));
    r.set_de(0xabcd);
    assert_eq!((r.get_d(), r.get_e()), (0xab, 0xcd));
    r.set_hl(0xffff);
    r.incr_hl();
    assert_eq!(r.get_hl(), 0x0000);
    r.decr_hl();
    assert_eq!(r.get_hl(), 0xffff);
    r.set_af(0x12ff);
    assert_eq!(r.get_a(), 0x12);
    assert_eq!(r.get_f(), 0xf0);
    assert_eq!(r.get_af(), 0x12f0);
    assert_eq!(r.get_bc(), 0x1234);
    assert_eq!(r.get_de(), 0xabcd);
}

#[test]
fn opcode_digits() {
    assert_eq!(get_z(0b11_101_110), 0b110);
    assert_eq!(get_y(0b11_101_110), 0b101);
    assert_eq!(get_p(0b11_101_110), 0b10);
    assert_eq!(get_r(0b11_101_110), 0b01);
    assert_eq!(get_r8_reg(6), (R8::HL, true));
    assert_eq!(get_r8_reg(7), (R8::A, false));
    assert_eq!(R8::try_from(8), Err(()));
    assert_eq!(AluOp::try_from(3), Ok(AluOp::SBC));
    assert_eq!(Condition::try_from(4), Err(()));
}

#[test]
fn alu_add_and_adc() {
    assert_eq!(alu(AluOp::ADD, 0x3a, 0x3a, false), (0x74, flags(false, false, true, false)));
    assert_eq!(alu(AluOp::ADD, 0xff, 0x01, false), (0x00, flags(true, false, true, true)));
    assert_eq!(alu(AluOp::ADD, 0x12, 0x34, true), (0x46, flags(false, false, false, false)));
    assert_eq!(alu(AluOp::ADC, 0x0f, 0x00, true), (0x10, flags(false, false, true, false)));
    assert_eq!(alu(AluOp::ADC, 0xff, 0x00, true), (0x00, flags(true, false, true, true)));
    assert_eq!(alu(AluOp::ADC, 0x0e, 0x01, true), (0x10, flags(false, false, true, false)));
    assert_eq!(alu(AluOp::ADC, 0x01, 0x01, false), (0x02, flags(false, false, false, false)));
}

#[test]
fn alu_sub_sbc_and_cp() {
    assert_eq!(alu(AluOp::SUB, 0x10, 0x01, false), (0x0f, flags(false, true, true, false)));
    assert_eq!(alu(AluOp::SUB, 0x00, 0x01, false), (0xff, flags(false, true, true, true)));
    assert_eq!(alu(AluOp::SUB, 0x42, 0x42, true), (0x00, flags(true, true, false, false)));
    assert_eq!(alu(AluOp::SBC, 0x10, 0x0f, true), (0x00, flags(true, true, true, false)));
    assert_eq!(alu(AluOp::SBC, 0x00, 0xff, true), (0x00, flags(true, true, true, true)));
    assert_eq!(alu(AluOp::CP, 0x3c, 0x40, false), (0x3c, flags(false, true, false, true)));
    assert_eq!(alu(AluOp::CP, 0x3c, 0x3c, false), (0x3c, flags(true, true, false, false)));
}

#[test]
fn alu_logic() {
    assert_eq!(alu(AluOp::AND, 0x5a, 0x3f, true), (0x1a, flags(false, false, true, false)));
    assert_eq!(alu(AluOp::AND, 0xf0, 0x0f, true), (0x00, flags(true, false, true, false)));
    assert_eq!(alu(AluOp::XOR, 0xff, 0xff, true), (0x00, flags(true, false, false, false)));
    assert_eq!(alu(AluOp::OR, 0x5a, 0x0f, true), (0x5f, flags(false, false, false, false)));
}

#[test]
fn rotates_and_shifts() {
    let mut cpu = CPU::new();
    cpu.regs.f.carry = true;
    assert_eq!(perform_sr8(&cpu, SrOp::RLC, 0x85), (0x0b, true));
    assert_eq!(perform_sr8(&cpu, SrOp::RRC, 0x01), (0x80, true));
    assert_eq!(perform_sr8(&cpu, SrOp::RL, 0x80), (0x01, true));
    assert_eq!(perform_sr8(&cpu, SrOp::RR, 0x01), (0x80, true));
    assert_eq!(perform_sr8(&cpu, SrOp::SLA, 0xff), (0xfe, true));
    assert_eq!(perform_sr8(&cpu, SrOp::SRA, 0x8a), (0xc5, false));
    assert_eq!(perform_sr8(&cpu, SrOp::SWAP, 0xf1), (0x1f, false));
    assert_eq!(perform_sr8(&cpu, SrOp::SRL, 0x01), (0x00, true));
    cpu.regs.f.carry = false;
    assert_eq!(perform_sr8(&cpu, SrOp::RL, 0x80), (0x00, true));
    assert_eq!(perform_sr8(&cpu, SrOp::RR, 0x02), (0x01, false));
}

#[test]
fn accumulator_and_flag_operations() {
    let mut cpu = CPU::new();
    cpu.regs.a = 0x85;
    cpu.regs.f = flags(true, true, true, false);
    perform_acc_flag(&mut cpu, AccFlagOp::RLCA);
    assert_eq!((cpu.regs.a, cpu.regs.f), (0x0b, flags(false, false, false, true)));
    perform_acc_flag(&mut cpu, AccFlagOp::RRA);
    assert_eq!((cpu.regs.a, cpu.regs.f), (0x85, flags(false, false, false, true)));
    perform_acc_flag(&mut cpu, AccFlagOp::CPL);
    assert_eq!((cpu.regs.a, cpu.regs.f), (0x7a, flags(false, true, true, true)));
    perform_acc_flag(&mut cpu, AccFlagOp::CCF);
    assert_eq!(cpu.regs.f, flags(false, false, false, false));
    perform_acc_flag(&mut cpu, AccFlagOp::SCF);
    assert_eq!(cpu.regs.f, flags(false, false, false, true));
}

#[test]
fn decimal_adjust() {
    let mut cpu = CPU::new();
    // 0x45 + 0x38 = 0x7d, which stands for 83.
    cpu.regs.a = 0x7d;
    cpu.regs.f = flags(false, false, false, false);
    perform_acc_flag(&mut cpu, AccFlagOp::DAA);
    assert_eq!((cpu.regs.a, cpu.regs.f), (0x83, flags(false, false, false, false)));
    // 0x99 + 0x01 = 0x9a, which stands for 100.
    cpu.regs.a = 0x9a;
    cpu.regs.f = flags(false, false, false, false);
    perform_acc_flag(&mut cpu, AccFlagOp::DAA);
    assert_eq!((cpu.regs.a, cpu.regs.f), (0x00, flags(true, false, false, true)));
    // 0x83 - 0x38 = 0x4b with a half borrow, which stands for 45.
    cpu.regs.a = 0x4b;
    cpu.regs.f = flags(false, true, true, false);
    perform_acc_flag(&mut cpu, AccFlagOp::DAA);
    assert_eq!((cpu.regs.a, cpu.regs.f), (0x45, flags(false, true, false, false)));
    // After a subtraction with a borrow 0x60 is taken off.
    cpu.regs.a = 0xa0;
    cpu.regs.f = flags(false, true, false, true);
    perform_acc_flag(&mut cpu, AccFlagOp::DAA);
    assert_eq!((cpu.regs.a, cpu.regs.f), (0x40, flags(false, true, false, true)));
}

#[test]
fn conditions() {
    let mut cpu = CPU::new();
    cpu.regs.f = flags(true, false, false, false);
    assert!(check_condition(&cpu, Condition::Z));
    assert!(!check_condition(&cpu, Condition::NZ));
    assert!(check_condition(&cpu, Condition::NC));
    assert!(!check_condition(&cpu, Condition::C));
}

#[test]
fn loads_copy_and_keep_flags() {
    // LD B,0x12; LD C,B; LD HL,0xc000; LD (HL),C; LD A,(HL); LD D,(HL)
    let mut m = boot(&[0x06, 0x12, 0x48, 0x21, 0x00, 0xc0, 0x71, 0x7e, 0x56]);
    m.cpu.regs.f = flags(true, false, true, false);
    assert_eq!(m.step().unwrap(), 8);
    assert_eq!(m.cpu.regs.b, 0x12);
    assert_eq!(m.step().unwrap(), 4);
    assert_eq!(m.cpu.regs.c, 0x12);
    assert_eq!(m.step().unwrap(), 12);
    assert_eq!(m.cpu.regs.get_hl(), 0xc000);
    assert_eq!(m.step().unwrap(), 8);
    assert_eq!(m.mmu.readu8(Addr(0xc000)), 0x12);
    assert_eq!(m.step().unwrap(), 8);
    assert_eq!(m.cpu.regs.a, 0x12);
    assert_eq!(m.step().unwrap(), 8);
    assert_eq!(m.cpu.regs.d, 0x12);
    assert_eq!(m.cpu.regs.f, flags(true, false, true, false));
    assert_eq!(m.cpu.pc, Addr(0x109));
}

#[test]
fn loads_through_register_pairs_move_hl() {
    // LD HL,0xc010; LD (HL+),A; LD (HL-),A; LD A,(HL+)
    let mut m = boot(&[0x21, 0x10, 0xc0, 0x22, 0x32, 0x2a]);
    m.cpu.regs.a = 0x77;
    m.step().unwrap();
    assert_eq!(m.step().unwrap(), 8);
    assert_eq!(m.cpu.regs.get_hl(), 0xc011);
    assert_eq!(m.mmu.readu8(Addr(0xc010)), 0x77);
    m.cpu.regs.a = 0x55;
    assert_eq!(m.step().unwrap(), 8);
    assert_eq!(m.cpu.regs.get_hl(), 0xc010);
    assert_eq!(m.mmu.readu8(Addr(0xc011)), 0x55);
    assert_eq!(m.step().unwrap(), 8);
    assert_eq!(m.cpu.regs.a, 0x77);
    assert_eq!(m.cpu.regs.get_hl(), 0xc011);
}

#[test]
fn high_page_loads() {
    // LDH (0x80),A; LD C,0x81; LD (C),A; LDH A,(0x81); LD (0xc123),A; LD A,(0xff80)
    let mut m = boot(&[0xe0, 0x80, 0x0e, 0x81, 0xe2, 0xf0, 0x81, 0xea, 0x23, 0xc1, 0xfa, 0x80, 0xff]);
    m.cpu.regs.a = 0x42;
    assert_eq!(m.step().unwrap(), 12);
    assert_eq!(m.mmu.readu8(Addr(0xff80)), 0x42);
    m.step().unwrap();
    m.cpu.regs.a = 0x43;
    assert_eq!(m.step().unwrap(), 8);
    assert_eq!(m.mmu.readu8(Addr(0xff81)), 0x43);
    m.cpu.regs.a = 0;
    assert_eq!(m.step().unwrap(), 12);
    assert_eq!(m.cpu.regs.a, 0x43);
    assert_eq!(m.step().unwrap(), 16);
    assert_eq!(m.mmu.readu8(Addr(0xc123)), 0x43);
    assert_eq!(m.step().unwrap(), 16);
    assert_eq!(m.cpu.regs.a, 0x42);
}

#[test]
fn store_sp_and_load_sp() {
    // LD SP,0xdff0; LD (0xc000),SP; LD HL,0x1234; LD SP,HL
    let mut m = boot(&[0x31, 0xf0, 0xdf, 0x08, 0x00, 0xc0, 0x21, 0x34, 0x12, 0xf9]);
    assert_eq!(m.step().unwrap(), 12);
    assert_eq!(m.cpu.sp, Addr(0xdff0));
    assert_eq!(m.step().unwrap(), 20);
    assert_eq!(m.mmu.readu16(Addr(0xc000)), 0xdff0);
    assert_eq!(m.mmu.readu8(Addr(0xc000)), 0xf0);
    m.step().unwrap();
    assert_eq!(m.step().unwrap(), 8);
    assert_eq!(m.cpu.sp, Addr(0x1234));
}

#[test]
fn push_then_pop_restores_the_pair() {
    // PUSH BC; POP DE; PUSH AF; POP AF
    let mut m = boot(&[0xc5, 0xd1, 0xf5, 0xf1]);
    m.cpu.sp = Addr(0xd000);
    m.cpu.regs.set_bc(0xbeef);
    assert_eq!(m.step().unwrap(), 16);
    assert_eq!(m.cpu.sp, Addr(0xcffe));
    assert_eq!(m.mmu.readu16(Addr(0xcffe)), 0xbeef);
    assert_eq!(m.step().unwrap(), 12);
    assert_eq!(m.cpu.sp, Addr(0xd000));
    assert_eq!(m.cpu.regs.get_de(), 0xbeef);
    m.cpu.regs.a = 0x9c;
    m.cpu.regs.f = flags(true, false, true, true);
    let before = m.cpu.regs;
    m.step().unwrap();
    m.cpu.regs.a = 0;
    m.cpu.regs.f = Flags::new();
    m.step().unwrap();
    assert_eq!(m.cpu.regs, before);
}

#[test]
fn pop_af_forces_the_low_nibble_to_zero() {
    // POP AF; PUSH AF
    let mut m = boot(&[0xf1, 0xf5]);
    m.cpu.sp = Addr(0xc100);
    m.mmu.writeu16(Addr(0xc100), 0x12ff);
    m.step().unwrap();
    assert_eq!(m.cpu.regs.get_af(), 0x12f0);
    assert_eq!(m.cpu.regs.f, flags(true, true, true, true));
    m.step().unwrap();
    assert_eq!(m.cpu.sp, Addr(0xc100));
    assert_eq!(m.mmu.readu16(Addr(0xc100)), 0x12f0);
}

#[test]
fn call_and_ret_keep_stack_discipline() {
    // 0x100: CALL 0x0200 ... 0x200: RET
    let mut rom = rom_with(0x100, &[0xcd, 0x00, 0x02]);
    rom[0x200] = 0xc9;
    let mut m = Machine::new(rom, None).unwrap();
    assert_eq!(m.cpu.sp, Addr(0xfffe));
    assert_eq!(m.step().unwrap(), 24);
    assert_eq!(m.cpu.sp, Addr(0xfffc));
    assert_eq!(m.mmu.readu16(Addr(0xfffc)), 0x0103);
    assert_eq!(m.cpu.pc, Addr(0x0200));
    assert_eq!(m.step().unwrap(), 16);
    assert_eq!(m.cpu.sp, Addr(0xfffe));
    assert_eq!(m.cpu.pc, Addr(0x0103));
}

#[test]
fn conditional_call_not_taken_is_a_nop() {
    for (opcode, z, c) in [(0xc4u8, true, false), (0xcc, false, false), (0xd4, false, true), (0xdc, false, false)] {
        let mut m = boot(&[opcode, 0x34, 0x12]);
        m.cpu.regs.f = flags(z, false, false, c);
        let regs = m.cpu.regs;
        assert_eq!(m.step().unwrap(), 12);
        assert_eq!(m.cpu.pc, Addr(0x0103));
        assert_eq!(m.cpu.sp, Addr(0xfffe));
        assert_eq!(m.cpu.regs, regs);
    }
    for (opcode, z, c) in [(0xc4u8, false, false), (0xcc, true, false), (0xd4, false, false), (0xdc, false, true)] {
        let mut m = boot(&[opcode, 0x34, 0x12]);
        m.cpu.regs.f = flags(z, false, false, c);
        assert_eq!(m.step().unwrap(), 24);
        assert_eq!(m.cpu.pc, Addr(0x1234));
        assert_eq!(m.cpu.sp, Addr(0xfffc));
        assert_eq!(m.mmu.readu16(Addr(0xfffc)), 0x0103);
    }
}

#[test]
fn jumps_and_their_timing() {
    // JP 0x0150
    let mut m = boot(&[0xc3, 0x50, 0x01]);
    assert_eq!(m.step().unwrap(), 16);
    assert_eq!(m.cpu.pc, Addr(0x0150));
    // JP Z,nn not taken and taken
    let mut m = boot(&[0xca, 0x50, 0x01]);
    assert_eq!(m.step().unwrap(), 12);
    assert_eq!(m.cpu.pc, Addr(0x0103));
    let mut m = boot(&[0xca, 0x50, 0x01]);
    m.cpu.regs.f.zero = true;
    assert_eq!(m.step().unwrap(), 16);
    assert_eq!(m.cpu.pc, Addr(0x0150));
    // JR -2 jumps to itself
    let mut m = boot(&[0x18, 0xfe]);
    assert_eq!(m.step().unwrap(), 12);
    assert_eq!(m.cpu.pc, Addr(0x0100));
    // JR +5
    let mut m = boot(&[0x18, 0x05]);
    m.step().unwrap();
    assert_eq!(m.cpu.pc, Addr(0x0107));
    // JR NC,e taken and not taken
    let mut m = boot(&[0x30, 0x10]);
    assert_eq!(m.step().unwrap(), 12);
    assert_eq!(m.cpu.pc, Addr(0x0112));
    let mut m = boot(&[0x30, 0x10]);
    m.cpu.regs.f.carry = true;
    assert_eq!(m.step().unwrap(), 8);
    assert_eq!(m.cpu.pc, Addr(0x0102));
    // JP HL
    let mut m = boot(&[0xe9]);
    m.cpu.regs.set_hl(0x4000);
    assert_eq!(m.step().unwrap(), 4);
    assert_eq!(m.cpu.pc, Addr(0x4000));
}

#[test]
fn returns_and_restarts() {
    // RET NZ not taken, then taken
    let mut m = boot(&[0xc0, 0xc0]);
    m.cpu.sp = Addr(0xc000);
    m.mmu.writeu16(Addr(0xc000), 0x0300);
    m.cpu.regs.f.zero = true;
    assert_eq!(m.step().unwrap(), 8);
    assert_eq!(m.cpu.pc, Addr(0x0101));
    m.cpu.regs.f.zero = false;
    assert_eq!(m.step().unwrap(), 20);
    assert_eq!(m.cpu.pc, Addr(0x0300));
    assert_eq!(m.cpu.sp, Addr(0xc002));
    // RST 0x28
    let mut m = boot(&[0xef]);
    assert_eq!(m.step().unwrap(), 16);
    assert_eq!(m.cpu.pc, Addr(0x0028));
    assert_eq!(m.mmu.readu16(Addr(0xfffc)), 0x0101);
    // RETI enables interrupts at once
    let mut m = boot(&[0xd9]);
    m.cpu.sp = Addr(0xc000);
    m.mmu.writeu16(Addr(0xc000), 0x0400);
    assert_eq!(m.step().unwrap(), 16);
    assert_eq!(m.cpu.pc, Addr(0x0400));
    assert_eq!(m.cpu.ime, IMEState::Enabled);
}

#[test]
fn sixteen_bit_arithmetic() {
    // ADD HL,BC
    let mut m = boot(&[0x09]);
    m.cpu.regs.set_hl(0x0fff);
    m.cpu.regs.set_bc(0x0001);
    m.cpu.regs.f = flags(true, true, false, true);
    assert_eq!(m.step().unwrap(), 8);
    assert_eq!(m.cpu.regs.get_hl(), 0x1000);
    assert_eq!(m.cpu.regs.f, flags(true, false, true, false));
    // ADD HL,HL with carry out of bit 15
    let mut m = boot(&[0x29]);
    m.cpu.regs.set_hl(0x8000);
    assert_eq!(m.step().unwrap(), 8);
    assert_eq!(m.cpu.regs.get_hl(), 0x0000);
    assert_eq!(m.cpu.regs.f, flags(false, false, false, true));
    // INC BC wraps, DEC SP wraps, flags stay
    let mut m = boot(&[0x03, 0x3b]);
    m.cpu.regs.set_bc(0xffff);
    m.cpu.sp = Addr(0x0000);
    m.cpu.regs.f = flags(true, true, true, true);
    assert_eq!(m.step().unwrap(), 8);
    assert_eq!(m.cpu.regs.get_bc(), 0x0000);
    assert_eq!(m.step().unwrap(), 8);
    assert_eq!(m.cpu.sp, Addr(0xffff));
    assert_eq!(m.cpu.regs.f, flags(true, true, true, true));
}

#[test]
fn stack_pointer_plus_displacement() {
    // ADD SP,-1
    let mut m = boot(&[0xe8, 0xff]);
    m.cpu.sp = Addr(0x0001);
    m.cpu.regs.f = flags(true, true, false, false);
    assert_eq!(m.step().unwrap(), 16);
    assert_eq!(m.cpu.sp, Addr(0x0000));
    assert_eq!(m.cpu.regs.f, flags(false, false, true, true));
    // LD HL,SP+2
    let mut m = boot(&[0xf8, 0x02]);
    m.cpu.sp = Addr(0xfffe);
    assert_eq!(m.step().unwrap(), 12);
    assert_eq!(m.cpu.regs.get_hl(), 0x0000);
    assert_eq!(m.cpu.sp, Addr(0xfffe));
    assert_eq!(m.cpu.regs.f, flags(false, false, true, true));
    // LD HL,SP+1 without carries
    let mut m = boot(&[0xf8, 0x01]);
    m.cpu.sp = Addr(0x1000);
    m.step().unwrap();
    assert_eq!(m.cpu.regs.get_hl(), 0x1001);
    assert_eq!(m.cpu.regs.f, flags(false, false, false, false));
}

#[test]
fn increments_through_hl_take_longer() {
    // LD HL,0xc000; INC (HL); DEC (HL); DEC (HL)
    let mut m = boot(&[0x21, 0x00, 0xc0, 0x34, 0x35, 0x35]);
    m.mmu.writeu8(Addr(0xc000), 0x0f);
    m.cpu.regs.f.carry = true;
    m.step().unwrap();
    assert_eq!(m.step().unwrap(), 12);
    assert_eq!(m.mmu.readu8(Addr(0xc000)), 0x10);
    assert_eq!(m.cpu.regs.f, flags(false, false, true, true));
    assert_eq!(m.step().unwrap(), 12);
    assert_eq!(m.mmu.readu8(Addr(0xc000)), 0x0f);
    assert_eq!(m.cpu.regs.f, flags(false, true, true, true));
    m.step().unwrap();
    assert_eq!(m.cpu.regs.f, flags(false, true, false, true));
}

#[test]
fn prefixed_instructions() {
    // SWAP A; BIT 7,A; RES 0,A; SET 7,A; RL (HL); BIT 0,(HL)
    let mut m = boot(&[0xcb, 0x37, 0xcb, 0x7f, 0xcb, 0x87, 0xcb, 0xff, 0xcb, 0x16, 0xcb, 0x46]);
    m.cpu.regs.a = 0x1f;
    m.cpu.regs.f = flags(false, true, true, true);
    assert_eq!(m.step().unwrap(), 8);
    assert_eq!(m.cpu.regs.a, 0xf1);
    assert_eq!(m.cpu.regs.f, flags(false, false, false, false));
    m.cpu.regs.f.carry = true;
    assert_eq!(m.step().unwrap(), 8);
    assert_eq!(m.cpu.regs.f, flags(false, false, true, true));
    assert_eq!(m.step().unwrap(), 8);
    assert_eq!(m.cpu.regs.a, 0xf0);
    m.cpu.regs.a = 0x00;
    assert_eq!(m.step().unwrap(), 8);
    assert_eq!(m.cpu.regs.a, 0x80);
    assert_eq!(m.cpu.regs.f, flags(false, false, true, true));
    m.cpu.regs.set_hl(0xc000);
    m.mmu.writeu8(Addr(0xc000), 0x80);
    assert_eq!(m.step().unwrap(), 16);
    assert_eq!(m.mmu.readu8(Addr(0xc000)), 0x01);
    assert_eq!(m.cpu.regs.f, flags(false, false, false, true));
    assert_eq!(m.step().unwrap(), 12);
    assert_eq!(m.cpu.regs.f, flags(false, false, true, true));
    assert_eq!(m.cpu.pc, Addr(0x010c));
}

#[test]
fn every_undefined_opcode_is_refused() {
    for opcode in [0xd3u8, 0xdb, 0xdd, 0xe3, 0xe4, 0xeb, 0xec, 0xed, 0xf4, 0xfc, 0xfd] {
        let mut m = boot(&[opcode]);
        let e = m.step().unwrap_err();
        assert_eq!(e.opcode, opcode as u16);
        assert_eq!(e.pc, 0x0100);
        assert_eq!(m.cpu.pc, Addr(0x0100));
    }
    let mut m = boot(&[]);
    let mut cpu = m.cpu;
    assert_eq!(decode(0x0100, &mut cpu, &mut m.mmu), None);
    assert_eq!(decode(0xcaff, &mut cpu, &mut m.mmu), None);
    assert_eq!(cpu, m.cpu);
}

#[test]
fn every_defined_opcode_runs() {
    let undefined = [0xd3u8, 0xdb, 0xdd, 0xe3, 0xe4, 0xeb, 0xec, 0xed, 0xf4, 0xfc, 0xfd];
    for opcode in 0..=255u8 {
        if undefined.contains(&opcode) || opcode == 0xcb {
            continue;
        }
        let mut m = boot(&[opcode, 0x00, 0xc0]);
        m.cpu.sp = Addr(0xd000);
        let ticks = m.step().unwrap();
        assert!(ticks >= 4 && ticks <= 24 && ticks % 4 == 0);
    }
    for second in 0..=255u8 {
        let mut m = boot(&[0xcb, second]);
        let ticks = m.step().unwrap();
        let through_hl = second & 7 == 6;
        let bit = second >= 0x40 && second < 0x80;
        assert_eq!(ticks, if !through_hl { 8 } else if bit { 12 } else { 16 });
        assert_eq!(m.cpu.pc, Addr(0x0102));
    }
}

#[test]
fn interrupt_priority_and_vectors() {
    let all = Interrupts::from(0x1f);
    assert_eq!(all.next_interrupt(), Some(Interrupt::VBlank));
    assert_eq!(Interrupts::from(0x1e).next_interrupt(), Some(Interrupt::LCDStat));
    assert_eq!(Interrupts::from(0x1c).next_interrupt(), Some(Interrupt::Timer));
    assert_eq!(Interrupts::from(0x18).next_interrupt(), Some(Interrupt::Serial));
    assert_eq!(Interrupts::from(0x10).next_interrupt(), Some(Interrupt::Joypad));
    assert_eq!(Interrupts::from(0xe0).next_interrupt(), None);
    assert_eq!(Interrupt::VBlank.vector(), 0x40);
    assert_eq!(Interrupt::LCDStat.vector(), 0x48);
    assert_eq!(Interrupt::Timer.vector(), 0x50);
    assert_eq!(Interrupt::Serial.vector(), 0x58);
    assert_eq!(Interrupt::Joypad.vector(), 0x60);
    assert_eq!(u8::from(Interrupts::from(0xff)), 0x1f);
    let mut i = Interrupts::default();
    i.set(Interrupt::Timer);
    i.toggle(Interrupt::Joypad);
    assert_eq!(u8::from(i), 0x14);
    i.unset(Interrupt::Timer);
    i.toggle(Interrupt::Joypad);
    assert_eq!(u8::from(i), 0x00);
    assert_eq!(u8::from(Interrupts::from(0x15).bitand(Interrupts::from(0x06))), 0x04);
}

#[test]
fn interrupt_is_served_before_the_fetch() {
    let mut m = boot(&[0x00, 0x00]);
    m.cpu.ime = IMEState::Enabled;
    m.mmu.writeu8(Addr(0xffff), 0x05);
    m.mmu.writeu8(Addr(0xff0f), 0x04);
    assert_eq!(m.step().unwrap(), 20);
    assert_eq!(m.cpu.pc, Addr(0x0050));
    assert_eq!(m.cpu.ime, IMEState::Disabled);
    assert_eq!(m.cpu.sp, Addr(0xfffc));
    assert_eq!(m.mmu.readu16(Addr(0xfffc)), 0x0100);
    assert_eq!(m.mmu.readu8(Addr(0xff0f)) & 0x04, 0x00);
    // A request that is not enabled is not served.
    let mut m = boot(&[0x00, 0x00]);
    m.cpu.ime = IMEState::Enabled;
    m.mmu.writeu8(Addr(0xffff), 0x01);
    m.mmu.writeu8(Addr(0xff0f), 0x04);
    assert_eq!(m.step().unwrap(), 4);
    assert_eq!(m.cpu.pc, Addr(0x0101));
    // With both requested the vertical blank goes first.
    let mut m = boot(&[0x00, 0x00]);
    m.cpu.ime = IMEState::Enabled;
    m.mmu.writeu8(Addr(0xffff), 0x1f);
    m.mmu.writeu8(Addr(0xff0f), 0x11);
    assert_eq!(m.step().unwrap(), 20);
    assert_eq!(m.cpu.pc, Addr(0x0040));
    assert_eq!(m.mmu.readu8(Addr(0xff0f)), 0x10);
}

#[test]
fn halt_waits_for_a_request() {
    // HALT; INC A
    let mut m = boot(&[0x76, 0x3c]);
    m.mmu.writeu8(Addr(0xffff), 0x04);
    assert_eq!(m.step().unwrap(), 4);
    assert!(m.cpu.halted);
    for _ in 0..10 {
        assert_eq!(m.step().unwrap(), 4);
        assert_eq!(m.cpu.pc, Addr(0x0101));
    }
    // A request wakes the CPU although interrupts are disabled.
    m.mmu.writeu8(Addr(0xff0f), 0x04);
    assert_eq!(m.step().unwrap(), 4);
    assert!(!m.cpu.halted);
    assert_eq!(m.cpu.regs.a, 0x12);
    assert_eq!(m.cpu.pc, Addr(0x0102));
}

#[test]
fn boot_state() {
    let m = Machine::new(vec![0u8; 0x8000], None).unwrap();
    assert_eq!(m.cpu.pc, Addr(0x0100));
    assert_eq!(m.cpu.sp, Addr(0xfffe));
    assert_eq!(m.cpu.regs.a, 0x11);
    assert_eq!(m.cpu.regs.get_f(), 0x80);
    assert_eq!(m.cpu.regs.get_bc(), 0x0000);
    assert_eq!(m.cpu.regs.get_de(), 0xff56);
    assert_eq!(m.cpu.regs.get_hl(), 0x000d);
    assert_eq!(m.cpu.ime, IMEState::Disabled);
    assert_eq!(m.mmu.readu8(Addr(0xff50)), 1);
    let m = Machine::new(vec![0u8; 0x8000], Some(vec![0x31, 0xfe, 0xff])).unwrap();
    assert_eq!(m.cpu.pc, Addr(0x0000));
    assert_eq!(m.cpu.sp, Addr(0x0000));
    assert_eq!(m.mmu.readu8(Addr(0xff50)), 0);
    assert_eq!(m.mmu.readu8(Addr(0x0000)), 0x31);
}

#[test]
fn run_stops_at_the_first_failure() {
    // INC A; INC A; undefined
    let mut m = boot(&[0x3c, 0x3c, 0xd3]);
    m.cpu.regs.a = 0;
    assert!(m.run(2).is_ok());
    assert_eq!(m.cpu.regs.a, 2);
    let e = m.run(5).unwrap_err();
    assert_eq!(e.pc, 0x0102);
    assert_eq!(m.cpu.pc, Addr(0x0102));
}
