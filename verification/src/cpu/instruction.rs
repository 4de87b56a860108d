//! Decoding and executing instructions.
//!
//! An opcode byte is cut into octal digits: `x` is bits 7 and 6, `y` bits 5
//! to 3, `z` bits 2 to 0; `p` is bits 5 and 4 and `q` bit 3. The digits pick
//! operands from small tables: the 8-bit operands `B C D E H L (HL) A`, and
//! three tables of 16-bit registers.

use super::registers::{Flags, Registers};
use super::{IMEState, CPU};
use crate::mmu::{MmuView, MMU};
use crate::util::{
    bit_11_overflow, bit_3_overflow, bit_4_borrow, byte_of, clear_nth, get_nth_bit, half_borrow_sub8,
    half_carry_add16, half_carry_add8, lemma_byte_of_bits, low_byte, lsb, nth_bit, nth_bit_to, set_nth,
    set_nth_bit, signed8, swap_nibbles, unset_nth_bit, wrap16, wrap8, Addr,
};
use vstd::prelude::*;

verus! {

/// Digit `z` of an opcode: bits 2 to 0.
pub open spec fn z_of(op: u8) -> u8 {
    op % 8
}

/// Digit `y` of an opcode: bits 5 to 3.
pub open spec fn y_of(op: u8) -> u8 {
    (op / 8) % 8
}

/// Digit `p` of an opcode: bits 5 and 4.
pub open spec fn p_of(op: u8) -> u8 {
    (op / 16) % 4
}

/// The condition field of an opcode: bits 4 and 3.
pub open spec fn r_of(op: u8) -> u8 {
    (op / 8) % 4
}

/// Digit `q` of an opcode: bit 3.
pub open spec fn q_of(op: u8) -> u8 {
    (op / 8) % 2
}

proof fn lemma_digits(val: u8)
    by (bit_vector)
    ensures
        val & 0b0000_0111 == val % 8,
        (val & 0b0011_1000) >> 3 == (val / 8) % 8,
        (val & 0b0011_0000) >> 4 == (val / 16) % 4,
        (val & 0b0001_1000) >> 3 == (val / 8) % 4,
{
}

/// Digit `z` of an opcode.
pub fn get_z(val: u8) -> (r: u8)
    ensures
        r == z_of(val),
        r < 8,
{
    proof {
        lemma_digits(val);
    }
    val & 0b0000_0111
}

/// Digit `y` of an opcode.
pub fn get_y(val: u8) -> (r: u8)
    ensures
        r == y_of(val),
        r < 8,
{
    proof {
        lemma_digits(val);
    }
    (val & 0b0011_1000) >> 3
}

/// Digit `p` of an opcode.
pub fn get_p(val: u8) -> (r: u8)
    ensures
        r == p_of(val),
        r < 4,
{
    proof {
        lemma_digits(val);
    }
    (val & 0b0011_0000) >> 4
}

/// The condition field of an opcode.
pub fn get_r(val: u8) -> (r: u8)
    ensures
        r == r_of(val),
        r < 4,
{
    proof {
        lemma_digits(val);
    }
    (val & 0b0001_1000) >> 3
}

/// An 8-bit operand. `HL` stands for the byte of memory at the address in
/// the register pair.
#[derive(Clone, Copy, Debug, PartialEq, Eq, Structural)]
pub enum R8 {
    B,
    C,
    D,
    E,
    H,
    L,
    HL,
    A,
}

impl R8 {
    /// The operand with a given number.
    pub open spec fn of(value: u8) -> R8 {
        if value == 0 {
            R8::B
        } else if value == 1 {
            R8::C
        } else if value == 2 {
            R8::D
        } else if value == 3 {
            R8::E
        } else if value == 4 {
            R8::H
        } else if value == 5 {
            R8::L
        } else if value == 6 {
            R8::HL
        } else {
            R8::A
        }
    }

    /// The operand with a given number, if the number is below 8.
    pub fn try_from(value: u8) -> (r: Result<R8, ()>)
        ensures
            r is Ok <==> value < 8,
            r is Ok ==> r->Ok_0 == R8::of(value),
    {
        if value == 0 {
            Ok(R8::B)
        } else if value == 1 {
            Ok(R8::C)
        } else if value == 2 {
            Ok(R8::D)
        } else if value == 3 {
            Ok(R8::E)
        } else if value == 4 {
            Ok(R8::H)
        } else if value == 5 {
            Ok(R8::L)
        } else if value == 6 {
            Ok(R8::HL)
        } else if value == 7 {
            Ok(R8::A)
        } else {
            Err(())
        }
    }
}

/// The 16-bit registers of loads and arithmetic.
#[derive(Clone, Copy, Debug, PartialEq, Eq, Structural)]
pub enum R16G1 {
    BC,
    DE,
    HL,
    SP,
}

impl R16G1 {
    pub open spec fn of(value: u8) -> R16G1 {
        if value == 0 {
            R16G1::BC
        } else if value == 1 {
            R16G1::DE
        } else if value == 2 {
            R16G1::HL
        } else {
            R16G1::SP
        }
    }

    pub fn try_from(value: u8) -> (r: Result<R16G1, ()>)
        ensures
            r is Ok <==> value < 4,
            r is Ok ==> r->Ok_0 == R16G1::of(value),
    {
        if value == 0 {
            Ok(R16G1::BC)
        } else if value == 1 {
            Ok(R16G1::DE)
        } else if value == 2 {
            Ok(R16G1::HL)
        } else if value == 3 {
            Ok(R16G1::SP)
        } else {
            Err(())
        }
    }
}

/// The 16-bit registers that address memory. `HLI` and `HLD` stand for `HL`
/// with an increment or a decrement after the access.
#[derive(Clone, Copy, Debug, PartialEq, Eq, Structural)]
pub enum R16G2 {
    BC,
    DE,
    HLI,
    HLD,
}

impl R16G2 {
    pub open spec fn of(value: u8) -> R16G2 {
        if value == 0 {
            R16G2::BC
        } else if value == 1 {
            R16G2::DE
        } else if value == 2 {
            R16G2::HLI
        } else {
            R16G2::HLD
        }
    }

    pub fn try_from(value: u8) -> (r: Result<R16G2, ()>)
        ensures
            r is Ok <==> value < 4,
            r is Ok ==> r->Ok_0 == R16G2::of(value),
    {
        if value == 0 {
            Ok(R16G2::BC)
        } else if value == 1 {
            Ok(R16G2::DE)
        } else if value == 2 {
            Ok(R16G2::HLI)
        } else if value == 3 {
            Ok(R16G2::HLD)
        } else {
            Err(())
        }
    }
}

/// The 16-bit registers of `PUSH` and `POP`.
#[derive(Clone, Copy, Debug, PartialEq, Eq, Structural)]
pub enum R16G3 {
    BC,
    DE,
    HL,
    AF,
}

impl R16G3 {
    pub open spec fn of(value: u8) -> R16G3 {
        if value == 0 {
            R16G3::BC
        } else if value == 1 {
            R16G3::DE
        } else if value == 2 {
            R16G3::HL
        } else {
            R16G3::AF
        }
    }

    pub fn try_from(value: u8) -> (r: Result<R16G3, ()>)
        ensures
            r is Ok <==> value < 4,
            r is Ok ==> r->Ok_0 == R16G3::of(value),
    {
        if value == 0 {
            Ok(R16G3::BC)
        } else if value == 1 {
            Ok(R16G3::DE)
        } else if value == 2 {
            Ok(R16G3::HL)
        } else if value == 3 {
            Ok(R16G3::AF)
        } else {
            Err(())
        }
    }
}

/// The eight operations of the 8-bit ALU.
#[derive(Clone, Copy, Debug, PartialEq, Eq, Structural)]
pub enum AluOp {
    ADD,
    ADC,
    SUB,
    SBC,
    AND,
    XOR,
    OR,
    CP,
}

impl AluOp {
    pub open spec fn of(value: u8) -> AluOp {
        if value == 0 {
            AluOp::ADD
        } else if value == 1 {
            AluOp::ADC
        } else if value == 2 {
            AluOp::SUB
        } else if value == 3 {
            AluOp::SBC
        } else if value == 4 {
            AluOp::AND
        } else if value == 5 {
            AluOp::XOR
        } else if value == 6 {
            AluOp::OR
        } else {
            AluOp::CP
        }
    }

    pub fn try_from(value: u8) -> (r: Result<AluOp, ()>)
        ensures
            r is Ok <==> value < 8,
            r is Ok ==> r->Ok_0 == AluOp::of(value),
    {
        if value == 0 {
            Ok(AluOp::ADD)
        } else if value == 1 {
            Ok(AluOp::ADC)
        } else if value == 2 {
            Ok(AluOp::SUB)
        } else if value == 3 {
            Ok(AluOp::SBC)
        } else if value == 4 {
            Ok(AluOp::AND)
        } else if value == 5 {
            Ok(AluOp::XOR)
        } else if value == 6 {
            Ok(AluOp::OR)
        } else if value == 7 {
            Ok(AluOp::CP)
        } else {
            Err(())
        }
    }
}

/// The eight rotates and shifts behind the prefix 0xcb.
#[derive(Clone, Copy, Debug, PartialEq, Eq, Structural)]
pub enum SrOp {
    RLC,
    RRC,
    RL,
    RR,
    SLA,
    SRA,
    SWAP,
    SRL,
}

impl SrOp {
    pub open spec fn of(value: u8) -> SrOp {
        if value == 0 {
            SrOp::RLC
        } else if value == 1 {
            SrOp::RRC
        } else if value == 2 {
            SrOp::RL
        } else if value == 3 {
            SrOp::RR
        } else if value == 4 {
            SrOp::SLA
        } else if value == 5 {
            SrOp::SRA
        } else if value == 6 {
            SrOp::SWAP
        } else {
            SrOp::SRL
        }
    }

    pub fn try_from(value: u8) -> (r: Result<SrOp, ()>)
        ensures
            r is Ok <==> value < 8,
            r is Ok ==> r->Ok_0 == SrOp::of(value),
    {
        if value == 0 {
            Ok(SrOp::RLC)
        } else if value == 1 {
            Ok(SrOp::RRC)
        } else if value == 2 {
            Ok(SrOp::RL)
        } else if value == 3 {
            Ok(SrOp::RR)
        } else if value == 4 {
            Ok(SrOp::SLA)
        } else if value == 5 {
            Ok(SrOp::SRA)
        } else if value == 6 {
            Ok(SrOp::SWAP)
        } else if value == 7 {
            Ok(SrOp::SRL)
        } else {
            Err(())
        }
    }
}

/// The four conditions of jumps, calls and returns.
#[derive(Clone, Copy, Debug, PartialEq, Eq, Structural)]
pub enum Condition {
    NZ,
    Z,
    NC,
    C,
}

impl Condition {
    pub open spec fn of(value: u8) -> Condition {
        if value == 0 {
            Condition::NZ
        } else if value == 1 {
            Condition::Z
        } else if value == 2 {
            Condition::NC
        } else {
            Condition::C
        }
    }

    /// Whether the condition holds of the flags.
    pub open spec fn holds(self, f: Flags) -> bool {
        match self {
            Condition::NZ => !f.zero,
            Condition::Z => f.zero,
            Condition::NC => !f.carry,
            Condition::C => f.carry,
        }
    }

    pub fn try_from(value: u8) -> (r: Result<Condition, ()>)
        ensures
            r is Ok <==> value < 4,
            r is Ok ==> r->Ok_0 == Condition::of(value),
    {
        if value == 0 {
            Ok(Condition::NZ)
        } else if value == 1 {
            Ok(Condition::Z)
        } else if value == 2 {
            Ok(Condition::NC)
        } else if value == 3 {
            Ok(Condition::C)
        } else {
            Err(())
        }
    }
}

/// The eight operations on the accumulator and the flags.
#[derive(Clone, Copy, Debug, PartialEq, Eq, Structural)]
pub enum AccFlagOp {
    RLCA,
    RRCA,
    RLA,
    RRA,
    DAA,
    CPL,
    SCF,
    CCF,
}

impl AccFlagOp {
    pub open spec fn of(value: u8) -> AccFlagOp {
        if value == 0 {
            AccFlagOp::RLCA
        } else if value == 1 {
            AccFlagOp::RRCA
        } else if value == 2 {
            AccFlagOp::RLA
        } else if value == 3 {
            AccFlagOp::RRA
        } else if value == 4 {
            AccFlagOp::DAA
        } else if value == 5 {
            AccFlagOp::CPL
        } else if value == 6 {
            AccFlagOp::SCF
        } else {
            AccFlagOp::CCF
        }
    }

    pub fn try_from(value: u8) -> (r: Result<AccFlagOp, ()>)
        ensures
            r is Ok <==> value < 8,
            r is Ok ==> r->Ok_0 == AccFlagOp::of(value),
    {
        if value == 0 {
            Ok(AccFlagOp::RLCA)
        } else if value == 1 {
            Ok(AccFlagOp::RRCA)
        } else if value == 2 {
            Ok(AccFlagOp::RLA)
        } else if value == 3 {
            Ok(AccFlagOp::RRA)
        } else if value == 4 {
            Ok(AccFlagOp::DAA)
        } else if value == 5 {
            Ok(AccFlagOp::CPL)
        } else if value == 6 {
            Ok(AccFlagOp::SCF)
        } else if value == 7 {
            Ok(AccFlagOp::CCF)
        } else {
            Err(())
        }
    }
}

/// The value of an 8-bit operand.
pub open spec fn r8_value(cpu: CPU, mmu: MmuView, src: R8) -> u8 {
    match src {
        R8::B => cpu.regs.b,
        R8::C => cpu.regs.c,
        R8::D => cpu.regs.d,
        R8::E => cpu.regs.e,
        R8::H => cpu.regs.h,
        R8::L => cpu.regs.l,
        R8::HL => mmu.read(cpu.regs.hl()),
        R8::A => cpu.regs.a,
    }
}

/// The CPU and the memory after an 8-bit operand is written.
pub open spec fn r8_written(cpu: CPU, mmu: MmuView, dst: R8, v: u8) -> (CPU, MmuView) {
    match dst {
        R8::B => (cpu.with_regs(Registers { b: v, ..cpu.regs }), mmu),
        R8::C => (cpu.with_regs(Registers { c: v, ..cpu.regs }), mmu),
        R8::D => (cpu.with_regs(Registers { d: v, ..cpu.regs }), mmu),
        R8::E => (cpu.with_regs(Registers { e: v, ..cpu.regs }), mmu),
        R8::H => (cpu.with_regs(Registers { h: v, ..cpu.regs }), mmu),
        R8::L => (cpu.with_regs(Registers { l: v, ..cpu.regs }), mmu),
        R8::HL => (cpu, mmu.write(cpu.regs.hl(), v)),
        R8::A => (cpu.with_regs(Registers { a: v, ..cpu.regs }), mmu),
    }
}

/// The value of a 16-bit register of the first table.
pub open spec fn r16g1_value(cpu: CPU, reg: R16G1) -> u16 {
    match reg {
        R16G1::BC => cpu.regs.bc(),
        R16G1::DE => cpu.regs.de(),
        R16G1::HL => cpu.regs.hl(),
        R16G1::SP => cpu.sp.0,
    }
}

/// The CPU after a 16-bit register of the first table is written.
pub open spec fn r16g1_written(cpu: CPU, reg: R16G1, val: u16) -> CPU {
    match reg {
        R16G1::BC => cpu.with_regs(cpu.regs.with_bc(val)),
        R16G1::DE => cpu.with_regs(cpu.regs.with_de(val)),
        R16G1::HL => cpu.with_regs(cpu.regs.with_hl(val)),
        R16G1::SP => CPU { sp: Addr(val), ..cpu },
    }
}

/// The address that a register of the second table gives, and the CPU after
/// the access: `HLI` and `HLD` leave `HL` one higher or one lower.
pub open spec fn r16g2_addr(cpu: CPU, reg: R16G2) -> (CPU, u16) {
    match reg {
        R16G2::BC => (cpu, cpu.regs.bc()),
        R16G2::DE => (cpu, cpu.regs.de()),
        R16G2::HLI => (cpu.with_regs(cpu.regs.with_hl(wrap16(cpu.regs.hl() + 1))), cpu.regs.hl()),
        R16G2::HLD => (cpu.with_regs(cpu.regs.with_hl(wrap16(cpu.regs.hl() - 1))), cpu.regs.hl()),
    }
}

/// The value of a 16-bit register of the third table.
pub open spec fn r16g3_value(cpu: CPU, reg: R16G3) -> u16 {
    match reg {
        R16G3::BC => cpu.regs.bc(),
        R16G3::DE => cpu.regs.de(),
        R16G3::HL => cpu.regs.hl(),
        R16G3::AF => cpu.regs.af(),
    }
}

/// The CPU after a 16-bit register of the third table is written.
pub open spec fn r16g3_written(cpu: CPU, reg: R16G3, val: u16) -> CPU {
    match reg {
        R16G3::BC => cpu.with_regs(cpu.regs.with_bc(val)),
        R16G3::DE => cpu.with_regs(cpu.regs.with_de(val)),
        R16G3::HL => cpu.with_regs(cpu.regs.with_hl(val)),
        R16G3::AF => cpu.with_regs(cpu.regs.with_af(val)),
    }
}

/// One if the flag is set, else zero.
pub open spec fn bit_value(b: bool) -> int {
    if b {
        1
    } else {
        0
    }
}

/// The registers after an operation of the 8-bit ALU on `A` and `b`.
///
/// | Operation | A         | Z | N | H                     | C           |
/// |-----------|-----------|---|---|-----------------------|-------------|
/// | ADD       | A + b     | Z | 0 | carry out of bit 3    | carry       |
/// | ADC       | A + b + C | Z | 0 | carry out of bit 3    | carry       |
/// | SUB, CP   | A - b     | Z | 1 | borrow into bit 3     | A < b       |
/// | SBC       | A - b - C | Z | 1 | borrow into bit 3     | A < b + C   |
/// | AND       | A & b     | Z | 0 | 1                     | 0           |
/// | XOR, OR   |           | Z | 0 | 0                     | 0           |
///
/// `CP` sets the flags and leaves `A` as it is.
pub open spec fn alu8(regs: Registers, op: AluOp, b: u8) -> Registers {
    let a = regs.a;
    let c = bit_value(regs.f.carry);
    match op {
        AluOp::ADD => Registers {
            a: wrap8(a + b),
            f: Flags {
                zero: wrap8(a + b) == 0,
                subtraction: false,
                half_carry: half_carry_add8(a, b),
                carry: a + b > 0xff,
            },
            ..regs
        },
        AluOp::ADC => Registers {
            a: wrap8(a + b + c),
            f: Flags {
                zero: wrap8(a + b + c) == 0,
                subtraction: false,
                half_carry: a % 16 + b % 16 + c > 0xf,
                carry: a + b + c > 0xff,
            },
            ..regs
        },
        AluOp::SUB => Registers {
            a: wrap8(a - b),
            f: Flags {
                zero: wrap8(a - b) == 0,
                subtraction: true,
                half_carry: half_borrow_sub8(a, b),
                carry: a < b,
            },
            ..regs
        },
        AluOp::SBC => Registers {
            a: wrap8(a - b - c),
            f: Flags {
                zero: wrap8(a - b - c) == 0,
                subtraction: true,
                half_carry: a % 16 < b % 16 + c,
                carry: a < b + c,
            },
            ..regs
        },
        AluOp::AND => Registers {
            a: a & b,
            f: Flags { zero: a & b == 0, subtraction: false, half_carry: true, carry: false },
            ..regs
        },
        AluOp::XOR => Registers {
            a: a ^ b,
            f: Flags { zero: a ^ b == 0, subtraction: false, half_carry: false, carry: false },
            ..regs
        },
        AluOp::OR => Registers {
            a: a | b,
            f: Flags { zero: a | b == 0, subtraction: false, half_carry: false, carry: false },
            ..regs
        },
        AluOp::CP => Registers {
            f: Flags {
                zero: wrap8(a - b) == 0,
                subtraction: true,
                half_carry: half_borrow_sub8(a, b),
                carry: a < b,
            },
            ..regs
        },
    }
}

/// The result of a rotate or shift of `v`, and the bit that leaves it. `RL`
/// and `RR` take the carry flag into the bit that is freed, `SLA` and `SRL`
/// a zero; `SRA` keeps bit 7; `SWAP` exchanges the nibbles and lets no bit
/// leave.
pub open spec fn sr8(carry: bool, op: SrOp, v: u8) -> (u8, bool) {
    let b7 = nth_bit(v, 7);
    let b6 = nth_bit(v, 6);
    let b5 = nth_bit(v, 5);
    let b4 = nth_bit(v, 4);
    let b3 = nth_bit(v, 3);
    let b2 = nth_bit(v, 2);
    let b1 = nth_bit(v, 1);
    let b0 = nth_bit(v, 0);
    match op {
        SrOp::RLC => (byte_of(b6, b5, b4, b3, b2, b1, b0, b7), b7),
        SrOp::RRC => (byte_of(b0, b7, b6, b5, b4, b3, b2, b1), b0),
        SrOp::RL => (byte_of(b6, b5, b4, b3, b2, b1, b0, carry), b7),
        SrOp::RR => (byte_of(carry, b7, b6, b5, b4, b3, b2, b1), b0),
        SrOp::SLA => (byte_of(b6, b5, b4, b3, b2, b1, b0, false), b7),
        SrOp::SRA => (byte_of(b7, b7, b6, b5, b4, b3, b2, b1), b0),
        SrOp::SWAP => (byte_of(b3, b2, b1, b0, b7, b6, b5, b4), false),
        SrOp::SRL => (byte_of(false, b7, b6, b5, b4, b3, b2, b1), b0),
    }
}

/// `A` after the decimal adjust, and the carry that it leaves. After an
/// addition, 0x60 is added if the carry is set or `A` is above 0x99, which
/// sets the carry, and then 6 if the half-carry is set or the low nibble is
/// above 9. After a subtraction, 0x60 is taken off if the carry is set and 6
/// if the half-carry is set.
pub open spec fn daa(f: Flags, a: u8) -> (u8, bool) {
    if !f.subtraction {
        let high = f.carry || a > 0x99;
        let a1 = if high {
            wrap8(a + 0x60)
        } else {
            a
        };
        let a2 = if f.half_carry || (a1 & 0x0f) > 0x09 {
            wrap8(a1 + 0x06)
        } else {
            a1
        };
        (a2, high)
    } else {
        let a1 = if f.carry {
            wrap8(a - 0x60)
        } else {
            a
        };
        let a2 = if f.half_carry {
            wrap8(a1 - 0x06)
        } else {
            a1
        };
        (a2, f.carry)
    }
}

/// The registers after an operation on the accumulator and the flags.
///
/// | Operation            | Z | N | H | C            |
/// |----------------------|---|---|---|--------------|
/// | RLCA, RRCA, RLA, RRA | 0 | 0 | 0 | the bit out  |
/// | DAA                  | Z | - | 0 | C            |
/// | CPL                  | - | 1 | 1 | -            |
/// | SCF                  | - | 0 | 0 | 1            |
/// | CCF                  | - | 0 | 0 | inverted     |
pub open spec fn acc_flag(regs: Registers, op: AccFlagOp) -> Registers {
    let f = regs.f;
    match op {
        AccFlagOp::RLCA => Registers {
            a: sr8(f.carry, SrOp::RLC, regs.a).0,
            f: Flags { zero: false, subtraction: false, half_carry: false, carry: nth_bit(regs.a, 7) },
            ..regs
        },
        AccFlagOp::RRCA => Registers {
            a: sr8(f.carry, SrOp::RRC, regs.a).0,
            f: Flags { zero: false, subtraction: false, half_carry: false, carry: nth_bit(regs.a, 0) },
            ..regs
        },
        AccFlagOp::RLA => Registers {
            a: sr8(f.carry, SrOp::RL, regs.a).0,
            f: Flags { zero: false, subtraction: false, half_carry: false, carry: nth_bit(regs.a, 7) },
            ..regs
        },
        AccFlagOp::RRA => Registers {
            a: sr8(f.carry, SrOp::RR, regs.a).0,
            f: Flags { zero: false, subtraction: false, half_carry: false, carry: nth_bit(regs.a, 0) },
            ..regs
        },
        AccFlagOp::DAA => Registers {
            a: daa(f, regs.a).0,
            f: Flags { zero: daa(f, regs.a).0 == 0, half_carry: false, carry: daa(f, regs.a).1, ..f },
            ..regs
        },
        AccFlagOp::CPL => Registers { a: !regs.a, f: Flags { subtraction: true, half_carry: true, ..f }, ..regs },
        AccFlagOp::SCF => Registers { f: Flags { subtraction: false, half_carry: false, carry: true, ..f }, ..regs },
        AccFlagOp::CCF => Registers {
            f: Flags { subtraction: false, half_carry: false, carry: !f.carry, ..f },
            ..regs
        },
    }
}

/// The operand with a given number, and whether it is the byte at `(HL)`.
pub fn get_r8_reg(oct: u8) -> (r: (R8, bool))
    requires
        oct < 8,
    ensures
        r.0 == R8::of(oct),
        r.1 == (r.0 == R8::HL),
{
    let r8 = R8::try_from(oct).unwrap();
    let is_hl = match r8 {
        R8::HL => true,
        _ => false,
    };
    (r8, is_hl)
}

/// Reads an 8-bit operand.
pub fn read_from_r8(cpu: &CPU, mmu: &MMU, src: R8) -> (r: u8)
    requires
        mmu.wf(),
    ensures
        r == r8_value(*cpu, mmu@, src),
{
    match src {
        R8::B => cpu.regs.get_b(),
        R8::C => cpu.regs.get_c(),
        R8::D => cpu.regs.get_d(),
        R8::E => cpu.regs.get_e(),
        R8::H => cpu.regs.get_h(),
        R8::L => cpu.regs.get_l(),
        R8::HL => mmu.readu8(Addr::from(cpu.regs.get_hl())),
        R8::A => cpu.regs.get_a(),
    }
}

/// Writes an 8-bit operand.
pub fn write_to_r8(cpu: &mut CPU, mmu: &mut MMU, dst: R8, v: u8)
    requires
        old(mmu).wf(),
    ensures
        (*final(cpu), final(mmu)@) == r8_written(*old(cpu), old(mmu)@, dst, v),
        final(mmu).wf(),
{
    match dst {
        R8::B => cpu.regs.set_b(v),
        R8::C => cpu.regs.set_c(v),
        R8::D => cpu.regs.set_d(v),
        R8::E => cpu.regs.set_e(v),
        R8::H => cpu.regs.set_h(v),
        R8::L => cpu.regs.set_l(v),
        R8::HL => mmu.writeu8(Addr::from(cpu.regs.get_hl()), v),
        R8::A => cpu.set_a(v),
    }
}

/// Reads a 16-bit register of the first table.
pub fn read_from_r16_group1(cpu: &CPU, reg: R16G1) -> (r: u16)
    ensures
        r == r16g1_value(*cpu, reg),
{
    match reg {
        R16G1::BC => cpu.regs.get_bc(),
        R16G1::DE => cpu.regs.get_de(),
        R16G1::HL => cpu.regs.get_hl(),
        R16G1::SP => cpu.sp.value(),
    }
}

/// Writes a 16-bit register of the first table.
pub fn write_to_r16_group1(cpu: &mut CPU, reg: R16G1, val: u16)
    ensures
        *final(cpu) == r16g1_written(*old(cpu), reg, val),
{
    match reg {
        R16G1::BC => cpu.regs.set_bc(val),
        R16G1::DE => cpu.regs.set_de(val),
        R16G1::HL => cpu.regs.set_hl(val),
        R16G1::SP => cpu.sp = Addr::from(val),
    }
}

/// The address that the register of the second table named by an opcode
/// gives; `HL` is moved on where the table says so.
pub fn get_addr_from_r16_group2(cpu: &mut CPU, opcode: u8) -> (r: Addr)
    ensures
        (*final(cpu), r.0) == r16g2_addr(*old(cpu), R16G2::of(p_of(opcode))),
{
    let reg = R16G2::try_from(get_p(opcode)).unwrap();
    let addr = match reg {
        R16G2::BC => cpu.regs.get_bc(),
        R16G2::DE => cpu.regs.get_de(),
        R16G2::HLI => {
            let addr = cpu.regs.get_hl();
            cpu.regs.incr_hl();
            addr
        },
        R16G2::HLD => {
            let addr = cpu.regs.get_hl();
            cpu.regs.decr_hl();
            addr
        },
    };
    Addr::from(addr)
}

/// Stores a byte at the address that a register of the second table gives.
pub fn write_to_r16_group2(cpu: &mut CPU, mmu: &mut MMU, opcode: u8, value: u8)
    requires
        old(mmu).wf(),
    ensures
        *final(cpu) == r16g2_addr(*old(cpu), R16G2::of(p_of(opcode))).0,
        final(mmu)@ == old(mmu)@.write(r16g2_addr(*old(cpu), R16G2::of(p_of(opcode))).1, value),
        final(mmu).wf(),
{
    let addr = get_addr_from_r16_group2(cpu, opcode);
    mmu.writeu8(addr, value);
}

/// Reads the byte at the address that a register of the second table gives.
pub fn read_from_r16_group2(cpu: &mut CPU, mmu: &MMU, opcode: u8) -> (r: u8)
    requires
        mmu.wf(),
    ensures
        *final(cpu) == r16g2_addr(*old(cpu), R16G2::of(p_of(opcode))).0,
        r == mmu@.read(r16g2_addr(*old(cpu), R16G2::of(p_of(opcode))).1),
{
    let addr = get_addr_from_r16_group2(cpu, opcode);
    mmu.readu8(addr)
}

/// Reads a 16-bit register of the third table.
pub fn read_from_r16_group3(cpu: &CPU, reg: R16G3) -> (r: u16)
    ensures
        r == r16g3_value(*cpu, reg),
{
    match reg {
        R16G3::BC => cpu.regs.get_bc(),
        R16G3::DE => cpu.regs.get_de(),
        R16G3::HL => cpu.regs.get_hl(),
        R16G3::AF => cpu.regs.get_af(),
    }
}

/// Writes a 16-bit register of the third table.
pub fn write_to_r16_group3(cpu: &mut CPU, reg: R16G3, val: u16)
    ensures
        *final(cpu) == r16g3_written(*old(cpu), reg, val),
{
    match reg {
        R16G3::BC => cpu.regs.set_bc(val),
        R16G3::DE => cpu.regs.set_de(val),
        R16G3::HL => cpu.regs.set_hl(val),
        R16G3::AF => cpu.regs.set_af(val),
    }
}

/// Whether a condition holds of the flags.
pub fn check_condition(cpu: &CPU, conditon: Condition) -> (r: bool)
    ensures
        r == conditon.holds(cpu.regs.f),
{
    match conditon {
        Condition::NZ => !cpu.regs.f.zero,
        Condition::Z => cpu.regs.f.zero,
        Condition::NC => !cpu.regs.f.carry,
        Condition::C => cpu.regs.f.carry,
    }
}

/// `a + b + c` in eight bits, with the carries out of bit 3 and bit 7.
fn add8(a: u8, b: u8, c: bool) -> (r: (u8, bool, bool))
    ensures
        r.0 == wrap8(a + b + bit_value(c)),
        r.1 == (a % 16 + b % 16 + bit_value(c) > 0xf),
        r.2 == (a + b + bit_value(c) > 0xff),
{
    let carry: u16 = if c {
        1
    } else {
        0
    };
    let sum: u16 = a as u16 + b as u16 + carry;
    let low: u16 = (a % 16) as u16 + (b % 16) as u16 + carry;
    ((sum % 0x100) as u8, low > 0xf, sum > 0xff)
}

/// `a - b - c` in eight bits, with the borrows into bit 3 and bit 7.
fn sub8(a: u8, b: u8, c: bool) -> (r: (u8, bool, bool))
    ensures
        r.0 == wrap8(a - b - bit_value(c)),
        r.1 == (a % 16 < b % 16 + bit_value(c)),
        r.2 == (a < b + bit_value(c)),
{
    let carry: u16 = if c {
        1
    } else {
        0
    };
    let diff: u16 = 0x100 + a as u16 - b as u16 - carry;
    let half = ((a % 16) as u16) < (b % 16) as u16 + carry;
    ((diff % 0x100) as u8, half, (a as u16) < b as u16 + carry)
}

/// Performs an operation of the 8-bit ALU on `A` and `op2`.
pub fn perform_alu8(cpu: &mut CPU, operation: AluOp, op2: u8)
    ensures
        *final(cpu) == old(cpu).with_regs(alu8(old(cpu).regs, operation, op2)),
{
    let regs = cpu.regs;
    let a = regs.a;
    let carry = regs.f.carry;
    let (res, f) = match operation {
        AluOp::ADD => {
            let (res, _, of) = add8(a, op2, false);
            (res, Flags { zero: res == 0, subtraction: false, half_carry: bit_3_overflow(a, op2), carry: of })
        },
        AluOp::ADC => {
            let (res, half, of) = add8(a, op2, carry);
            (res, Flags { zero: res == 0, subtraction: false, half_carry: half, carry: of })
        },
        AluOp::SUB => {
            let (res, _, of) = sub8(a, op2, false);
            (res, Flags { zero: res == 0, subtraction: true, half_carry: bit_4_borrow(a, op2), carry: of })
        },
        AluOp::SBC => {
            let (res, half, of) = sub8(a, op2, carry);
            (res, Flags { zero: res == 0, subtraction: true, half_carry: half, carry: of })
        },
        AluOp::AND => {
            let res = a & op2;
            (res, Flags { zero: res == 0, subtraction: false, half_carry: true, carry: false })
        },
        AluOp::XOR => {
            let res = a ^ op2;
            (res, Flags { zero: res == 0, subtraction: false, half_carry: false, carry: false })
        },
        AluOp::OR => {
            let res = a | op2;
            (res, Flags { zero: res == 0, subtraction: false, half_carry: false, carry: false })
        },
        AluOp::CP => {
            let (res, _, of) = sub8(a, op2, false);
            (a, Flags { zero: res == 0, subtraction: true, half_carry: bit_4_borrow(a, op2), carry: of })
        },
    };
    cpu.regs = Registers { a: res, f, ..regs };
}

proof fn lemma_shift_bits(v: u8)
    by (bit_vector)
    ensures
        ((v << 1) >> 0u8) & 1 == 0,
        ((v << 1) >> 1u8) & 1 == (v >> 0u8) & 1,
        ((v << 1) >> 2u8) & 1 == (v >> 1u8) & 1,
        ((v << 1) >> 3u8) & 1 == (v >> 2u8) & 1,
        ((v << 1) >> 4u8) & 1 == (v >> 3u8) & 1,
        ((v << 1) >> 5u8) & 1 == (v >> 4u8) & 1,
        ((v << 1) >> 6u8) & 1 == (v >> 5u8) & 1,
        ((v << 1) >> 7u8) & 1 == (v >> 6u8) & 1,
        ((v >> 1) >> 0u8) & 1 == (v >> 1u8) & 1,
        ((v >> 1) >> 1u8) & 1 == (v >> 2u8) & 1,
        ((v >> 1) >> 2u8) & 1 == (v >> 3u8) & 1,
        ((v >> 1) >> 3u8) & 1 == (v >> 4u8) & 1,
        ((v >> 1) >> 4u8) & 1 == (v >> 5u8) & 1,
        ((v >> 1) >> 5u8) & 1 == (v >> 6u8) & 1,
        ((v >> 1) >> 6u8) & 1 == (v >> 7u8) & 1,
        ((v >> 1) >> 7u8) & 1 == 0,
        (v % 16) * 16 + v / 16 < 256,
{
}

proof fn lemma_nibble_bits(v: u8, w: u8)
    by (bit_vector)
    requires
        w == (v % 16) * 16 + v / 16,
    ensures
        (w >> 0u8) & 1 == (v >> 4u8) & 1,
        (w >> 1u8) & 1 == (v >> 5u8) & 1,
        (w >> 2u8) & 1 == (v >> 6u8) & 1,
        (w >> 3u8) & 1 == (v >> 7u8) & 1,
        (w >> 4u8) & 1 == (v >> 0u8) & 1,
        (w >> 5u8) & 1 == (v >> 1u8) & 1,
        (w >> 6u8) & 1 == (v >> 2u8) & 1,
        (w >> 7u8) & 1 == (v >> 3u8) & 1,
{
}

/// Performs a rotate or shift: the result and the bit that leaves.
pub fn perform_sr8(cpu: &CPU, operation: SrOp, value: u8) -> (r: (u8, bool))
    ensures
        r == sr8(cpu.regs.f.carry, operation, value),
{
    proof {
        lemma_shift_bits(value);
    }
    let carry = cpu.regs.f.carry;
    let left = value << 1;
    let right = value >> 1;
    let b7 = get_nth_bit(value, 7);
    let b0 = get_nth_bit(value, 0);
    let r = match operation {
        SrOp::RLC => (nth_bit_to(left, 0, b7), b7),
        SrOp::RRC => (nth_bit_to(right, 7, b0), b0),
        SrOp::RL => (nth_bit_to(left, 0, carry), b7),
        SrOp::RR => (nth_bit_to(right, 7, carry), b0),
        SrOp::SLA => (left, b7),
        SrOp::SRA => (nth_bit_to(right, 7, b7), b0),
        SrOp::SWAP => {
            let w = swap_nibbles(value);
            proof {
                lemma_nibble_bits(value, w);
            }
            (w, false)
        },
        SrOp::SRL => (right, b0),
    };
    proof {
        lemma_byte_of_bits(r.0);
    }
    r
}

/// `A` rotated, with the flags `0 0 0 C`.
fn rotate_acc(cpu: &CPU, operation: SrOp) -> (r: Registers)
    ensures
        r == (Registers {
            a: sr8(cpu.regs.f.carry, operation, cpu.regs.a).0,
            f: Flags {
                zero: false,
                subtraction: false,
                half_carry: false,
                carry: sr8(cpu.regs.f.carry, operation, cpu.regs.a).1,
            },
            ..cpu.regs
        }),
{
    let (new_value, out) = perform_sr8(cpu, operation, cpu.regs.a);
    Registers {
        a: new_value,
        f: Flags { zero: false, subtraction: false, half_carry: false, carry: out },
        ..cpu.regs
    }
}

/// The decimal adjust of `A`: the new `A` and the new carry.
fn decimal_adjust(f: Flags, a: u8) -> (r: (u8, bool))
    ensures
        r == daa(f, a),
{
    let mut value = a;
    let mut carry = f.carry;
    if !f.subtraction {
        if f.carry || value > 0x99 {
            value = add8(value, 0x60, false).0;
            carry = true;
        }
        if f.half_carry || (value & 0x0f) > 0x09 {
            value = add8(value, 0x06, false).0;
        }
    } else {
        if f.carry {
            value = sub8(value, 0x60, false).0;
        }
        if f.half_carry {
            value = sub8(value, 0x06, false).0;
        }
    }
    (value, carry)
}

/// Performs an operation on the accumulator and the flags.
pub fn perform_acc_flag(cpu: &mut CPU, operation: AccFlagOp)
    ensures
        *final(cpu) == old(cpu).with_regs(acc_flag(old(cpu).regs, operation)),
{
    let regs = cpu.regs;
    let f = regs.f;
    let new_regs = match operation {
        AccFlagOp::RLCA => rotate_acc(cpu, SrOp::RLC),
        AccFlagOp::RRCA => rotate_acc(cpu, SrOp::RRC),
        AccFlagOp::RLA => rotate_acc(cpu, SrOp::RL),
        AccFlagOp::RRA => rotate_acc(cpu, SrOp::RR),
        AccFlagOp::DAA => {
            let (value, carry) = decimal_adjust(f, regs.a);
            Registers { a: value, f: Flags { zero: value == 0, half_carry: false, carry, ..f }, ..regs }
        },
        AccFlagOp::CPL => Registers { a: !regs.a, f: Flags { subtraction: true, half_carry: true, ..f }, ..regs },
        AccFlagOp::SCF => Registers { f: Flags { subtraction: false, half_carry: false, carry: true, ..f }, ..regs },
        AccFlagOp::CCF => Registers {
            f: Flags { subtraction: false, half_carry: false, carry: !f.carry, ..f },
            ..regs
        },
    };
    cpu.regs = new_regs;
}

/// The T-cycles of an instruction on an 8-bit operand: more when the operand
/// is the byte at `(HL)`.
pub open spec fn cost(r: R8, plain: u64, indirect: u64) -> u64 {
    if r == R8::HL {
        indirect
    } else {
        plain
    }
}

/// `INC` of an 8-bit operand: flags `Z 0 H -`.
pub open spec fn inc8(cpu: CPU, mmu: MmuView, r: R8) -> (CPU, MmuView) {
    let v = r8_value(cpu, mmu, r);
    let nv = wrap8(v + 1);
    let (c, m) = r8_written(cpu, mmu, r, nv);
    (c.with_flags(Flags { zero: nv == 0, subtraction: false, half_carry: half_carry_add8(v, 1), ..c.regs.f }), m)
}

/// `DEC` of an 8-bit operand: flags `Z 1 H -`.
pub open spec fn dec8(cpu: CPU, mmu: MmuView, r: R8) -> (CPU, MmuView) {
    let v = r8_value(cpu, mmu, r);
    let nv = wrap8(v - 1);
    let (c, m) = r8_written(cpu, mmu, r, nv);
    (c.with_flags(Flags { zero: nv == 0, subtraction: true, half_carry: half_borrow_sub8(v, 1), ..c.regs.f }), m)
}

/// `ADD HL,rr`: flags `- 0 H C`, with the carries out of bit 11 and bit 15.
pub open spec fn add_hl(cpu: CPU, v: u16) -> CPU {
    let hl = cpu.regs.hl();
    cpu.with_regs(cpu.regs.with_hl(wrap16(hl + v))).with_flags(
        Flags { subtraction: false, half_carry: half_carry_add16(hl, v), carry: hl + v > 0xffff, ..cpu.regs.f },
    )
}

/// `SP` moved by a signed displacement, and the flags `0 0 H C` that go with
/// it: the carries out of bit 3 and bit 7 of the low byte of `SP` plus the
/// displacement taken as unsigned.
pub open spec fn sp_plus(cpu: CPU, e: u8) -> (u16, Flags) {
    (
        wrap16(cpu.sp.0 + signed8(e)),
        Flags {
            zero: false,
            subtraction: false,
            half_carry: half_carry_add8(low_byte(cpu.sp.0), e),
            carry: low_byte(cpu.sp.0) + e > 0xff,
        },
    )
}

/// The CPU after a call to `target`: `PC` is pushed, then replaced.
pub open spec fn called(cpu: CPU, mmu: MmuView, target: u16) -> (CPU, MmuView) {
    let (c, m) = cpu.pushed(mmu, cpu.pc.0);
    (c.jump(target), m)
}

/// The CPU after a return: `PC` is popped.
pub open spec fn returned(cpu: CPU, mmu: MmuView) -> CPU {
    cpu.popped().jump(cpu.top(mmu))
}

/// Opcodes 0x00 to 0x3f with `z = 0`: `NOP`, `LD (nn),SP`, `STOP`, `JR`.
pub open spec fn exec_x0z0(op: u8, cpu: CPU, mmu: MmuView) -> (CPU, MmuView, Option<u64>) {
    let y = y_of(op);
    if y == 0 || y == 2 {
        (cpu, mmu, Some(4))
    } else if y == 1 {
        (cpu.skip(2), mmu.write16(cpu.imm16(mmu), cpu.sp.0), Some(20))
    } else if y == 3 || Condition::of((y - 4) as u8).holds(cpu.regs.f) {
        (cpu.skip(1).skip(signed8(cpu.imm8(mmu))), mmu, Some(12))
    } else {
        (cpu.skip(1), mmu, Some(8))
    }
}

/// Opcodes 0x00 to 0x3f with `z = 1`: `LD rr,nn` and `ADD HL,rr`.
pub open spec fn exec_x0z1(op: u8, cpu: CPU, mmu: MmuView) -> (CPU, MmuView, Option<u64>) {
    let reg = R16G1::of(p_of(op));
    if q_of(op) == 0 {
        (r16g1_written(cpu.skip(2), reg, cpu.imm16(mmu)), mmu, Some(12))
    } else {
        (add_hl(cpu, r16g1_value(cpu, reg)), mmu, Some(8))
    }
}

/// Opcodes 0x00 to 0x3f with `z = 2`: `LD (rr),A` and `LD A,(rr)`.
pub open spec fn exec_x0z2(op: u8, cpu: CPU, mmu: MmuView) -> (CPU, MmuView, Option<u64>) {
    let (c, addr) = r16g2_addr(cpu, R16G2::of(p_of(op)));
    if q_of(op) == 0 {
        (c, mmu.write(addr, cpu.regs.a), Some(8))
    } else {
        (c.with_regs(Registers { a: mmu.read(addr), ..c.regs }), mmu, Some(8))
    }
}

/// Opcodes 0x00 to 0x3f with `z = 3`: `INC rr` and `DEC rr`.
pub open spec fn exec_x0z3(op: u8, cpu: CPU, mmu: MmuView) -> (CPU, MmuView, Option<u64>) {
    let reg = R16G1::of(p_of(op));
    let v = r16g1_value(cpu, reg);
    if q_of(op) == 0 {
        (r16g1_written(cpu, reg, wrap16(v + 1)), mmu, Some(8))
    } else {
        (r16g1_written(cpu, reg, wrap16(v - 1)), mmu, Some(8))
    }
}

/// Opcodes 0x00 to 0x3f.
pub open spec fn exec_x0(op: u8, cpu: CPU, mmu: MmuView) -> (CPU, MmuView, Option<u64>) {
    let z = z_of(op);
    let r = R8::of(y_of(op));
    if z == 0 {
        exec_x0z0(op, cpu, mmu)
    } else if z == 1 {
        exec_x0z1(op, cpu, mmu)
    } else if z == 2 {
        exec_x0z2(op, cpu, mmu)
    } else if z == 3 {
        exec_x0z3(op, cpu, mmu)
    } else if z == 4 {
        (inc8(cpu, mmu, r).0, inc8(cpu, mmu, r).1, Some(cost(r, 4, 12)))
    } else if z == 5 {
        (dec8(cpu, mmu, r).0, dec8(cpu, mmu, r).1, Some(cost(r, 4, 12)))
    } else if z == 6 {
        let w = r8_written(cpu.skip(1), mmu, r, cpu.imm8(mmu));
        (w.0, w.1, Some(cost(r, 8, 12)))
    } else {
        (cpu.with_regs(acc_flag(cpu.regs, AccFlagOp::of(y_of(op)))), mmu, Some(4))
    }
}

/// Opcodes 0x40 to 0x7f: `LD r,r'`, and `HALT` in the place of
/// `LD (HL),(HL)`.
pub open spec fn exec_x1(op: u8, cpu: CPU, mmu: MmuView) -> (CPU, MmuView, Option<u64>) {
    let src = R8::of(z_of(op));
    let dst = R8::of(y_of(op));
    if op == 0x76 {
        (CPU { halted: true, ..cpu }, mmu, Some(4))
    } else {
        let w = r8_written(cpu, mmu, dst, r8_value(cpu, mmu, src));
        (w.0, w.1, Some(if src == R8::HL || dst == R8::HL {
            8
        } else {
            4
        }))
    }
}

/// Opcodes 0x80 to 0xbf: the ALU on `A` and an 8-bit operand.
pub open spec fn exec_x2(op: u8, cpu: CPU, mmu: MmuView) -> (CPU, MmuView, Option<u64>) {
    let src = R8::of(z_of(op));
    (cpu.with_regs(alu8(cpu.regs, AluOp::of(y_of(op)), r8_value(cpu, mmu, src))), mmu, Some(cost(src, 4, 8)))
}

/// Opcodes 0xc0 to 0xff with `z = 0`: `RET cc`, `LDH`, `ADD SP,e`,
/// `LD HL,SP+e`.
pub open spec fn exec_x3z0(op: u8, cpu: CPU, mmu: MmuView) -> (CPU, MmuView, Option<u64>) {
    let y = y_of(op);
    let n = cpu.imm8(mmu);
    if y < 4 {
        if Condition::of(y).holds(cpu.regs.f) {
            (returned(cpu, mmu), mmu, Some(20))
        } else {
            (cpu, mmu, Some(8))
        }
    } else if y == 4 {
        (cpu.skip(1), mmu.write((0xff00 + n) as u16, cpu.regs.a), Some(12))
    } else if y == 5 {
        (CPU { sp: Addr(sp_plus(cpu, n).0), ..cpu.skip(1) }.with_flags(sp_plus(cpu, n).1), mmu, Some(16))
    } else if y == 6 {
        (cpu.skip(1).with_regs(Registers { a: mmu.read((0xff00 + n) as u16), ..cpu.regs }), mmu, Some(12))
    } else {
        (
            cpu.skip(1).with_regs(cpu.regs.with_hl(sp_plus(cpu, n).0)).with_flags(sp_plus(cpu, n).1),
            mmu,
            Some(12),
        )
    }
}

/// Opcodes 0xc0 to 0xff with `z = 1`: `POP`, `RET`, `RETI`, `JP HL`,
/// `LD SP,HL`.
pub open spec fn exec_x3z1(op: u8, cpu: CPU, mmu: MmuView) -> (CPU, MmuView, Option<u64>) {
    let p = p_of(op);
    if q_of(op) == 0 {
        (r16g3_written(cpu.popped(), R16G3::of(p), cpu.top(mmu)), mmu, Some(12))
    } else if p == 0 {
        (returned(cpu, mmu), mmu, Some(16))
    } else if p == 1 {
        (CPU { ime: IMEState::Enabled, ..returned(cpu, mmu) }, mmu, Some(16))
    } else if p == 2 {
        (cpu.jump(cpu.regs.hl()), mmu, Some(4))
    } else {
        (CPU { sp: Addr(cpu.regs.hl()), ..cpu }, mmu, Some(8))
    }
}

/// Opcodes 0xc0 to 0xff with `z = 2`: `JP cc,nn` and the loads between `A`
/// and `(C)` or `(nn)`.
pub open spec fn exec_x3z2(op: u8, cpu: CPU, mmu: MmuView) -> (CPU, MmuView, Option<u64>) {
    let y = y_of(op);
    let nn = cpu.imm16(mmu);
    let high = (0xff00 + cpu.regs.c) as u16;
    if y < 4 {
        if Condition::of(y).holds(cpu.regs.f) {
            (cpu.jump(nn), mmu, Some(16))
        } else {
            (cpu.skip(2), mmu, Some(12))
        }
    } else if y == 4 {
        (cpu, mmu.write(high, cpu.regs.a), Some(8))
    } else if y == 5 {
        (cpu.skip(2), mmu.write(nn, cpu.regs.a), Some(16))
    } else if y == 6 {
        (cpu.with_regs(Registers { a: mmu.read(high), ..cpu.regs }), mmu, Some(8))
    } else {
        (cpu.skip(2).with_regs(Registers { a: mmu.read(nn), ..cpu.regs }), mmu, Some(16))
    }
}

/// Opcodes 0xc0 to 0xff with `z = 3`: `JP nn`, `DI`, `EI`; the other five
/// name no instruction. `DI` disables interrupts at once; `EI` starts the
/// delayed enable, unless the latch is already on its way.
pub open spec fn exec_x3z3(op: u8, cpu: CPU, mmu: MmuView) -> (CPU, MmuView, Option<u64>) {
    let y = y_of(op);
    if y == 0 {
        (cpu.jump(cpu.imm16(mmu)), mmu, Some(16))
    } else if y == 6 {
        (CPU { ime: IMEState::Disabled, ..cpu }, mmu, Some(4))
    } else if y == 7 {
        (
            CPU {
                ime: if cpu.ime == IMEState::Disabled {
                    IMEState::EnablePending1
                } else {
                    cpu.ime
                },
                ..cpu
            },
            mmu,
            Some(4),
        )
    } else {
        (cpu, mmu, None)
    }
}

/// Opcodes 0xc0 to 0xff with `z = 4`: `CALL cc,nn`; the other four name no
/// instruction.
pub open spec fn exec_x3z4(op: u8, cpu: CPU, mmu: MmuView) -> (CPU, MmuView, Option<u64>) {
    let y = y_of(op);
    if y < 4 {
        if Condition::of(y).holds(cpu.regs.f) {
            let w = called(cpu.skip(2), mmu, cpu.imm16(mmu));
            (w.0, w.1, Some(24))
        } else {
            (cpu.skip(2), mmu, Some(12))
        }
    } else {
        (cpu, mmu, None)
    }
}

/// Opcodes 0xc0 to 0xff with `z = 5`: `PUSH` and `CALL nn`; the other three
/// name no instruction.
pub open spec fn exec_x3z5(op: u8, cpu: CPU, mmu: MmuView) -> (CPU, MmuView, Option<u64>) {
    let p = p_of(op);
    if q_of(op) == 0 {
        let w = cpu.pushed(mmu, r16g3_value(cpu, R16G3::of(p)));
        (w.0, w.1, Some(16))
    } else if p == 0 {
        let w = called(cpu.skip(2), mmu, cpu.imm16(mmu));
        (w.0, w.1, Some(24))
    } else {
        (cpu, mmu, None)
    }
}

/// Opcodes 0xc0 to 0xff.
pub open spec fn exec_x3(op: u8, cpu: CPU, mmu: MmuView) -> (CPU, MmuView, Option<u64>) {
    let z = z_of(op);
    if z == 0 {
        exec_x3z0(op, cpu, mmu)
    } else if z == 1 {
        exec_x3z1(op, cpu, mmu)
    } else if z == 2 {
        exec_x3z2(op, cpu, mmu)
    } else if z == 3 {
        exec_x3z3(op, cpu, mmu)
    } else if z == 4 {
        exec_x3z4(op, cpu, mmu)
    } else if z == 5 {
        exec_x3z5(op, cpu, mmu)
    } else if z == 6 {
        (cpu.skip(1).with_regs(alu8(cpu.regs, AluOp::of(y_of(op)), cpu.imm8(mmu))), mmu, Some(8))
    } else {
        let w = called(cpu, mmu, (8 * y_of(op)) as u16);
        (w.0, w.1, Some(16))
    }
}

/// The opcodes behind the prefix 0xcb: rotates and shifts (flags `Z 0 0 C`),
/// `BIT` (flags `Z 0 1 -`), `RES` and `SET`.
pub open spec fn exec_cb(op: u8, cpu: CPU, mmu: MmuView) -> (CPU, MmuView, Option<u64>) {
    let r = R8::of(z_of(op));
    let y = y_of(op);
    let v = r8_value(cpu, mmu, r);
    if op < 0x40 {
        let (res, carry) = sr8(cpu.regs.f.carry, SrOp::of(y), v);
        let w = r8_written(cpu, mmu, r, res);
        (
            w.0.with_flags(Flags { zero: res == 0, subtraction: false, half_carry: false, carry }),
            w.1,
            Some(cost(r, 8, 16)),
        )
    } else if op < 0x80 {
        (
            cpu.with_flags(Flags { zero: !nth_bit(v, y), subtraction: false, half_carry: true, ..cpu.regs.f }),
            mmu,
            Some(cost(r, 8, 12)),
        )
    } else if op < 0xc0 {
        let w = r8_written(cpu, mmu, r, clear_nth(v, y));
        (w.0, w.1, Some(cost(r, 8, 16)))
    } else {
        let w = r8_written(cpu, mmu, r, set_nth(v, y));
        (w.0, w.1, Some(cost(r, 8, 16)))
    }
}

/// What an instruction does, given the CPU with `PC` behind the opcode: the
/// CPU and the memory after it, and the T-cycles it takes. An opcode that
/// names no instruction changes nothing and takes no time.
#[verifier::opaque]
pub open spec fn execute(opcode: u16, cpu: CPU, mmu: MmuView) -> (CPU, MmuView, Option<u64>) {
    if opcode < 0x40 {
        exec_x0(opcode as u8, cpu, mmu)
    } else if opcode < 0x80 {
        exec_x1(opcode as u8, cpu, mmu)
    } else if opcode < 0xc0 {
        exec_x2(opcode as u8, cpu, mmu)
    } else if opcode < 0x100 {
        exec_x3(opcode as u8, cpu, mmu)
    } else if 0xcb00 <= opcode <= 0xcbff {
        exec_cb((opcode - 0xcb00) as u8, cpu, mmu)
    } else {
        (cpu, mmu, None)
    }
}

/// Executes an instruction, `PC` standing behind its opcode. Gives the
/// T-cycles it took, or nothing for an opcode that names no instruction.
pub fn decode(opcode: u16, cpu: &mut CPU, mmu: &mut MMU) -> (r: Option<u64>)
    requires
        old(mmu).wf(),
    ensures
        (*final(cpu), final(mmu)@, r) == execute(opcode, *old(cpu), old(mmu)@),
        r is None ==> *final(cpu) == *old(cpu) && final(mmu)@ == old(mmu)@,
        final(mmu).wf(),
{
    reveal(execute);
    if opcode < 0x40 {
        Some(decode_x0(opcode as u8, cpu, mmu))
    } else if opcode < 0x80 {
        Some(ld_r8_r8(opcode as u8, cpu, mmu))
    } else if opcode < 0xc0 {
        Some(alu_r8(opcode as u8, cpu, mmu))
    } else if opcode < 0x100 {
        decode_x3(opcode as u8, cpu, mmu)
    } else if opcode >= 0xcb00 && opcode <= 0xcbff {
        Some(decode_cb((opcode - 0xcb00) as u8, cpu, mmu))
    } else {
        None
    }
}

fn decode_x0(op: u8, cpu: &mut CPU, mmu: &mut MMU) -> (r: u64)
    requires
        old(mmu).wf(),
        op < 0x40,
    ensures
        (*final(cpu), final(mmu)@, Some(r)) == exec_x0(op, *old(cpu), old(mmu)@),
        final(mmu).wf(),
{
    let z = get_z(op);
    if z == 0 {
        control_x0(op, cpu, mmu)
    } else if z == 1 {
        if get_q(op) == 0 {
            ld_r16_u16(op, cpu, mmu)
        } else {
            add_hl_r16(op, cpu)
        }
    } else if z == 2 {
        ld_r16g2(op, cpu, mmu)
    } else if z == 3 {
        inc_dec_r16(op, cpu)
    } else if z == 4 {
        inc_r8(op, cpu, mmu)
    } else if z == 5 {
        dec_r8(op, cpu, mmu)
    } else if z == 6 {
        ld_r8_u8(op, cpu, mmu)
    } else {
        let operation = AccFlagOp::try_from(get_y(op)).unwrap();
        perform_acc_flag(cpu, operation);
        4
    }
}

proof fn lemma_q(op: u8)
    by (bit_vector)
    ensures
        (op & 0x08 == 0) == ((op / 8) % 2 == 0),
{
}

/// Bit 3 of an opcode.
fn get_q(op: u8) -> (r: u8)
    ensures
        r == q_of(op),
        r < 2,
{
    proof {
        lemma_q(op);
    }
    if op & 0x08 == 0 {
        0
    } else {
        1
    }
}

/// `NOP`, `LD (nn),SP`, `STOP`, `JR e` and `JR cc,e`.
fn control_x0(op: u8, cpu: &mut CPU, mmu: &mut MMU) -> (r: u64)
    requires
        old(mmu).wf(),
        op < 0x40,
        z_of(op) == 0,
    ensures
        (*final(cpu), final(mmu)@, Some(r)) == exec_x0z0(op, *old(cpu), old(mmu)@),
        final(mmu).wf(),
{
    let y = get_y(op);
    if y == 0 || y == 2 {
        return 4;
    }
    if y == 1 {
        let target = Addr::from(cpu.readu16(mmu));
        let value = cpu.sp.value();
        mmu.writeu16(target, value);
        return 20;
    }
    let taken = if y == 3 {
        true
    } else {
        let condition = Condition::try_from(y - 4).unwrap();
        check_condition(cpu, condition)
    };
    let jmp = cpu.readu8(mmu);
    if taken {
        cpu.pc = cpu.pc.offset_signed(jmp);
        12
    } else {
        8
    }
}

/// `LD rr,nn`.
fn ld_r16_u16(op: u8, cpu: &mut CPU, mmu: &mut MMU) -> (r: u64)
    requires
        old(mmu).wf(),
        q_of(op) == 0,
    ensures
        (*final(cpu), final(mmu)@, Some(r)) == exec_x0z1(op, *old(cpu), old(mmu)@),
        final(mmu).wf(),
{
    let val = cpu.readu16(mmu);
    let dst = R16G1::try_from(get_p(op)).unwrap();
    write_to_r16_group1(cpu, dst, val);
    12
}

/// `ADD HL,rr`.
fn add_hl_r16(op: u8, cpu: &mut CPU) -> (r: u64)
    requires
        q_of(op) == 1,
    ensures
        *final(cpu) == add_hl(*old(cpu), r16g1_value(*old(cpu), R16G1::of(p_of(op)))),
        r == 8,
{
    let src = R16G1::try_from(get_p(op)).unwrap();
    let val1 = read_from_r16_group1(cpu, src);
    let val2 = read_from_r16_group1(cpu, R16G1::HL);
    let sum: u32 = val1 as u32 + val2 as u32;
    let half = bit_11_overflow(val2, val1);
    write_to_r16_group1(cpu, R16G1::HL, (sum % 0x1_0000) as u16);
    let f = cpu.regs.f;
    cpu.set_flags(Flags { subtraction: false, half_carry: half, carry: sum > 0xffff, ..f });
    8
}

/// `LD (rr),A` and `LD A,(rr)`.
fn ld_r16g2(op: u8, cpu: &mut CPU, mmu: &mut MMU) -> (r: u64)
    requires
        old(mmu).wf(),
    ensures
        (*final(cpu), final(mmu)@, Some(r)) == exec_x0z2(op, *old(cpu), old(mmu)@),
        final(mmu).wf(),
{
    if get_q(op) == 0 {
        let a = cpu.regs.get_a();
        write_to_r16_group2(cpu, mmu, op, a);
        8
    } else {
        let v = read_from_r16_group2(cpu, mmu, op);
        cpu.set_a(v);
        8
    }
}

/// `INC rr` and `DEC rr`.
fn inc_dec_r16(op: u8, cpu: &mut CPU) -> (r: u64)
    ensures
        q_of(op) == 0 ==> *final(cpu) == r16g1_written(
            *old(cpu),
            R16G1::of(p_of(op)),
            wrap16(r16g1_value(*old(cpu), R16G1::of(p_of(op))) + 1),
        ),
        q_of(op) != 0 ==> *final(cpu) == r16g1_written(
            *old(cpu),
            R16G1::of(p_of(op)),
            wrap16(r16g1_value(*old(cpu), R16G1::of(p_of(op))) - 1),
        ),
        r == 8,
{
    let reg = R16G1::try_from(get_p(op)).unwrap();
    let val = read_from_r16_group1(cpu, reg);
    let up = get_q(op) == 0;
    let new_val: u16 = if up {
        if val == 0xffff {
            0
        } else {
            val + 1
        }
    } else {
        if val == 0 {
            0xffff
        } else {
            val - 1
        }
    };
    write_to_r16_group1(cpu, reg, new_val);
    8
}

/// `INC r`.
fn inc_r8(op: u8, cpu: &mut CPU, mmu: &mut MMU) -> (r: u64)
    requires
        old(mmu).wf(),
    ensures
        (*final(cpu), final(mmu)@) == inc8(*old(cpu), old(mmu)@, R8::of(y_of(op))),
        r == cost(R8::of(y_of(op)), 4, 12),
        final(mmu).wf(),
{
    let (target, is_hl) = get_r8_reg(get_y(op));
    let value = read_from_r8(cpu, mmu, target);
    let new_value = add8(value, 1, false).0;
    write_to_r8(cpu, mmu, target, new_value);
    let f = cpu.regs.f;
    cpu.set_flags(Flags { zero: new_value == 0, subtraction: false, half_carry: bit_3_overflow(value, 1), ..f });
    if is_hl {
        12
    } else {
        4
    }
}

/// `DEC r`.
fn dec_r8(op: u8, cpu: &mut CPU, mmu: &mut MMU) -> (r: u64)
    requires
        old(mmu).wf(),
    ensures
        (*final(cpu), final(mmu)@) == dec8(*old(cpu), old(mmu)@, R8::of(y_of(op))),
        r == cost(R8::of(y_of(op)), 4, 12),
        final(mmu).wf(),
{
    let (target, is_hl) = get_r8_reg(get_y(op));
    let value = read_from_r8(cpu, mmu, target);
    let new_value = sub8(value, 1, false).0;
    write_to_r8(cpu, mmu, target, new_value);
    let f = cpu.regs.f;
    cpu.set_flags(Flags { zero: new_value == 0, subtraction: true, half_carry: bit_4_borrow(value, 1), ..f });
    if is_hl {
        12
    } else {
        4
    }
}

/// `LD r,n`.
fn ld_r8_u8(op: u8, cpu: &mut CPU, mmu: &mut MMU) -> (r: u64)
    requires
        old(mmu).wf(),
    ensures
        (*final(cpu), final(mmu)@) == r8_written(
            old(cpu).skip(1),
            old(mmu)@,
            R8::of(y_of(op)),
            old(cpu).imm8(old(mmu)@),
        ),
        r == cost(R8::of(y_of(op)), 8, 12),
        final(mmu).wf(),
{
    let v = cpu.readu8(mmu);
    let (dst, is_hl) = get_r8_reg(get_y(op));
    write_to_r8(cpu, mmu, dst, v);
    if is_hl {
        12
    } else {
        8
    }
}

/// `LD r,r'` and `HALT`.
fn ld_r8_r8(op: u8, cpu: &mut CPU, mmu: &mut MMU) -> (r: u64)
    requires
        old(mmu).wf(),
        0x40 <= op < 0x80,
    ensures
        (*final(cpu), final(mmu)@, Some(r)) == exec_x1(op, *old(cpu), old(mmu)@),
        final(mmu).wf(),
{
    if op == 0x76 {
        cpu.halted = true;
        return 4;
    }
    let (src, is_hl_src) = get_r8_reg(get_z(op));
    let v = read_from_r8(cpu, mmu, src);
    let (dst, is_hl_dst) = get_r8_reg(get_y(op));
    write_to_r8(cpu, mmu, dst, v);
    if is_hl_src || is_hl_dst {
        8
    } else {
        4
    }
}

/// The ALU on `A` and an 8-bit operand.
fn alu_r8(op: u8, cpu: &mut CPU, mmu: &mut MMU) -> (r: u64)
    requires
        old(mmu).wf(),
    ensures
        (*final(cpu), final(mmu)@, Some(r)) == exec_x2(op, *old(cpu), old(mmu)@),
        final(mmu).wf(),
{
    let (src, is_hl) = get_r8_reg(get_z(op));
    let op2 = read_from_r8(cpu, mmu, src);
    let operation = AluOp::try_from(get_y(op)).unwrap();
    perform_alu8(cpu, operation, op2);
    if is_hl {
        8
    } else {
        4
    }
}

fn decode_x3(op: u8, cpu: &mut CPU, mmu: &mut MMU) -> (r: Option<u64>)
    requires
        old(mmu).wf(),
        op >= 0xc0,
    ensures
        (*final(cpu), final(mmu)@, r) == exec_x3(op, *old(cpu), old(mmu)@),
        r is None ==> *final(cpu) == *old(cpu) && final(mmu)@ == old(mmu)@,
        final(mmu).wf(),
{
    let z = get_z(op);
    if z == 0 {
        Some(misc_x3(op, cpu, mmu))
    } else if z == 1 {
        Some(pop_ret(op, cpu, mmu))
    } else if z == 2 {
        Some(jp_ld(op, cpu, mmu))
    } else if z == 3 {
        jp_di_ei(op, cpu, mmu)
    } else if z == 4 {
        call_cc(op, cpu, mmu)
    } else if z == 5 {
        push_call(op, cpu, mmu)
    } else if z == 6 {
        let op2 = cpu.readu8(mmu);
        let operation = AluOp::try_from(get_y(op)).unwrap();
        perform_alu8(cpu, operation, op2);
        Some(8)
    } else {
        let vec = 8 * (get_y(op) as u16);
        call(cpu, mmu, vec);
        Some(16)
    }
}

/// Pushes `PC` and jumps.
fn call(cpu: &mut CPU, mmu: &mut MMU, target: u16)
    requires
        old(mmu).wf(),
    ensures
        (*final(cpu), final(mmu)@) == called(*old(cpu), old(mmu)@, target),
        final(mmu).wf(),
{
    let pc = cpu.pc.value();
    cpu.push_stack(mmu, pc);
    cpu.pc = Addr::from(target);
}

/// Pops `PC`.
fn ret(cpu: &mut CPU, mmu: &MMU)
    requires
        mmu.wf(),
    ensures
        *final(cpu) == returned(*old(cpu), mmu@),
{
    let ret_pc = cpu.pop_stack(mmu);
    cpu.pc = Addr::from(ret_pc);
}

/// `SP` moved by the signed displacement at `PC`, and the flags that go
/// with it.
fn add_sp(cpu: &mut CPU, mmu: &MMU) -> (r: u16)
    requires
        mmu.wf(),
    ensures
        r == sp_plus(*old(cpu), old(cpu).imm8(mmu@)).0,
        *final(cpu) == old(cpu).skip(1).with_flags(sp_plus(*old(cpu), old(cpu).imm8(mmu@)).1),
{
    let value = cpu.readu8(mmu);
    let sp = cpu.sp.value();
    let new_sp = cpu.sp.offset_signed(value);
    let (_, _, of) = add8(lsb(sp), value, false);
    cpu.set_flags(
        Flags { zero: false, subtraction: false, half_carry: bit_3_overflow(lsb(sp), value), carry: of },
    );
    new_sp.value()
}

/// `RET cc`, `LDH (n),A`, `ADD SP,e`, `LDH A,(n)` and `LD HL,SP+e`.
fn misc_x3(op: u8, cpu: &mut CPU, mmu: &mut MMU) -> (r: u64)
    requires
        old(mmu).wf(),
    ensures
        (*final(cpu), final(mmu)@, Some(r)) == exec_x3z0(op, *old(cpu), old(mmu)@),
        final(mmu).wf(),
{
    let y = get_y(op);
    if y < 4 {
        let condition = Condition::try_from(y).unwrap();
        if check_condition(cpu, condition) {
            ret(cpu, mmu);
            return 20;
        } else {
            return 8;
        }
    }
    if y == 4 {
        let value = cpu.regs.get_a();
        let addr = Addr::from(0xff00 + cpu.readu8(mmu) as u16);
        mmu.writeu8(addr, value);
        return 12;
    }
    if y == 5 {
        let new_sp = add_sp(cpu, mmu);
        cpu.sp = Addr::from(new_sp);
        return 16;
    }
    if y == 6 {
        let addr = Addr::from(0xff00 + cpu.readu8(mmu) as u16);
        let value = mmu.readu8(addr);
        cpu.set_a(value);
        return 12;
    }
    let new_value = add_sp(cpu, mmu);
    cpu.regs.set_hl(new_value);
    12
}

/// `POP rr`, `RET`, `RETI`, `JP HL` and `LD SP,HL`.
fn pop_ret(op: u8, cpu: &mut CPU, mmu: &MMU) -> (r: u64)
    requires
        mmu.wf(),
    ensures
        (*final(cpu), mmu@, Some(r)) == exec_x3z1(op, *old(cpu), mmu@),
{
    let p = get_p(op);
    if get_q(op) == 0 {
        let val = cpu.pop_stack(mmu);
        let dst = R16G3::try_from(p).unwrap();
        write_to_r16_group3(cpu, dst, val);
        return 12;
    }
    if p == 0 {
        ret(cpu, mmu);
        return 16;
    }
    if p == 1 {
        ret(cpu, mmu);
        cpu.ime = IMEState::Enabled;
        return 16;
    }
    if p == 2 {
        cpu.pc = Addr::from(cpu.regs.get_hl());
        return 4;
    }
    cpu.sp = Addr::from(cpu.regs.get_hl());
    8
}

/// `JP cc,nn`, `LD (C),A`, `LD (nn),A`, `LD A,(C)` and `LD A,(nn)`.
fn jp_ld(op: u8, cpu: &mut CPU, mmu: &mut MMU) -> (r: u64)
    requires
        old(mmu).wf(),
    ensures
        (*final(cpu), final(mmu)@, Some(r)) == exec_x3z2(op, *old(cpu), old(mmu)@),
        final(mmu).wf(),
{
    let y = get_y(op);
    if y < 4 {
        let condition = Condition::try_from(y).unwrap();
        let next_pc = cpu.readu16(mmu);
        if check_condition(cpu, condition) {
            cpu.pc = Addr::from(next_pc);
            return 16;
        } else {
            return 12;
        }
    }
    if y == 4 {
        let value = cpu.regs.get_a();
        let addr = Addr::from(0xff00 + cpu.regs.get_c() as u16);
        mmu.writeu8(addr, value);
        return 8;
    }
    if y == 5 {
        let value = cpu.regs.get_a();
        let addr = Addr::from(cpu.readu16(mmu));
        mmu.writeu8(addr, value);
        return 16;
    }
    if y == 6 {
        let addr = Addr::from(0xff00 + cpu.regs.get_c() as u16);
        let value = mmu.readu8(addr);
        cpu.set_a(value);
        return 8;
    }
    let addr = Addr::from(cpu.readu16(mmu));
    let value = mmu.readu8(addr);
    cpu.set_a(value);
    16
}

/// `JP nn`, `DI` and `EI`.
fn jp_di_ei(op: u8, cpu: &mut CPU, mmu: &MMU) -> (r: Option<u64>)
    requires
        mmu.wf(),
    ensures
        (*final(cpu), mmu@, r) == exec_x3z3(op, *old(cpu), mmu@),
        r is None ==> *final(cpu) == *old(cpu),
{
    let y = get_y(op);
    if y == 0 {
        let next_pc = cpu.readu16(mmu);
        cpu.pc = Addr::from(next_pc);
        return Some(16);
    }
    if y == 6 {
        cpu.ime = IMEState::Disabled;
        return Some(4);
    }
    if y == 7 {
        match cpu.ime {
            IMEState::Disabled => {
                cpu.ime = IMEState::EnablePending1;
            },
            _ => {},
        }
        return Some(4);
    }
    None
}

/// `CALL cc,nn`.
fn call_cc(op: u8, cpu: &mut CPU, mmu: &mut MMU) -> (r: Option<u64>)
    requires
        old(mmu).wf(),
    ensures
        (*final(cpu), final(mmu)@, r) == exec_x3z4(op, *old(cpu), old(mmu)@),
        r is None ==> *final(cpu) == *old(cpu) && final(mmu)@ == old(mmu)@,
        final(mmu).wf(),
{
    let y = get_y(op);
    if y >= 4 {
        return None;
    }
    let condition = Condition::try_from(y).unwrap();
    let next_pc = cpu.readu16(mmu);
    if check_condition(cpu, condition) {
        call(cpu, mmu, next_pc);
        Some(24)
    } else {
        Some(12)
    }
}

/// `PUSH rr` and `CALL nn`.
fn push_call(op: u8, cpu: &mut CPU, mmu: &mut MMU) -> (r: Option<u64>)
    requires
        old(mmu).wf(),
    ensures
        (*final(cpu), final(mmu)@, r) == exec_x3z5(op, *old(cpu), old(mmu)@),
        r is None ==> *final(cpu) == *old(cpu) && final(mmu)@ == old(mmu)@,
        final(mmu).wf(),
{
    let p = get_p(op);
    if get_q(op) == 0 {
        let src = R16G3::try_from(p).unwrap();
        let val = read_from_r16_group3(cpu, src);
        cpu.push_stack(mmu, val);
        return Some(16);
    }
    if p == 0 {
        let next_pc = cpu.readu16(mmu);
        call(cpu, mmu, next_pc);
        return Some(24);
    }
    None
}

/// The instructions behind the prefix 0xcb.
fn decode_cb(op: u8, cpu: &mut CPU, mmu: &mut MMU) -> (r: u64)
    requires
        old(mmu).wf(),
    ensures
        (*final(cpu), final(mmu)@, Some(r)) == exec_cb(op, *old(cpu), old(mmu)@),
        final(mmu).wf(),
{
    let (target, is_hl) = get_r8_reg(get_z(op));
    let value = read_from_r8(cpu, mmu, target);
    let y = get_y(op);
    if op < 0x40 {
        let operation = SrOp::try_from(y).unwrap();
        let (res, carry) = perform_sr8(cpu, operation, value);
        write_to_r8(cpu, mmu, target, res);
        cpu.set_flags(Flags { zero: res == 0, subtraction: false, half_carry: false, carry });
        return if is_hl {
            16
        } else {
            8
        };
    }
    if op < 0x80 {
        let res = get_nth_bit(value, y);
        let f = cpu.regs.f;
        cpu.set_flags(Flags { zero: !res, subtraction: false, half_carry: true, ..f });
        return if is_hl {
            12
        } else {
            8
        };
    }
    let res = if op < 0xc0 {
        unset_nth_bit(value, y)
    } else {
        set_nth_bit(value, y)
    };
    write_to_r8(cpu, mmu, target, res);
    if is_hl {
        16
    } else {
        8
    }
}

} // verus!
