//! What holds of the instructions.

use super::instruction::{
    called, execute, p_of, q_of, r16g1_value, r16g3_value, r16g3_written, r8_value, r_of, returned, y_of,
    z_of, AccFlagOp, AluOp, Condition, SrOp, R16G1, R16G3, R8,
};
use super::interrupts::{lemma_interrupts_unpack_pack, Interrupt};
use super::registers::{lemma_pair_read_write, lemma_pair_write_read, Flags};
use super::{ExecError, IMEState, CPU};
use crate::mmu::laws::{
    is_plain, lemma_interrupt_registers, lemma_plain_write, lemma_plain_write16,
    lemma_plain_write16_keeps_interrupts, lemma_write_keeps_wf,
};
use crate::mmu::MmuView;
use crate::util::{wrap16, Addr};
use vstd::prelude::*;

verus! {

/// What an instruction does to a flag.
#[derive(Clone, Copy, Debug, PartialEq, Eq, Structural)]
pub enum FlagEffect {
    /// The flag stays as it is.
    Keep,
    /// The flag is cleared.
    Lower,
    /// The flag is set.
    Raise,
    /// The flag is computed from the operands.
    Compute,
}

impl FlagEffect {
    /// Whether a flag before and after an instruction fits the effect.
    pub open spec fn allows(self, before: bool, after: bool) -> bool {
        match self {
            FlagEffect::Keep => after == before,
            FlagEffect::Lower => !after,
            FlagEffect::Raise => after,
            FlagEffect::Compute => true,
        }
    }
}

/// What an instruction does to the four flags.
pub struct FlagEffects {
    pub z: FlagEffect,
    pub n: FlagEffect,
    pub h: FlagEffect,
    pub c: FlagEffect,
}

impl FlagEffects {
    /// No flag changes.
    pub open spec fn none() -> FlagEffects {
        FlagEffects { z: FlagEffect::Keep, n: FlagEffect::Keep, h: FlagEffect::Keep, c: FlagEffect::Keep }
    }

    /// Whether the flags before and after an instruction fit the effects.
    pub open spec fn allow(self, before: Flags, after: Flags) -> bool {
        &&& self.z.allows(before.zero, after.zero)
        &&& self.n.allows(before.subtraction, after.subtraction)
        &&& self.h.allows(before.half_carry, after.half_carry)
        &&& self.c.allows(before.carry, after.carry)
    }
}

/// The flags of an operation of the 8-bit ALU: `Z 0 H C` for additions,
/// `Z 1 H C` for subtractions and compares, `Z 0 1 0` for `AND`, `Z 0 0 0`
/// for `XOR` and `OR`.
pub open spec fn alu_flags(op: AluOp) -> FlagEffects {
    match op {
        AluOp::ADD | AluOp::ADC => FlagEffects {
            z: FlagEffect::Compute,
            n: FlagEffect::Lower,
            h: FlagEffect::Compute,
            c: FlagEffect::Compute,
        },
        AluOp::SUB | AluOp::SBC | AluOp::CP => FlagEffects {
            z: FlagEffect::Compute,
            n: FlagEffect::Raise,
            h: FlagEffect::Compute,
            c: FlagEffect::Compute,
        },
        AluOp::AND => FlagEffects {
            z: FlagEffect::Compute,
            n: FlagEffect::Lower,
            h: FlagEffect::Raise,
            c: FlagEffect::Lower,
        },
        AluOp::XOR | AluOp::OR => FlagEffects {
            z: FlagEffect::Compute,
            n: FlagEffect::Lower,
            h: FlagEffect::Lower,
            c: FlagEffect::Lower,
        },
    }
}

/// The flags of an operation on the accumulator and the flags: `0 0 0 C` for
/// the four rotates, `Z - 0 C` for `DAA`, `- 1 1 -` for `CPL`, `- 0 0 1` for
/// `SCF` and `- 0 0 C` for `CCF`.
pub open spec fn acc_flags(op: AccFlagOp) -> FlagEffects {
    match op {
        AccFlagOp::RLCA | AccFlagOp::RRCA | AccFlagOp::RLA | AccFlagOp::RRA => FlagEffects {
            z: FlagEffect::Lower,
            n: FlagEffect::Lower,
            h: FlagEffect::Lower,
            c: FlagEffect::Compute,
        },
        AccFlagOp::DAA => FlagEffects {
            z: FlagEffect::Compute,
            n: FlagEffect::Keep,
            h: FlagEffect::Lower,
            c: FlagEffect::Compute,
        },
        AccFlagOp::CPL => FlagEffects {
            z: FlagEffect::Keep,
            n: FlagEffect::Raise,
            h: FlagEffect::Raise,
            c: FlagEffect::Keep,
        },
        AccFlagOp::SCF => FlagEffects {
            z: FlagEffect::Keep,
            n: FlagEffect::Lower,
            h: FlagEffect::Lower,
            c: FlagEffect::Raise,
        },
        AccFlagOp::CCF => FlagEffects {
            z: FlagEffect::Keep,
            n: FlagEffect::Lower,
            h: FlagEffect::Lower,
            c: FlagEffect::Compute,
        },
    }
}

/// The flags of the opcodes without prefix.
///
/// | Instruction           | Flags     |
/// |-----------------------|-----------|
/// | `INC r`               | `Z 0 H -` |
/// | `DEC r`               | `Z 1 H -` |
/// | `ADD HL,rr`           | `- 0 H C` |
/// | `ADD SP,e`            | `0 0 H C` |
/// | `LD HL,SP+e`          | `0 0 H C` |
/// | `POP AF`              | from the stack |
/// | the ALU               | see `alu_flags` |
/// | the accumulator group | see `acc_flags` |
/// | every other           | `- - - -` |
pub open spec fn plain_flags(op: u8) -> FlagEffects {
    let y = y_of(op);
    let z = z_of(op);
    if op < 0x40 {
        if z == 4 {
            FlagEffects {
                z: FlagEffect::Compute,
                n: FlagEffect::Lower,
                h: FlagEffect::Compute,
                c: FlagEffect::Keep,
            }
        } else if z == 5 {
            FlagEffects { z: FlagEffect::Compute, n: FlagEffect::Raise, h: FlagEffect::Compute, c: FlagEffect::Keep }
        } else if z == 1 && q_of(op) == 1 {
            FlagEffects {
                z: FlagEffect::Keep,
                n: FlagEffect::Lower,
                h: FlagEffect::Compute,
                c: FlagEffect::Compute,
            }
        } else if z == 7 {
            acc_flags(AccFlagOp::of(y))
        } else {
            FlagEffects::none()
        }
    } else if op < 0x80 {
        FlagEffects::none()
    } else if op < 0xc0 || z == 6 {
        alu_flags(AluOp::of(y))
    } else if op == 0xe8 || op == 0xf8 {
        FlagEffects {
            z: FlagEffect::Lower,
            n: FlagEffect::Lower,
            h: FlagEffect::Compute,
            c: FlagEffect::Compute,
        }
    } else if op == 0xf1 {
        FlagEffects {
            z: FlagEffect::Compute,
            n: FlagEffect::Compute,
            h: FlagEffect::Compute,
            c: FlagEffect::Compute,
        }
    } else {
        FlagEffects::none()
    }
}

/// The flags of the opcodes behind the prefix 0xcb: `Z 0 0 C` for rotates
/// and shifts, `Z 0 0 0` for `SWAP`, `Z 0 1 -` for `BIT`, `- - - -` for
/// `RES` and `SET`.
pub open spec fn prefixed_flags(op: u8) -> FlagEffects {
    if op < 0x40 {
        FlagEffects {
            z: FlagEffect::Compute,
            n: FlagEffect::Lower,
            h: FlagEffect::Lower,
            c: if SrOp::of(y_of(op)) == SrOp::SWAP {
                FlagEffect::Lower
            } else {
                FlagEffect::Compute
            },
        }
    } else if op < 0x80 {
        FlagEffects { z: FlagEffect::Compute, n: FlagEffect::Lower, h: FlagEffect::Raise, c: FlagEffect::Keep }
    } else {
        FlagEffects::none()
    }
}

/// What each opcode does to the flags.
pub open spec fn flag_table(opcode: u16) -> FlagEffects {
    if opcode < 0x100 {
        plain_flags(opcode as u8)
    } else if 0xcb00 <= opcode <= 0xcbff {
        prefixed_flags((opcode - 0xcb00) as u8)
    } else {
        FlagEffects::none()
    }
}

proof fn lemma_flags_x0z0(op: u8, cpu: CPU, mmu: MmuView)
    requires
        op < 0x40,
        z_of(op) == 0,
    ensures
        plain_flags(op).allow(cpu.regs.f, execute(op as u16, cpu, mmu).0.regs.f),
{
    reveal(execute);
}

proof fn lemma_flags_x0z1(op: u8, cpu: CPU, mmu: MmuView)
    requires
        op < 0x40,
        z_of(op) == 1,
    ensures
        plain_flags(op).allow(cpu.regs.f, execute(op as u16, cpu, mmu).0.regs.f),
{
    reveal(execute);
}

proof fn lemma_flags_x0z2(op: u8, cpu: CPU, mmu: MmuView)
    requires
        op < 0x40,
        z_of(op) == 2,
    ensures
        plain_flags(op).allow(cpu.regs.f, execute(op as u16, cpu, mmu).0.regs.f),
{
    reveal(execute);
}

proof fn lemma_flags_x0z3(op: u8, cpu: CPU, mmu: MmuView)
    requires
        op < 0x40,
        z_of(op) == 3,
    ensures
        plain_flags(op).allow(cpu.regs.f, execute(op as u16, cpu, mmu).0.regs.f),
{
    reveal(execute);
}

proof fn lemma_flags_x0z4(op: u8, cpu: CPU, mmu: MmuView)
    requires
        op < 0x40,
        z_of(op) == 4,
    ensures
        plain_flags(op).allow(cpu.regs.f, execute(op as u16, cpu, mmu).0.regs.f),
{
    reveal(execute);
}

proof fn lemma_flags_x0z5(op: u8, cpu: CPU, mmu: MmuView)
    requires
        op < 0x40,
        z_of(op) == 5,
    ensures
        plain_flags(op).allow(cpu.regs.f, execute(op as u16, cpu, mmu).0.regs.f),
{
    reveal(execute);
}

proof fn lemma_flags_x0z6(op: u8, cpu: CPU, mmu: MmuView)
    requires
        op < 0x40,
        z_of(op) == 6,
    ensures
        plain_flags(op).allow(cpu.regs.f, execute(op as u16, cpu, mmu).0.regs.f),
{
    reveal(execute);
}

proof fn lemma_flags_x0z7(op: u8, cpu: CPU, mmu: MmuView)
    requires
        op < 0x40,
        z_of(op) == 7,
    ensures
        plain_flags(op).allow(cpu.regs.f, execute(op as u16, cpu, mmu).0.regs.f),
{
    reveal(execute);
}

proof fn lemma_flags_x0(op: u8, cpu: CPU, mmu: MmuView)
    requires
        op < 0x40,
    ensures
        plain_flags(op).allow(cpu.regs.f, execute(op as u16, cpu, mmu).0.regs.f),
{
    let z = z_of(op);
    if z == 0 {
        lemma_flags_x0z0(op, cpu, mmu);
    } else if z == 1 {
        lemma_flags_x0z1(op, cpu, mmu);
    } else if z == 2 {
        lemma_flags_x0z2(op, cpu, mmu);
    } else if z == 3 {
        lemma_flags_x0z3(op, cpu, mmu);
    } else if z == 4 {
        lemma_flags_x0z4(op, cpu, mmu);
    } else if z == 5 {
        lemma_flags_x0z5(op, cpu, mmu);
    } else if z == 6 {
        lemma_flags_x0z6(op, cpu, mmu);
    } else {
        lemma_flags_x0z7(op, cpu, mmu);
    }
}

proof fn lemma_flags_x1(op: u8, cpu: CPU, mmu: MmuView)
    requires
        0x40 <= op < 0x80,
    ensures
        plain_flags(op).allow(cpu.regs.f, execute(op as u16, cpu, mmu).0.regs.f),
{
    reveal(execute);
}

proof fn lemma_flags_x2(op: u8, cpu: CPU, mmu: MmuView)
    requires
        0x80 <= op < 0xc0,
    ensures
        plain_flags(op).allow(cpu.regs.f, execute(op as u16, cpu, mmu).0.regs.f),
{
    reveal(execute);
}

proof fn lemma_flags_x3z0(op: u8, cpu: CPU, mmu: MmuView)
    requires
        0xc0 <= op,
        z_of(op) == 0,
    ensures
        plain_flags(op).allow(cpu.regs.f, execute(op as u16, cpu, mmu).0.regs.f),
{
    reveal(execute);
}

proof fn lemma_flags_x3z1(op: u8, cpu: CPU, mmu: MmuView)
    requires
        0xc0 <= op,
        z_of(op) == 1,
    ensures
        plain_flags(op).allow(cpu.regs.f, execute(op as u16, cpu, mmu).0.regs.f),
{
    reveal(execute);
}

proof fn lemma_flags_x3z2(op: u8, cpu: CPU, mmu: MmuView)
    requires
        0xc0 <= op,
        z_of(op) == 2,
    ensures
        plain_flags(op).allow(cpu.regs.f, execute(op as u16, cpu, mmu).0.regs.f),
{
    reveal(execute);
}

proof fn lemma_flags_x3z3(op: u8, cpu: CPU, mmu: MmuView)
    requires
        0xc0 <= op,
        z_of(op) == 3,
    ensures
        plain_flags(op).allow(cpu.regs.f, execute(op as u16, cpu, mmu).0.regs.f),
{
    reveal(execute);
}

proof fn lemma_flags_x3z4(op: u8, cpu: CPU, mmu: MmuView)
    requires
        0xc0 <= op,
        z_of(op) == 4,
    ensures
        plain_flags(op).allow(cpu.regs.f, execute(op as u16, cpu, mmu).0.regs.f),
{
    reveal(execute);
}

proof fn lemma_flags_x3z5(op: u8, cpu: CPU, mmu: MmuView)
    requires
        0xc0 <= op,
        z_of(op) == 5,
    ensures
        plain_flags(op).allow(cpu.regs.f, execute(op as u16, cpu, mmu).0.regs.f),
{
    reveal(execute);
}

proof fn lemma_flags_x3z6(op: u8, cpu: CPU, mmu: MmuView)
    requires
        0xc0 <= op,
        z_of(op) == 6,
    ensures
        plain_flags(op).allow(cpu.regs.f, execute(op as u16, cpu, mmu).0.regs.f),
{
    reveal(execute);
}

proof fn lemma_flags_x3z7(op: u8, cpu: CPU, mmu: MmuView)
    requires
        0xc0 <= op,
        z_of(op) == 7,
    ensures
        plain_flags(op).allow(cpu.regs.f, execute(op as u16, cpu, mmu).0.regs.f),
{
    reveal(execute);
}

proof fn lemma_flags_x3(op: u8, cpu: CPU, mmu: MmuView)
    requires
        0xc0 <= op,
    ensures
        plain_flags(op).allow(cpu.regs.f, execute(op as u16, cpu, mmu).0.regs.f),
{
    let z = z_of(op);
    if z == 0 {
        lemma_flags_x3z0(op, cpu, mmu);
    } else if z == 1 {
        lemma_flags_x3z1(op, cpu, mmu);
    } else if z == 2 {
        lemma_flags_x3z2(op, cpu, mmu);
    } else if z == 3 {
        lemma_flags_x3z3(op, cpu, mmu);
    } else if z == 4 {
        lemma_flags_x3z4(op, cpu, mmu);
    } else if z == 5 {
        lemma_flags_x3z5(op, cpu, mmu);
    } else if z == 6 {
        lemma_flags_x3z6(op, cpu, mmu);
    } else {
        lemma_flags_x3z7(op, cpu, mmu);
    }
}

proof fn lemma_flags_cb(op: u8, cpu: CPU, mmu: MmuView)
    ensures
        prefixed_flags(op).allow(cpu.regs.f, execute((0xcb00 + op) as u16, cpu, mmu).0.regs.f),
{
    reveal(execute);
}

/// Every instruction treats each flag as the table says: a flag that the
/// table keeps is the same before and after, one that it clears is clear
/// and one that it sets is set.
pub proof fn lemma_flags_follow_table(opcode: u16, cpu: CPU, mmu: MmuView)
    ensures
        flag_table(opcode).allow(cpu.regs.f, execute(opcode, cpu, mmu).0.regs.f),
{
    reveal(execute);
    if opcode < 0x40 {
        lemma_flags_x0(opcode as u8, cpu, mmu);
    } else if opcode < 0x80 {
        lemma_flags_x1(opcode as u8, cpu, mmu);
    } else if opcode < 0xc0 {
        lemma_flags_x2(opcode as u8, cpu, mmu);
    } else if opcode < 0x100 {
        lemma_flags_x3(opcode as u8, cpu, mmu);
    } else if 0xcb00 <= opcode <= 0xcbff {
        lemma_flags_cb((opcode - 0xcb00) as u8, cpu, mmu);
    }
}

/// Whether the two bytes below `SP` are plain memory: a value pushed there
/// can be popped again.
pub open spec fn stack_holds(sp: u16) -> bool {
    is_plain(wrap16(sp - 2)) && is_plain(wrap16(sp - 1))
}

proof fn lemma_call_shape(cpu: CPU, mmu: MmuView)
    ensures
        execute(0xcd, cpu, mmu) == (
            called(cpu.skip(2), mmu, cpu.imm16(mmu)).0,
            called(cpu.skip(2), mmu, cpu.imm16(mmu)).1,
            Some(24u64),
        ),
        execute(0xc9, cpu, mmu) == (returned(cpu, mmu), mmu, Some(16u64)),
{
    reveal(execute);
}

/// `CALL nn` and `RET`, over a stack in plain memory. After the call `SP` is
/// two lower, the two bytes at `SP` hold the address behind the call, and
/// `PC` is the operand. After a return from there `SP` is as it was and `PC`
/// is the address that was pushed.
pub proof fn lemma_call_then_ret(cpu: CPU, mmu: MmuView)
    requires
        mmu.wf(),
        stack_holds(cpu.sp.0),
    ensures
        ({
            let (c1, m1, t1) = execute(0xcd, cpu, mmu);
            let (c2, m2, t2) = execute(0xc9, c1, m1);
            &&& t1 == Some(24u64)
            &&& c1.sp.0 == wrap16(cpu.sp.0 - 2)
            &&& m1.read16(c1.sp.0) == wrap16(cpu.pc.0 + 2)
            &&& c1.pc.0 == cpu.imm16(mmu)
            &&& t2 == Some(16u64)
            &&& c2.sp.0 == cpu.sp.0
            &&& c2.pc.0 == wrap16(cpu.pc.0 + 2)
            &&& m2 == m1
        }),
{
    let sp = wrap16(cpu.sp.0 - 2);
    let back = wrap16(cpu.pc.0 + 2);
    assert(wrap16(sp + 1) == wrap16(cpu.sp.0 - 1));
    assert(wrap16(sp + 2) == cpu.sp.0);
    lemma_plain_write16(mmu, sp, back);
    lemma_call_shape(cpu, mmu);
    let (c1, m1) = called(cpu.skip(2), mmu, cpu.imm16(mmu));
    assert(c1.sp.0 == sp);
    assert(m1 == mmu.write16(sp, back));
    lemma_call_shape(c1, m1);
    assert(c1.top(m1) == back);
}

/// `CALL cc,nn` is a `NOP` of three bytes exactly when the condition fails:
/// then `PC` moves behind the operand and nothing else changes, in 12
/// T-cycles. When the condition holds, `SP` goes down by two, `PC` becomes
/// the operand and the call takes 24 T-cycles.
pub proof fn lemma_call_cc(op: u8, cpu: CPU, mmu: MmuView)
    requires
        op == 0xc4 || op == 0xcc || op == 0xd4 || op == 0xdc,
    ensures
        ({
            let taken = Condition::of(r_of(op)).holds(cpu.regs.f);
            let (c, m, t) = execute(op as u16, cpu, mmu);
            &&& !taken ==> c == cpu.skip(2) && m == mmu && t == Some(12u64)
            &&& taken ==> c.sp.0 == wrap16(cpu.sp.0 - 2) && c.pc.0 == cpu.imm16(mmu) && t == Some(24u64)
            &&& (c.sp == cpu.sp <==> !taken)
            &&& (t == Some(12u64) <==> !taken)
        }),
{
    reveal(execute);
}

proof fn lemma_pop_push_af_core(cpu: CPU, mmu: MmuView)
    requires
        mmu.wf(),
        is_plain(cpu.sp.0),
        is_plain(wrap16(cpu.sp.0 + 1)),
    ensures
        ({
            let v = mmu.read16(cpu.sp.0);
            let c1 = r16g3_written(cpu.popped(), R16G3::AF, cpu.top(mmu));
            let (c2, m2) = c1.pushed(mmu, r16g3_value(c1, R16G3::AF));
            &&& c1.regs.af() == v - v % 16
            &&& c1.sp.0 == wrap16(cpu.sp.0 + 2)
            &&& c2.sp == cpu.sp
            &&& c2.regs == c1.regs
            &&& m2.read16(cpu.sp.0) == v - v % 16
        }),
{
    let v = mmu.read16(cpu.sp.0);
    let w = (v - v % 16) as u16;
    lemma_pair_write_read(cpu.regs, v);
    assert(wrap16(wrap16(cpu.sp.0 + 2) - 2) == cpu.sp.0);
    lemma_plain_write16(mmu, cpu.sp.0, w);
}

/// `POP AF` and then `PUSH AF`, over a stack in plain memory: the value on
/// the stack comes back with its low nibble cleared, and so does `AF`; `SP`
/// is as it was.
pub proof fn lemma_pop_push_af(cpu: CPU, mmu: MmuView)
    requires
        mmu.wf(),
        is_plain(cpu.sp.0),
        is_plain(wrap16(cpu.sp.0 + 1)),
    ensures
        ({
            let v = mmu.read16(cpu.sp.0);
            let (c1, m1, t1) = execute(0xf1, cpu, mmu);
            let (c2, m2, t2) = execute(0xf5, c1, m1);
            &&& c1.regs.af() == v - v % 16
            &&& c1.sp.0 == wrap16(cpu.sp.0 + 2)
            &&& c2.sp == cpu.sp
            &&& c2.regs == c1.regs
            &&& m2.read16(cpu.sp.0) == v - v % 16
        }),
{
    lemma_pop_push_af_core(cpu, mmu);
    let c1 = r16g3_written(cpu.popped(), R16G3::AF, cpu.top(mmu));
    lemma_pop_shape(0xf1, cpu, mmu);
    lemma_push_shape(0xf5, c1, mmu);
}

proof fn lemma_push_pop_reg(reg: R16G3, cpu: CPU, mmu: MmuView)
    requires
        mmu.wf(),
        stack_holds(cpu.sp.0),
    ensures
        ({
            let (c1, m1) = cpu.pushed(mmu, r16g3_value(cpu, reg));
            &&& c1.sp.0 == wrap16(cpu.sp.0 - 2)
            &&& m1.read16(c1.sp.0) == r16g3_value(cpu, reg)
            &&& r16g3_written(c1.popped(), reg, c1.top(m1)) == cpu
        }),
{
    let sp = wrap16(cpu.sp.0 - 2);
    let v = r16g3_value(cpu, reg);
    assert(wrap16(sp + 1) == wrap16(cpu.sp.0 - 1));
    assert(wrap16(sp + 2) == cpu.sp.0);
    lemma_plain_write16(mmu, sp, v);
    lemma_pair_read_write(cpu.regs);
}

proof fn lemma_push_shape(op: u8, cpu: CPU, mmu: MmuView)
    requires
        op == 0xc5 || op == 0xd5 || op == 0xe5 || op == 0xf5,
    ensures
        execute(op as u16, cpu, mmu) == (
            cpu.pushed(mmu, r16g3_value(cpu, R16G3::of(p_of(op)))).0,
            cpu.pushed(mmu, r16g3_value(cpu, R16G3::of(p_of(op)))).1,
            Some(16u64),
        ),
{
    reveal(execute);
}

proof fn lemma_pop_shape(op: u8, cpu: CPU, mmu: MmuView)
    requires
        op == 0xc1 || op == 0xd1 || op == 0xe1 || op == 0xf1,
    ensures
        execute(op as u16, cpu, mmu) == (
            r16g3_written(cpu.popped(), R16G3::of(p_of(op)), cpu.top(mmu)),
            mmu,
            Some(12u64),
        ),
{
    reveal(execute);
}

/// `PUSH rr` and then `POP rr`, over a stack in plain memory, leave every
/// register and `SP` as they were. For `AF` this holds because the low
/// nibble of `F` is always zero.
pub proof fn lemma_push_pop(op: u8, cpu: CPU, mmu: MmuView)
    requires
        mmu.wf(),
        stack_holds(cpu.sp.0),
        op == 0xc5 || op == 0xd5 || op == 0xe5 || op == 0xf5,
    ensures
        ({
            let (c1, m1, t1) = execute(op as u16, cpu, mmu);
            let (c2, m2, t2) = execute((op - 4) as u16, c1, m1);
            &&& t1 == Some(16u64)
            &&& t2 == Some(12u64)
            &&& c1.sp.0 == wrap16(cpu.sp.0 - 2)
            &&& m1.read16(c1.sp.0) == r16g3_value(cpu, R16G3::of(p_of(op)))
            &&& c2 == cpu
            &&& m2 == m1
        }),
{
    let reg = R16G3::of(p_of(op));
    lemma_push_pop_reg(reg, cpu, mmu);
    let (c1, m1) = cpu.pushed(mmu, r16g3_value(cpu, reg));
    lemma_push_shape(op, cpu, mmu);
    lemma_pop_shape((op - 4) as u8, c1, m1);
    assert(p_of((op - 4) as u8) == p_of(op));
}

/// `LD r,r'`: afterwards the destination holds what the source held, and
/// no flag has changed. Where the destination is the byte at `(HL)`, this
/// asks for `HL` to point into plain memory.
pub proof fn lemma_ld_r8_r8(op: u8, cpu: CPU, mmu: MmuView)
    requires
        0x40 <= op < 0x80,
        op != 0x76,
        R8::of(y_of(op)) == R8::HL ==> mmu.wf() && is_plain(cpu.regs.hl()),
    ensures
        ({
            let (c, m, t) = execute(op as u16, cpu, mmu);
            &&& r8_value(c, m, R8::of(y_of(op))) == r8_value(cpu, mmu, R8::of(z_of(op)))
            &&& c.regs.f == cpu.regs.f
            &&& c.pc == cpu.pc && c.sp == cpu.sp
        }),
{
    reveal(execute);
    if R8::of(y_of(op)) == R8::HL {
        lemma_plain_write(mmu, cpu.regs.hl(), r8_value(cpu, mmu, R8::of(z_of(op))), cpu.regs.hl());
    }
}

/// `LD r,n`: afterwards the destination holds the operand, and no flag has
/// changed. Where the destination is the byte at `(HL)`, this asks for `HL`
/// to point into plain memory.
pub proof fn lemma_ld_r8_u8(op: u8, cpu: CPU, mmu: MmuView)
    requires
        op < 0x40,
        z_of(op) == 6,
        R8::of(y_of(op)) == R8::HL ==> mmu.wf() && is_plain(cpu.regs.hl()),
    ensures
        ({
            let (c, m, t) = execute(op as u16, cpu, mmu);
            &&& r8_value(c, m, R8::of(y_of(op))) == cpu.imm8(mmu)
            &&& c.regs.f == cpu.regs.f
            &&& c.pc.0 == wrap16(cpu.pc.0 + 1)
        }),
{
    reveal(execute);
    if R8::of(y_of(op)) == R8::HL {
        lemma_plain_write(mmu, cpu.regs.hl(), cpu.imm8(mmu), cpu.regs.hl());
    }
}

/// `LD rr,nn`: afterwards the register holds the operand, and no flag has
/// changed.
pub proof fn lemma_ld_r16_u16(op: u8, cpu: CPU, mmu: MmuView)
    requires
        op == 0x01 || op == 0x11 || op == 0x21 || op == 0x31,
    ensures
        ({
            let (c, m, t) = execute(op as u16, cpu, mmu);
            &&& r16g1_value(c, R16G1::of(p_of(op))) == cpu.imm16(mmu)
            &&& c.regs.f == cpu.regs.f
            &&& m == mmu
        }),
{
    reveal(execute);
    lemma_pair_write_read(cpu.regs, cpu.imm16(mmu));
}

/// The loads into `A` from memory: afterwards `A` holds the byte that stood
/// at the address, the memory is as it was and no flag has changed. The
/// address is `0xff00 + n` for `LDH A,(n)`, `0xff00 + C` for `LD A,(C)`,
/// `nn` for `LD A,(nn)`, and `BC`, `DE` or `HL` for the others.
pub proof fn lemma_ld_a_from_memory(cpu: CPU, mmu: MmuView)
    ensures
        execute(0xf0, cpu, mmu).0.regs.a == mmu.read((0xff00 + cpu.imm8(mmu)) as u16),
        execute(0xf2, cpu, mmu).0.regs.a == mmu.read((0xff00 + cpu.regs.c) as u16),
        execute(0xfa, cpu, mmu).0.regs.a == mmu.read(cpu.imm16(mmu)),
        execute(0x0a, cpu, mmu).0.regs.a == mmu.read(cpu.regs.bc()),
        execute(0x1a, cpu, mmu).0.regs.a == mmu.read(cpu.regs.de()),
        execute(0x2a, cpu, mmu).0.regs.a == mmu.read(cpu.regs.hl()),
        execute(0x3a, cpu, mmu).0.regs.a == mmu.read(cpu.regs.hl()),
        forall|op: u16|
            op == 0xf0 || op == 0xf2 || op == 0xfa || op == 0x0a || op == 0x1a || op == 0x2a || op == 0x3a ==> {
                &&& (#[trigger] execute(op, cpu, mmu)).1 == mmu
                &&& execute(op, cpu, mmu).0.regs.f == cpu.regs.f
            },
{
    reveal(execute);
}

/// The stores of `A` to plain memory: afterwards the byte at the address
/// holds `A`, and neither `A` nor a flag has changed.
pub proof fn lemma_ld_memory_from_a(cpu: CPU, mmu: MmuView, op: u16)
    requires
        mmu.wf(),
        op == 0xe0 || op == 0xe2 || op == 0xea || op == 0x02 || op == 0x12 || op == 0x22 || op == 0x32,
        is_plain(store_address(op, cpu, mmu)),
    ensures
        execute(op, cpu, mmu).1.read(store_address(op, cpu, mmu)) == cpu.regs.a,
        execute(op, cpu, mmu).0.regs.a == cpu.regs.a,
        execute(op, cpu, mmu).0.regs.f == cpu.regs.f,
{
    reveal(execute);
    lemma_plain_write(mmu, store_address(op, cpu, mmu), cpu.regs.a, store_address(op, cpu, mmu));
}

/// The address to which a store of `A` goes.
pub open spec fn store_address(op: u16, cpu: CPU, mmu: MmuView) -> u16 {
    if op == 0xe0 {
        (0xff00 + cpu.imm8(mmu)) as u16
    } else if op == 0xe2 {
        (0xff00 + cpu.regs.c) as u16
    } else if op == 0xea {
        cpu.imm16(mmu)
    } else if op == 0x02 {
        cpu.regs.bc()
    } else if op == 0x12 {
        cpu.regs.de()
    } else {
        cpu.regs.hl()
    }
}

/// `LD SP,HL` and `LD (nn),SP`: `SP` takes the value of `HL`; the two bytes
/// at `nn`, if they are plain memory, take the value of `SP`. No flag
/// changes.
pub proof fn lemma_ld_sp(cpu: CPU, mmu: MmuView)
    requires
        mmu.wf(),
    ensures
        execute(0xf9, cpu, mmu).0.sp.0 == cpu.regs.hl(),
        execute(0xf9, cpu, mmu).0.regs == cpu.regs,
        execute(0x08, cpu, mmu).0.regs == cpu.regs,
        is_plain(cpu.imm16(mmu)) && is_plain(wrap16(cpu.imm16(mmu) + 1)) ==> execute(0x08, cpu, mmu).1.read16(
            cpu.imm16(mmu),
        ) == cpu.sp.0,
{
    reveal(execute);
    if is_plain(cpu.imm16(mmu)) && is_plain(wrap16(cpu.imm16(mmu) + 1)) {
        lemma_plain_write16(mmu, cpu.imm16(mmu), cpu.sp.0);
    }
}

/// `EI` enables interrupts with a delay, and `DI` disables them at once.
/// After `EI` the latch is pending; the start of the next step moves it on
/// and serves nothing; a `DI` executed in that step leaves interrupts
/// disabled, and without one the start of the step after it enables them.
pub proof fn lemma_ei_is_delayed(cpu: CPU, mmu: MmuView)
    requires
        cpu.ime == IMEState::Disabled,
    ensures
        ({
            let c1 = execute(0xfb, cpu, mmu).0;
            let (c2, m2, second) = c1.serviced(mmu);
            let (c3, m3, third) = c2.serviced(mmu);
            &&& c1.ime == IMEState::EnablePending1
            &&& !second && m2 == mmu && c2.ime == IMEState::EnablePending2
            &&& execute(0xf3, c2, mmu).0.ime == IMEState::Disabled
            &&& !third && m3 == mmu && c3.ime == IMEState::Enabled
        }),
{
    reveal(execute);
}

/// The service of an interrupt, over a stack in plain memory. With
/// interrupts enabled, the first source that is both enabled in `IE` and
/// requested in `IF` is served at the start of the step, which then takes 20
/// T-cycles: its request is taken back and the others stay, interrupts are
/// disabled, the CPU wakes up, `PC` is pushed and becomes the vector of the
/// source.
pub proof fn lemma_interrupt_service(cpu: CPU, mmu: MmuView, i: Interrupt)
    requires
        mmu.wf(),
        cpu.ime == IMEState::Enabled,
        mmu.ier.both(mmu.ifr()).first() == Some(i),
        stack_holds(cpu.sp.0),
    ensures
        ({
            let (c, m, served) = cpu.serviced(mmu);
            &&& served
            &&& cpu.stepped(mmu) == (c, m, Ok::<u64, ExecError>(20))
            &&& c == (CPU {
                pc: Addr(i.vector_of()),
                sp: Addr(wrap16(cpu.sp.0 - 2)),
                ime: IMEState::Disabled,
                halted: false,
                ..cpu
            })
            &&& m.read16(c.sp.0) == cpu.pc.0
            &&& m.ifr() == mmu.ifr().with(i, false)
            &&& m.ier == mmu.ier
        }),
{
    let sp = wrap16(cpu.sp.0 - 2);
    assert(wrap16(sp + 1) == wrap16(cpu.sp.0 - 1));
    lemma_interrupt_registers(mmu, 0, 0);
    let m1 = mmu.write16(sp, cpu.pc.0);
    lemma_plain_write16(mmu, sp, cpu.pc.0);
    lemma_plain_write16_keeps_interrupts(mmu, sp, cpu.pc.0);
    let left = mmu.ifr().with(i, false);
    lemma_interrupts_unpack_pack(left);
    lemma_interrupt_registers(m1, left.pack(), sp);
    lemma_interrupt_registers(m1, left.pack(), wrap16(sp + 1));
}

/// Without a request that is enabled, the start of a step serves nothing
/// and leaves the memory alone; a halted CPU then idles for 4 T-cycles.
pub proof fn lemma_nothing_to_serve(cpu: CPU, mmu: MmuView)
    requires
        mmu.wf(),
        mmu.ier.both(mmu.ifr()).none(),
    ensures
        !cpu.serviced(mmu).2,
        cpu.serviced(mmu).1 == mmu,
        cpu.halted ==> cpu.stepped(mmu) == (cpu.serviced(mmu).0, mmu, Ok::<u64, ExecError>(4)),
        cpu.halted ==> cpu.stepped(mmu).0.halted,
{
    lemma_interrupt_registers(mmu, 0, 0);
}

/// Whether an opcode names no instruction: eleven of the opcodes without
/// prefix, the prefix itself, and every value that is neither a byte nor
/// `0xcb00 | byte`.
pub open spec fn is_undefined(opcode: u16) -> bool {
    ||| opcode == 0xcb
    ||| opcode == 0xd3
    ||| opcode == 0xdb
    ||| opcode == 0xdd
    ||| opcode == 0xe3
    ||| opcode == 0xe4
    ||| opcode == 0xeb
    ||| opcode == 0xec
    ||| opcode == 0xed
    ||| opcode == 0xf4
    ||| opcode == 0xfc
    ||| opcode == 0xfd
    ||| 0x100 <= opcode < 0xcb00
    ||| opcode > 0xcbff
}

proof fn lemma_timing_x0z0(op: u8, cpu: CPU, mmu: MmuView)
    requires
        op < 0x40,
        z_of(op) == 0,
    ensures
        execute(op as u16, cpu, mmu).2 is None <==> is_undefined(op as u16),
        execute(op as u16, cpu, mmu).2 is None ==> execute(op as u16, cpu, mmu) == (cpu, mmu, None::<u64>),
        execute(op as u16, cpu, mmu).2 is Some ==> {
            let t = execute(op as u16, cpu, mmu).2->0;
            4 <= t <= 24 && t % 4 == 0
        },
{
    reveal(execute);
}

proof fn lemma_timing_x3z0(op: u8, cpu: CPU, mmu: MmuView)
    requires
        op >= 0xc0,
        z_of(op) == 0,
    ensures
        execute(op as u16, cpu, mmu).2 is None <==> is_undefined(op as u16),
        execute(op as u16, cpu, mmu).2 is None ==> execute(op as u16, cpu, mmu) == (cpu, mmu, None::<u64>),
        execute(op as u16, cpu, mmu).2 is Some ==> {
            let t = execute(op as u16, cpu, mmu).2->0;
            4 <= t <= 24 && t % 4 == 0
        },
{
    reveal(execute);
}

proof fn lemma_timing_x0z1(op: u8, cpu: CPU, mmu: MmuView)
    requires
        op < 0x40,
        z_of(op) == 1,
    ensures
        execute(op as u16, cpu, mmu).2 is None <==> is_undefined(op as u16),
        execute(op as u16, cpu, mmu).2 is None ==> execute(op as u16, cpu, mmu) == (cpu, mmu, None::<u64>),
        execute(op as u16, cpu, mmu).2 is Some ==> {
            let t = execute(op as u16, cpu, mmu).2->0;
            4 <= t <= 24 && t % 4 == 0
        },
{
    reveal(execute);
}

proof fn lemma_timing_x3z1(op: u8, cpu: CPU, mmu: MmuView)
    requires
        op >= 0xc0,
        z_of(op) == 1,
    ensures
        execute(op as u16, cpu, mmu).2 is None <==> is_undefined(op as u16),
        execute(op as u16, cpu, mmu).2 is None ==> execute(op as u16, cpu, mmu) == (cpu, mmu, None::<u64>),
        execute(op as u16, cpu, mmu).2 is Some ==> {
            let t = execute(op as u16, cpu, mmu).2->0;
            4 <= t <= 24 && t % 4 == 0
        },
{
    reveal(execute);
}

proof fn lemma_timing_x0z2(op: u8, cpu: CPU, mmu: MmuView)
    requires
        op < 0x40,
        z_of(op) == 2,
    ensures
        execute(op as u16, cpu, mmu).2 is None <==> is_undefined(op as u16),
        execute(op as u16, cpu, mmu).2 is None ==> execute(op as u16, cpu, mmu) == (cpu, mmu, None::<u64>),
        execute(op as u16, cpu, mmu).2 is Some ==> {
            let t = execute(op as u16, cpu, mmu).2->0;
            4 <= t <= 24 && t % 4 == 0
        },
{
    reveal(execute);
}

proof fn lemma_timing_x3z2(op: u8, cpu: CPU, mmu: MmuView)
    requires
        op >= 0xc0,
        z_of(op) == 2,
    ensures
        execute(op as u16, cpu, mmu).2 is None <==> is_undefined(op as u16),
        execute(op as u16, cpu, mmu).2 is None ==> execute(op as u16, cpu, mmu) == (cpu, mmu, None::<u64>),
        execute(op as u16, cpu, mmu).2 is Some ==> {
            let t = execute(op as u16, cpu, mmu).2->0;
            4 <= t <= 24 && t % 4 == 0
        },
{
    reveal(execute);
}

proof fn lemma_timing_x0z3(op: u8, cpu: CPU, mmu: MmuView)
    requires
        op < 0x40,
        z_of(op) == 3,
    ensures
        execute(op as u16, cpu, mmu).2 is None <==> is_undefined(op as u16),
        execute(op as u16, cpu, mmu).2 is None ==> execute(op as u16, cpu, mmu) == (cpu, mmu, None::<u64>),
        execute(op as u16, cpu, mmu).2 is Some ==> {
            let t = execute(op as u16, cpu, mmu).2->0;
            4 <= t <= 24 && t % 4 == 0
        },
{
    reveal(execute);
}

proof fn lemma_timing_x3z3(op: u8, cpu: CPU, mmu: MmuView)
    requires
        op >= 0xc0,
        z_of(op) == 3,
    ensures
        execute(op as u16, cpu, mmu).2 is None <==> is_undefined(op as u16),
        execute(op as u16, cpu, mmu).2 is None ==> execute(op as u16, cpu, mmu) == (cpu, mmu, None::<u64>),
        execute(op as u16, cpu, mmu).2 is Some ==> {
            let t = execute(op as u16, cpu, mmu).2->0;
            4 <= t <= 24 && t % 4 == 0
        },
{
    reveal(execute);
}

proof fn lemma_timing_x0z4(op: u8, cpu: CPU, mmu: MmuView)
    requires
        op < 0x40,
        z_of(op) == 4,
    ensures
        execute(op as u16, cpu, mmu).2 is None <==> is_undefined(op as u16),
        execute(op as u16, cpu, mmu).2 is None ==> execute(op as u16, cpu, mmu) == (cpu, mmu, None::<u64>),
        execute(op as u16, cpu, mmu).2 is Some ==> {
            let t = execute(op as u16, cpu, mmu).2->0;
            4 <= t <= 24 && t % 4 == 0
        },
{
    reveal(execute);
}

proof fn lemma_timing_x3z4(op: u8, cpu: CPU, mmu: MmuView)
    requires
        op >= 0xc0,
        z_of(op) == 4,
    ensures
        execute(op as u16, cpu, mmu).2 is None <==> is_undefined(op as u16),
        execute(op as u16, cpu, mmu).2 is None ==> execute(op as u16, cpu, mmu) == (cpu, mmu, None::<u64>),
        execute(op as u16, cpu, mmu).2 is Some ==> {
            let t = execute(op as u16, cpu, mmu).2->0;
            4 <= t <= 24 && t % 4 == 0
        },
{
    reveal(execute);
}

proof fn lemma_timing_x0z5(op: u8, cpu: CPU, mmu: MmuView)
    requires
        op < 0x40,
        z_of(op) == 5,
    ensures
        execute(op as u16, cpu, mmu).2 is None <==> is_undefined(op as u16),
        execute(op as u16, cpu, mmu).2 is None ==> execute(op as u16, cpu, mmu) == (cpu, mmu, None::<u64>),
        execute(op as u16, cpu, mmu).2 is Some ==> {
            let t = execute(op as u16, cpu, mmu).2->0;
            4 <= t <= 24 && t % 4 == 0
        },
{
    reveal(execute);
}

proof fn lemma_timing_x3z5(op: u8, cpu: CPU, mmu: MmuView)
    requires
        op >= 0xc0,
        z_of(op) == 5,
    ensures
        execute(op as u16, cpu, mmu).2 is None <==> is_undefined(op as u16),
        execute(op as u16, cpu, mmu).2 is None ==> execute(op as u16, cpu, mmu) == (cpu, mmu, None::<u64>),
        execute(op as u16, cpu, mmu).2 is Some ==> {
            let t = execute(op as u16, cpu, mmu).2->0;
            4 <= t <= 24 && t % 4 == 0
        },
{
    reveal(execute);
}

proof fn lemma_timing_x0z6(op: u8, cpu: CPU, mmu: MmuView)
    requires
        op < 0x40,
        z_of(op) == 6,
    ensures
        execute(op as u16, cpu, mmu).2 is None <==> is_undefined(op as u16),
        execute(op as u16, cpu, mmu).2 is None ==> execute(op as u16, cpu, mmu) == (cpu, mmu, None::<u64>),
        execute(op as u16, cpu, mmu).2 is Some ==> {
            let t = execute(op as u16, cpu, mmu).2->0;
            4 <= t <= 24 && t % 4 == 0
        },
{
    reveal(execute);
}

proof fn lemma_timing_x3z6(op: u8, cpu: CPU, mmu: MmuView)
    requires
        op >= 0xc0,
        z_of(op) == 6,
    ensures
        execute(op as u16, cpu, mmu).2 is None <==> is_undefined(op as u16),
        execute(op as u16, cpu, mmu).2 is None ==> execute(op as u16, cpu, mmu) == (cpu, mmu, None::<u64>),
        execute(op as u16, cpu, mmu).2 is Some ==> {
            let t = execute(op as u16, cpu, mmu).2->0;
            4 <= t <= 24 && t % 4 == 0
        },
{
    reveal(execute);
}

proof fn lemma_timing_x0z7(op: u8, cpu: CPU, mmu: MmuView)
    requires
        op < 0x40,
        z_of(op) == 7,
    ensures
        execute(op as u16, cpu, mmu).2 is None <==> is_undefined(op as u16),
        execute(op as u16, cpu, mmu).2 is None ==> execute(op as u16, cpu, mmu) == (cpu, mmu, None::<u64>),
        execute(op as u16, cpu, mmu).2 is Some ==> {
            let t = execute(op as u16, cpu, mmu).2->0;
            4 <= t <= 24 && t % 4 == 0
        },
{
    reveal(execute);
}

proof fn lemma_timing_x3z7(op: u8, cpu: CPU, mmu: MmuView)
    requires
        op >= 0xc0,
        z_of(op) == 7,
    ensures
        execute(op as u16, cpu, mmu).2 is None <==> is_undefined(op as u16),
        execute(op as u16, cpu, mmu).2 is None ==> execute(op as u16, cpu, mmu) == (cpu, mmu, None::<u64>),
        execute(op as u16, cpu, mmu).2 is Some ==> {
            let t = execute(op as u16, cpu, mmu).2->0;
            4 <= t <= 24 && t % 4 == 0
        },
{
    reveal(execute);
}

proof fn lemma_timing_x1x2(op: u8, cpu: CPU, mmu: MmuView)
    requires
        0x40 <= op < 0xc0,
    ensures
        execute(op as u16, cpu, mmu).2 is None <==> is_undefined(op as u16),
        execute(op as u16, cpu, mmu).2 is None ==> execute(op as u16, cpu, mmu) == (cpu, mmu, None::<u64>),
        execute(op as u16, cpu, mmu).2 is Some ==> {
            let t = execute(op as u16, cpu, mmu).2->0;
            4 <= t <= 24 && t % 4 == 0
        },
{
    reveal(execute);
}

proof fn lemma_timing_plain(op: u8, cpu: CPU, mmu: MmuView)
    ensures
        execute(op as u16, cpu, mmu).2 is None <==> is_undefined(op as u16),
        execute(op as u16, cpu, mmu).2 is None ==> execute(op as u16, cpu, mmu) == (cpu, mmu, None::<u64>),
        execute(op as u16, cpu, mmu).2 is Some ==> {
            let t = execute(op as u16, cpu, mmu).2->0;
            4 <= t <= 24 && t % 4 == 0
        },
{
    let z = z_of(op);
    if 0x40 <= op < 0xc0 {
        lemma_timing_x1x2(op, cpu, mmu);
    } else if op < 0x40 {
        if z == 0 {
            lemma_timing_x0z0(op, cpu, mmu);
        } else if z == 1 {
            lemma_timing_x0z1(op, cpu, mmu);
        } else if z == 2 {
            lemma_timing_x0z2(op, cpu, mmu);
        } else if z == 3 {
            lemma_timing_x0z3(op, cpu, mmu);
        } else if z == 4 {
            lemma_timing_x0z4(op, cpu, mmu);
        } else if z == 5 {
            lemma_timing_x0z5(op, cpu, mmu);
        } else if z == 6 {
            lemma_timing_x0z6(op, cpu, mmu);
        } else if z == 7 {
            lemma_timing_x0z7(op, cpu, mmu);
        }
    } else {
        if z == 0 {
            lemma_timing_x3z0(op, cpu, mmu);
        } else if z == 1 {
            lemma_timing_x3z1(op, cpu, mmu);
        } else if z == 2 {
            lemma_timing_x3z2(op, cpu, mmu);
        } else if z == 3 {
            lemma_timing_x3z3(op, cpu, mmu);
        } else if z == 4 {
            lemma_timing_x3z4(op, cpu, mmu);
        } else if z == 5 {
            lemma_timing_x3z5(op, cpu, mmu);
        } else if z == 6 {
            lemma_timing_x3z6(op, cpu, mmu);
        } else if z == 7 {
            lemma_timing_x3z7(op, cpu, mmu);
        }
    }
}

proof fn lemma_timing_prefixed(op: u8, cpu: CPU, mmu: MmuView)
    ensures
        execute((0xcb00 + op) as u16, cpu, mmu).2 is Some,
        ({
            let t = execute((0xcb00 + op) as u16, cpu, mmu).2->0;
            t == 8 || t == 12 || t == 16
        }),
{
    reveal(execute);
}

/// Which opcodes are instructions, and how long they take. An opcode that
/// names no instruction changes nothing; every instruction takes a whole
/// number of machine cycles of 4 T-cycles, at least one and at most six.
pub proof fn lemma_timing(opcode: u16, cpu: CPU, mmu: MmuView)
    ensures
        execute(opcode, cpu, mmu).2 is None <==> is_undefined(opcode),
        execute(opcode, cpu, mmu).2 is None ==> execute(opcode, cpu, mmu) == (cpu, mmu, None::<u64>),
        execute(opcode, cpu, mmu).2 is Some ==> {
            let t = execute(opcode, cpu, mmu).2->0;
            4 <= t <= 24 && t % 4 == 0
        },
{
    if opcode < 0x100 {
        lemma_timing_plain(opcode as u8, cpu, mmu);
    } else if 0xcb00 <= opcode <= 0xcbff {
        lemma_timing_prefixed((opcode - 0xcb00) as u8, cpu, mmu);
    } else {
        reveal(execute);
    }
}

proof fn lemma_writes_keep_wf()
    ensures
        forall|m: MmuView, a: u16, v: u8| m.wf() ==> (#[trigger] m.write(a, v)).wf(),
{
    assert forall|m: MmuView, a: u16, v: u8| m.wf() implies (#[trigger] m.write(a, v)).wf() by {
        lemma_write_keeps_wf(m, a, v);
    }
}

proof fn lemma_wf_x0z0(op: u8, cpu: CPU, mmu: MmuView)
    requires
        mmu.wf(),
        op < 0x40,
        z_of(op) == 0,
    ensures
        execute(op as u16, cpu, mmu).1.wf(),
{
    reveal(execute);
    lemma_writes_keep_wf();
}

proof fn lemma_wf_x3z0(op: u8, cpu: CPU, mmu: MmuView)
    requires
        mmu.wf(),
        op >= 0xc0,
        z_of(op) == 0,
    ensures
        execute(op as u16, cpu, mmu).1.wf(),
{
    reveal(execute);
    lemma_writes_keep_wf();
}

proof fn lemma_wf_x0z1(op: u8, cpu: CPU, mmu: MmuView)
    requires
        mmu.wf(),
        op < 0x40,
        z_of(op) == 1,
    ensures
        execute(op as u16, cpu, mmu).1.wf(),
{
    reveal(execute);
    lemma_writes_keep_wf();
}

proof fn lemma_wf_x3z1(op: u8, cpu: CPU, mmu: MmuView)
    requires
        mmu.wf(),
        op >= 0xc0,
        z_of(op) == 1,
    ensures
        execute(op as u16, cpu, mmu).1.wf(),
{
    reveal(execute);
    lemma_writes_keep_wf();
}

proof fn lemma_wf_x0z2(op: u8, cpu: CPU, mmu: MmuView)
    requires
        mmu.wf(),
        op < 0x40,
        z_of(op) == 2,
    ensures
        execute(op as u16, cpu, mmu).1.wf(),
{
    reveal(execute);
    lemma_writes_keep_wf();
}

proof fn lemma_wf_x3z2(op: u8, cpu: CPU, mmu: MmuView)
    requires
        mmu.wf(),
        op >= 0xc0,
        z_of(op) == 2,
    ensures
        execute(op as u16, cpu, mmu).1.wf(),
{
    reveal(execute);
    lemma_writes_keep_wf();
}

proof fn lemma_wf_x0z3(op: u8, cpu: CPU, mmu: MmuView)
    requires
        mmu.wf(),
        op < 0x40,
        z_of(op) == 3,
    ensures
        execute(op as u16, cpu, mmu).1.wf(),
{
    reveal(execute);
    lemma_writes_keep_wf();
}

proof fn lemma_wf_x3z3(op: u8, cpu: CPU, mmu: MmuView)
    requires
        mmu.wf(),
        op >= 0xc0,
        z_of(op) == 3,
    ensures
        execute(op as u16, cpu, mmu).1.wf(),
{
    reveal(execute);
    lemma_writes_keep_wf();
}

proof fn lemma_wf_x0z4(op: u8, cpu: CPU, mmu: MmuView)
    requires
        mmu.wf(),
        op < 0x40,
        z_of(op) == 4,
    ensures
        execute(op as u16, cpu, mmu).1.wf(),
{
    reveal(execute);
    lemma_writes_keep_wf();
}

proof fn lemma_wf_x3z4(op: u8, cpu: CPU, mmu: MmuView)
    requires
        mmu.wf(),
        op >= 0xc0,
        z_of(op) == 4,
    ensures
        execute(op as u16, cpu, mmu).1.wf(),
{
    reveal(execute);
    lemma_writes_keep_wf();
}

proof fn lemma_wf_x0z5(op: u8, cpu: CPU, mmu: MmuView)
    requires
        mmu.wf(),
        op < 0x40,
        z_of(op) == 5,
    ensures
        execute(op as u16, cpu, mmu).1.wf(),
{
    reveal(execute);
    lemma_writes_keep_wf();
}

proof fn lemma_wf_x3z5(op: u8, cpu: CPU, mmu: MmuView)
    requires
        mmu.wf(),
        op >= 0xc0,
        z_of(op) == 5,
    ensures
        execute(op as u16, cpu, mmu).1.wf(),
{
    reveal(execute);
    lemma_writes_keep_wf();
}

proof fn lemma_wf_x0z6(op: u8, cpu: CPU, mmu: MmuView)
    requires
        mmu.wf(),
        op < 0x40,
        z_of(op) == 6,
    ensures
        execute(op as u16, cpu, mmu).1.wf(),
{
    reveal(execute);
    lemma_writes_keep_wf();
}

proof fn lemma_wf_x3z6(op: u8, cpu: CPU, mmu: MmuView)
    requires
        mmu.wf(),
        op >= 0xc0,
        z_of(op) == 6,
    ensures
        execute(op as u16, cpu, mmu).1.wf(),
{
    reveal(execute);
    lemma_writes_keep_wf();
}

proof fn lemma_wf_x0z7(op: u8, cpu: CPU, mmu: MmuView)
    requires
        mmu.wf(),
        op < 0x40,
        z_of(op) == 7,
    ensures
        execute(op as u16, cpu, mmu).1.wf(),
{
    reveal(execute);
    lemma_writes_keep_wf();
}

proof fn lemma_wf_x3z7(op: u8, cpu: CPU, mmu: MmuView)
    requires
        mmu.wf(),
        op >= 0xc0,
        z_of(op) == 7,
    ensures
        execute(op as u16, cpu, mmu).1.wf(),
{
    reveal(execute);
    lemma_writes_keep_wf();
}

proof fn lemma_wf_x1x2(op: u8, cpu: CPU, mmu: MmuView)
    requires
        mmu.wf(),
        0x40 <= op < 0xc0,
    ensures
        execute(op as u16, cpu, mmu).1.wf(),
{
    reveal(execute);
    lemma_writes_keep_wf();
}

proof fn lemma_wf_cb(op: u8, cpu: CPU, mmu: MmuView)
    requires
        mmu.wf(),
    ensures
        execute((0xcb00 + op) as u16, cpu, mmu).1.wf(),
{
    reveal(execute);
    lemma_writes_keep_wf();
}

/// Every instruction leaves a well-formed machine well-formed.
pub proof fn lemma_execute_keeps_wf(opcode: u16, cpu: CPU, mmu: MmuView)
    requires
        mmu.wf(),
    ensures
        execute(opcode, cpu, mmu).1.wf(),
{
    if opcode < 0x100 {
        let op = opcode as u8;
        let z = z_of(op);
        if 0x40 <= op < 0xc0 {
            lemma_wf_x1x2(op, cpu, mmu);
        } else if op < 0x40 {
            if z == 0 {
                lemma_wf_x0z0(op, cpu, mmu);
            } else if z == 1 {
                lemma_wf_x0z1(op, cpu, mmu);
            } else if z == 2 {
                lemma_wf_x0z2(op, cpu, mmu);
            } else if z == 3 {
                lemma_wf_x0z3(op, cpu, mmu);
            } else if z == 4 {
                lemma_wf_x0z4(op, cpu, mmu);
            } else if z == 5 {
                lemma_wf_x0z5(op, cpu, mmu);
            } else if z == 6 {
                lemma_wf_x0z6(op, cpu, mmu);
            } else if z == 7 {
                lemma_wf_x0z7(op, cpu, mmu);
            }
        } else {
            if z == 0 {
                lemma_wf_x3z0(op, cpu, mmu);
            } else if z == 1 {
                lemma_wf_x3z1(op, cpu, mmu);
            } else if z == 2 {
                lemma_wf_x3z2(op, cpu, mmu);
            } else if z == 3 {
                lemma_wf_x3z3(op, cpu, mmu);
            } else if z == 4 {
                lemma_wf_x3z4(op, cpu, mmu);
            } else if z == 5 {
                lemma_wf_x3z5(op, cpu, mmu);
            } else if z == 6 {
                lemma_wf_x3z6(op, cpu, mmu);
            } else if z == 7 {
                lemma_wf_x3z7(op, cpu, mmu);
            }
        }
    } else if 0xcb00 <= opcode <= 0xcbff {
        lemma_wf_cb((opcode - 0xcb00) as u8, cpu, mmu);
    } else {
        reveal(execute);
    }
}

/// Every step of the CPU leaves a well-formed machine well-formed.
pub proof fn lemma_step_keeps_wf(cpu: CPU, mmu: MmuView)
    requires
        mmu.wf(),
    ensures
        cpu.serviced(mmu).1.wf(),
        cpu.stepped(mmu).1.wf(),
{
    lemma_writes_keep_wf();
    let (c, m, served) = cpu.serviced(mmu);
    assert(m.wf());
    let woken = CPU { halted: false, ..c };
    lemma_execute_keeps_wf(c.opcode_at(m), c.fetched(m), m);
    lemma_execute_keeps_wf(woken.opcode_at(m), woken.fetched(m), m);
}

} // verus!
