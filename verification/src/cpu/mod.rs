//! The CPU: register file, program counter, stack pointer and the master
//! interrupt latch.

pub mod instruction;
pub mod interrupts;
pub mod laws;
pub mod registers;

use crate::mmu::{MmuView, MMU};
use crate::util::{wrap16, Addr};
use instruction::{decode, execute};
use interrupts::{Interrupt, Interrupts};
use registers::{Flags, Registers};
use vstd::prelude::*;

verus! {

pub const INT_ENABLE_ADDR: u16 = 0xffff;

pub const INT_REQUEST_ADDR: u16 = 0xff0f;

/// The master interrupt latch. `EI` enables interrupts by way of the two
/// pending states, one step each.
#[derive(Clone, Copy, Debug, PartialEq, Eq, Structural)]
pub enum IMEState {
    Disabled,
    EnablePending1,
    EnablePending2,
    Enabled,
}

/// What went wrong in a step.
#[derive(Clone, Copy, Debug, PartialEq, Eq, Structural)]
pub enum ErrorKind {
    /// The opcode names no instruction.
    UndefinedOpcode,
}

/// A step that could not be made.
#[derive(Clone, Copy, Debug, PartialEq, Eq, Structural)]
pub struct ExecError {
    /// The address of the opcode.
    pub pc: u16,
    /// The opcode; one fetched behind the prefix 0xcb is `0xcb00 | byte`.
    pub opcode: u16,
    pub kind: ErrorKind,
}

/// The state of the CPU.
#[derive(Clone, Copy, Debug, PartialEq, Eq, Structural)]
pub struct CPU {
    pub regs: Registers,
    pub pc: Addr,
    pub sp: Addr,
    pub ime: IMEState,
    /// The CPU waits for an interrupt to be requested.
    pub halted: bool,
}

impl CPU {
    /// The CPU when the machine is switched on: every register zero,
    /// interrupts disabled.
    pub open spec fn power_on() -> CPU {
        CPU {
            regs: Registers { a: 0, f: Flags::unpack(0), b: 0, c: 0, d: 0, e: 0, h: 0, l: 0 },
            pc: Addr(0),
            sp: Addr(0),
            ime: IMEState::Disabled,
            halted: false,
        }
    }

    /// The CPU as a boot ROM leaves it: `PC` at 0x0100, `SP` at 0xfffe.
    pub open spec fn booted(self) -> CPU {
        CPU {
            regs: Registers {
                a: 0x11,
                f: Flags::unpack(0x80),
                b: 0x00,
                c: 0x00,
                d: 0xff,
                e: 0x56,
                h: 0x00,
                l: 0x0d,
            },
            pc: Addr(0x0100),
            sp: Addr(0xfffe),
            ..self
        }
    }

    /// The CPU with `PC` moved on by `n`, wrapping at 16 bits.
    pub open spec fn skip(self, n: int) -> CPU {
        CPU { pc: Addr(wrap16(self.pc.0 + n)), ..self }
    }

    /// The CPU with `PC` replaced.
    pub open spec fn jump(self, pc: u16) -> CPU {
        CPU { pc: Addr(pc), ..self }
    }

    /// The CPU with other registers.
    pub open spec fn with_regs(self, regs: Registers) -> CPU {
        CPU { regs, ..self }
    }

    /// The CPU with other flags.
    pub open spec fn with_flags(self, f: Flags) -> CPU {
        CPU { regs: Registers { f, ..self.regs }, ..self }
    }

    /// The byte at `PC`.
    pub open spec fn imm8(self, mmu: MmuView) -> u8 {
        mmu.read(self.pc.0)
    }

    /// The little-endian 16-bit value at `PC`.
    pub open spec fn imm16(self, mmu: MmuView) -> u16 {
        mmu.read16(self.pc.0)
    }

    /// The CPU and the memory after a 16-bit value is pushed: `SP` goes down
    /// by two, then the value is stored there.
    pub open spec fn pushed(self, mmu: MmuView, v: u16) -> (CPU, MmuView) {
        let sp = wrap16(self.sp.0 - 2);
        (CPU { sp: Addr(sp), ..self }, mmu.write16(sp, v))
    }

    /// The 16-bit value on top of the stack.
    pub open spec fn top(self, mmu: MmuView) -> u16 {
        mmu.read16(self.sp.0)
    }

    /// The CPU after a 16-bit value is popped: `SP` goes up by two.
    pub open spec fn popped(self) -> CPU {
        CPU { sp: Addr(wrap16(self.sp.0 + 2)), ..self }
    }

    /// The enabled interrupts, as read from 0xffff.
    pub open spec fn enabled(mmu: MmuView) -> Interrupts {
        Interrupts::unpack(mmu.read(INT_ENABLE_ADDR))
    }

    /// The requested interrupts, as read from 0xff0f.
    pub open spec fn requested(mmu: MmuView) -> Interrupts {
        Interrupts::unpack(mmu.read(INT_REQUEST_ADDR))
    }

    /// The interrupt that is both enabled and requested and comes first.
    pub open spec fn pending(mmu: MmuView) -> Option<Interrupt> {
        CPU::enabled(mmu).both(CPU::requested(mmu)).first()
    }

    /// The start of a step. With interrupts enabled and one pending, that one
    /// is served: the latch is cleared, the CPU wakes up, `PC` is pushed, the
    /// request is taken back and `PC` becomes the vector; the third
    /// component is then true. Else a pending enable moves on by one stage.
    pub open spec fn serviced(self, mmu: MmuView) -> (CPU, MmuView, bool) {
        match self.ime {
            IMEState::Enabled => match CPU::pending(mmu) {
                Some(i) => {
                    let request = CPU::requested(mmu);
                    let (c, m) = (CPU { ime: IMEState::Disabled, halted: false, ..self }).pushed(mmu, self.pc.0);
                    (c.jump(i.vector_of()), m.write(INT_REQUEST_ADDR, request.with(i, false).pack()), true)
                },
                None => (self, mmu, false),
            },
            IMEState::EnablePending1 => (CPU { ime: IMEState::EnablePending2, ..self }, mmu, false),
            IMEState::EnablePending2 => (CPU { ime: IMEState::Enabled, ..self }, mmu, false),
            IMEState::Disabled => (self, mmu, false),
        }
    }

    /// The opcode at `PC`: one byte, or `0xcb00 | second` where the first
    /// byte is the prefix 0xcb.
    pub open spec fn opcode_at(self, mmu: MmuView) -> u16 {
        if self.imm8(mmu) == 0xcb {
            (0xcb00 + self.skip(1).imm8(mmu)) as u16
        } else {
            self.imm8(mmu) as u16
        }
    }

    /// The CPU with `PC` behind the opcode.
    pub open spec fn fetched(self, mmu: MmuView) -> CPU {
        if self.imm8(mmu) == 0xcb {
            self.skip(2)
        } else {
            self.skip(1)
        }
    }

    /// Fetches and executes one instruction. An opcode that names no
    /// instruction changes nothing and is reported with its address.
    pub open spec fn run(self, mmu: MmuView) -> (CPU, MmuView, Result<u64, ExecError>) {
        let opcode = self.opcode_at(mmu);
        let (c, m, ticks) = execute(opcode, self.fetched(mmu), mmu);
        match ticks {
            Some(n) => (c, m, Ok(n)),
            None => (self, mmu, Err(ExecError { pc: self.pc.0, opcode, kind: ErrorKind::UndefinedOpcode })),
        }
    }

    /// One step. An interrupt that is served takes 20 T-cycles. Else a
    /// halted CPU idles for 4 T-cycles unless an enabled interrupt is
    /// requested, which wakes it up whatever the latch says; a CPU that runs
    /// executes one instruction.
    pub open spec fn stepped(self, mmu: MmuView) -> (CPU, MmuView, Result<u64, ExecError>) {
        let (c, m, served) = self.serviced(mmu);
        if served {
            (c, m, Ok(20))
        } else if c.halted {
            if CPU::pending(m) is Some {
                (CPU { halted: false, ..c }).run(m)
            } else {
                (c, m, Ok(4))
            }
        } else {
            c.run(m)
        }
    }

    /// A CPU as it is when the machine is switched on.
    pub fn new() -> (r: CPU)
        ensures
            r == CPU::power_on(),
    {
        CPU { regs: Registers::new(), pc: Addr::new(), sp: Addr::new(), ime: IMEState::Disabled, halted: false }
    }

    /// Puts the CPU and the bus into the state in which a boot ROM leaves
    /// them: `PC` at 0x0100, `SP` at 0xfffe, the boot ROM unmapped.
    pub fn no_boot(&mut self, mmu: &mut MMU)
        requires
            old(mmu).wf(),
        ensures
            *final(self) == old(self).booted(),
            final(mmu)@ == (MmuView { boot_disabled: true, ..old(mmu)@ }),
            final(mmu).wf(),
    {
        self.regs = Registers {
            a: 0x11,
            f: Flags::from(0x80),
            b: 0x00,
            c: 0x00,
            d: 0xff,
            e: 0x56,
            h: 0x00,
            l: 0x0d,
        };
        self.pc = Addr::from(0x0100);
        self.sp = Addr::from(0xfffe);
        mmu.disable_boot();
    }

    /// Makes one step and says how many T-cycles it took.
    pub fn step(&mut self, mmu: &mut MMU) -> (r: Result<u64, ExecError>)
        requires
            old(mmu).wf(),
        ensures
            (*final(self), final(mmu)@, r) == old(self).stepped(old(mmu)@),
            final(mmu).wf(),
    {
        if self.handle_ime(mmu) {
            return Ok(20);
        }
        if self.halted {
            if !self.interrupt_pending(mmu) {
                return Ok(4);
            }
            self.halted = false;
        }
        self.run_instruction(mmu)
    }

    /// Whether an interrupt is both enabled and requested.
    pub fn interrupt_pending(&self, mmu: &MMU) -> (r: bool)
        requires
            mmu.wf(),
        ensures
            r == (CPU::pending(mmu@) is Some),
    {
        let request = self.get_interrupt_request(mmu);
        let enable = self.get_interrupt_enable(mmu);
        enable.bitand(request).next_interrupt().is_some()
    }

    /// Reads the opcode at `PC` and moves `PC` behind it.
    pub fn fetch(&mut self, mmu: &MMU) -> (r: u16)
        requires
            mmu.wf(),
        ensures
            r == old(self).opcode_at(mmu@),
            *final(self) == old(self).fetched(mmu@),
    {
        let first = self.readu8(mmu);
        if first == 0xcb {
            0xcb00 + self.readu8(mmu) as u16
        } else {
            first as u16
        }
    }

    /// Fetches and executes one instruction.
    pub fn run_instruction(&mut self, mmu: &mut MMU) -> (r: Result<u64, ExecError>)
        requires
            old(mmu).wf(),
        ensures
            (*final(self), final(mmu)@, r) == old(self).run(old(mmu)@),
            final(mmu).wf(),
    {
        let start = *self;
        let opcode = self.fetch(mmu);
        match decode(opcode, self, mmu) {
            Some(ticks) => Ok(ticks),
            None => {
                *self = start;
                Err(ExecError { pc: start.pc.0, opcode, kind: ErrorKind::UndefinedOpcode })
            },
        }
    }

    /// The start of a step: serves a pending interrupt, or moves a pending
    /// enable on. Says whether an interrupt was served.
    pub fn handle_ime(&mut self, mmu: &mut MMU) -> (r: bool)
        requires
            old(mmu).wf(),
        ensures
            (*final(self), final(mmu)@, r) == old(self).serviced(old(mmu)@),
            final(mmu).wf(),
    {
        match self.ime {
            IMEState::Enabled => {
                let request = self.get_interrupt_request(mmu);
                let enable = self.get_interrupt_enable(mmu);
                let interrupts = enable.bitand(request);
                match interrupts.next_interrupt() {
                    Some(interrupt) => {
                        self.ime = IMEState::Disabled;
                        self.halted = false;
                        let pc = self.pc.value();
                        self.push_stack(mmu, pc);
                        let mut request = request;
                        request.unset(interrupt);
                        self.pc = Addr::from(interrupt.vector());
                        self.set_interrupt_request(mmu, request);
                        true
                    },
                    None => false,
                }
            },
            IMEState::EnablePending1 => {
                self.ime = IMEState::EnablePending2;
                false
            },
            IMEState::EnablePending2 => {
                self.ime = IMEState::Enabled;
                false
            },
            IMEState::Disabled => false,
        }
    }

    /// `IE`, read over the bus.
    pub fn get_interrupt_enable(&self, mmu: &MMU) -> (r: Interrupts)
        requires
            mmu.wf(),
        ensures
            r == CPU::enabled(mmu@),
    {
        Interrupts::from(mmu.readu8(Addr(0xffff)))
    }

    /// `IF`, read over the bus.
    pub fn get_interrupt_request(&self, mmu: &MMU) -> (r: Interrupts)
        requires
            mmu.wf(),
        ensures
            r == CPU::requested(mmu@),
    {
        Interrupts::from(mmu.readu8(Addr(0xff0f)))
    }

    /// Writes `IF` over the bus.
    pub fn set_interrupt_request(&self, mmu: &mut MMU, request: Interrupts)
        requires
            old(mmu).wf(),
        ensures
            final(mmu)@ == old(mmu)@.write(INT_REQUEST_ADDR, request.pack()),
            final(mmu).wf(),
    {
        mmu.writeu8(Addr(0xff0f), u8::from(request));
    }

    /// Pushes a 16-bit value: `SP` goes down by two, wrapping, and the value
    /// is stored there, low byte first.
    pub fn push_stack(&mut self, mmu: &mut MMU, v: u16)
        requires
            old(mmu).wf(),
        ensures
            (*final(self), final(mmu)@) == old(self).pushed(old(mmu)@, v),
            final(mmu).wf(),
    {
        self.sp = self.sp.offset_back(2);
        mmu.writeu16(self.sp, v);
    }

    /// Pops a 16-bit value: it is read at `SP`, and `SP` goes up by two,
    /// wrapping.
    pub fn pop_stack(&mut self, mmu: &MMU) -> (r: u16)
        requires
            mmu.wf(),
        ensures
            r == old(self).top(mmu@),
            *final(self) == old(self).popped(),
    {
        let v = mmu.readu16(self.sp);
        self.sp = self.sp.offset(2);
        v
    }

    /// Replaces the flags.
    pub fn set_flags(&mut self, f: Flags)
        ensures
            *final(self) == old(self).with_flags(f),
    {
        let regs = self.regs;
        self.regs = Registers { f, ..regs };
    }

    /// Replaces `A`.
    pub fn set_a(&mut self, v: u8)
        ensures
            *final(self) == old(self).with_regs(Registers { a: v, ..old(self).regs }),
    {
        let regs = self.regs;
        self.regs = Registers { a: v, ..regs };
    }

    pub fn set_sp(&mut self, v: u16)
        ensures
            *final(self) == (CPU { sp: Addr(v), ..*old(self) }),
    {
        self.sp = Addr::from(v);
    }

    /// Reads the byte at `PC` and moves `PC` behind it.
    pub fn readu8(&mut self, mmu: &MMU) -> (r: u8)
        requires
            mmu.wf(),
        ensures
            r == old(self).imm8(mmu@),
            *final(self) == old(self).skip(1),
    {
        let ret = mmu.readu8(self.pc);
        self.pc = self.pc.offset(1);
        ret
    }

    /// Reads the 16-bit value at `PC` and moves `PC` behind it.
    pub fn readu16(&mut self, mmu: &MMU) -> (r: u16)
        requires
            mmu.wf(),
        ensures
            r == old(self).imm16(mmu@),
            *final(self) == old(self).skip(2),
    {
        let ret = mmu.readu16(self.pc);
        self.pc = self.pc.offset(2);
        ret
    }

    /// Stores a byte at `PC`.
    pub fn writeu8(&mut self, value: u8, mmu: &mut MMU)
        requires
            old(mmu).wf(),
        ensures
            *final(self) == *old(self),
            final(mmu)@ == old(mmu)@.write(old(self).pc.0, value),
            final(mmu).wf(),
    {
        mmu.writeu8(self.pc, value);
    }

    /// Stores a 16-bit value at `PC`.
    pub fn writeu16(&mut self, value: u16, mmu: &mut MMU)
        requires
            old(mmu).wf(),
        ensures
            *final(self) == *old(self),
            final(mmu)@ == old(mmu)@.write16(old(self).pc.0, value),
            final(mmu).wf(),
    {
        mmu.writeu16(self.pc, value);
    }
}

} // verus!
