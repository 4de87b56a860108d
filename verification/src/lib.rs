//! Core of a Game Boy (DMG) emulator: CPU, memory bus, pixel-processing unit,
//! timer and interrupt controller, advancing in lockstep on T-cycles.

pub mod cpu;
pub mod joypad;
pub mod mmu;
pub mod ppu;
pub mod timer;
pub mod util;

use cpu::{ExecError, CPU};
use joypad::Key;
use mmu::cartridge::{CartridgeError, CartridgeView};
use mmu::{MmuView, MMU};
use ppu::screen::Screen;
use vstd::prelude::*;

verus! {

/// The whole machine: the CPU, and the bus with the devices behind it.
pub struct Machine {
    pub cpu: CPU,
    pub mmu: MMU,
}

impl Machine {
    /// The bus and its devices are well-formed.
    pub open spec fn wf(&self) -> bool {
        self.mmu.wf()
    }

    /// The CPU and the memory when the machine is switched on. With a boot
    /// ROM the CPU starts at address 0 and the boot ROM is mapped; without
    /// one the CPU starts as a boot ROM would have left it.
    pub open spec fn power_on(cartridge: CartridgeView, bootrom: Option<Seq<u8>>) -> (CPU, MmuView) {
        if bootrom is None {
            (CPU::power_on().booted(), MmuView::power_on(cartridge, bootrom))
        } else {
            (CPU::power_on(), MmuView::power_on(cartridge, bootrom))
        }
    }

    /// The CPU and the memory after one step of the machine: the CPU makes
    /// its step, then the devices run for the T-cycles that it took. After a
    /// step that failed the devices do not run.
    pub open spec fn stepped(cpu: CPU, mmu: MmuView) -> (CPU, MmuView, Result<u64, ExecError>) {
        let (c, m, r) = cpu.stepped(mmu);
        match r {
            Ok(n) => (c, m.tick(n as nat), r),
            Err(_) => (c, m, r),
        }
    }

    /// The CPU and the memory after `n` steps, or after the first step that
    /// failed, with the reason of the failure.
    pub open spec fn ran(cpu: CPU, mmu: MmuView, n: nat) -> (CPU, MmuView, Result<(), ExecError>)
        decreases n,
    {
        if n == 0 {
            (cpu, mmu, Ok(()))
        } else {
            let (c, m, r) = Machine::stepped(cpu, mmu);
            match r {
                Err(e) => (c, m, Err(e)),
                Ok(_) => Machine::ran(c, m, (n - 1) as nat),
            }
        }
    }

    /// Builds a machine from a cartridge image and, if there is one, a boot
    /// ROM image. With a boot ROM the CPU starts at address 0 with the boot
    /// ROM mapped; without one it starts in the state in which a boot ROM
    /// would have left it. The result is an error exactly when the image
    /// makes no cartridge.
    pub fn new(cartridge: Vec<u8>, bootrom: Option<Vec<u8>>) -> (r: Result<Machine, CartridgeError>)
        ensures
            r is Ok <==> CartridgeView::load(cartridge@) is Ok,
            r is Err ==> r->Err_0 == CartridgeView::load(cartridge@)->Err_0,
            r is Ok ==> r->Ok_0.wf() && (r->Ok_0.cpu, r->Ok_0.mmu@) == Machine::power_on(
                CartridgeView::load(cartridge@)->Ok_0,
                match bootrom {
                    Some(bytes) => Some(bytes@),
                    None => None,
                },
            ),
    {
        let bp = bootrom.is_some();
        let mmu = match MMU::new(bootrom, cartridge) {
            Ok(m) => m,
            Err(e) => {
                return Err(e);
            },
        };
        let mut m = Machine { cpu: CPU::new(), mmu };
        if !bp {
            m.cpu.no_boot(&mut m.mmu);
        }
        Ok(m)
    }

    /// Makes one step: the CPU serves an interrupt or executes an
    /// instruction, then the PPU and the timer run for the T-cycles that
    /// this took. Gives those T-cycles, or the reason why the CPU could not
    /// go on.
    pub fn step(&mut self) -> (r: Result<u64, ExecError>)
        requires
            old(self).wf(),
        ensures
            (final(self).cpu, final(self).mmu@, r) == Machine::stepped(old(self).cpu, old(self).mmu@),
            final(self).wf(),
    {
        let r = self.cpu.step(&mut self.mmu);
        match r {
            Ok(cpu_ticks) => {
                self.mmu.tick(cpu_ticks);
            },
            Err(_) => {},
        }
        r
    }

    /// Makes up to `steps` steps and stops at the first that fails.
    pub fn run(&mut self, steps: u64) -> (r: Result<(), ExecError>)
        requires
            old(self).wf(),
        ensures
            (final(self).cpu, final(self).mmu@, r) == Machine::ran(old(self).cpu, old(self).mmu@, steps as nat),
            final(self).wf(),
    {
        let mut left: u64 = steps;
        while left > 0
            invariant
                self.wf(),
                Machine::ran(self.cpu, self.mmu@, left as nat) == Machine::ran(
                    old(self).cpu,
                    old(self).mmu@,
                    steps as nat,
                ),
            decreases left,
        {
            match self.step() {
                Ok(_) => {},
                Err(e) => {
                    return Err(e);
                },
            }
            left = left - 1;
        }
        Ok(())
    }

    /// The frame buffer.
    pub fn frame_buffer(&self) -> (r: &Screen)
        requires
            self.wf(),
        ensures
            r@ == self.mmu@.ppu.screen,
            r.wf(),
            forall|i: int| 0 <= i < 160 * 144 ==> (#[trigger] r@[i]).is_shade(),
    {
        proof {
            self.mmu.lemma_wf();
        }
        self.mmu.ppu().screen()
    }

    /// Holds a key down or lets it go.
    pub fn set_key(&mut self, key: Key, pressed: bool)
        requires
            old(self).wf(),
        ensures
            final(self).cpu == old(self).cpu,
            final(self).mmu@ == old(self).mmu@.with_key(key, pressed),
            final(self).wf(),
    {
        self.mmu.set_key(key, pressed);
    }
}

/// A halted CPU for which no enabled interrupt is requested idles: its step
/// takes 4 T-cycles, in which only the PPU and the timer move on, and it
/// stays halted.
pub proof fn lemma_idle_step(cpu: CPU, mmu: MmuView)
    requires
        mmu.wf(),
        cpu.halted,
        mmu.ier.both(mmu.ifr()).none(),
    ensures
        Machine::stepped(cpu, mmu) == (cpu.serviced(mmu).0, mmu.tick(4), Ok::<u64, ExecError>(4)),
        Machine::stepped(cpu, mmu).0.halted,
        Machine::stepped(cpu, mmu).0.regs == cpu.regs,
        Machine::stepped(cpu, mmu).0.pc == cpu.pc,
        Machine::stepped(cpu, mmu).1.ppu == mmu.ppu.advance(4),
        Machine::stepped(cpu, mmu).1.timer == mmu.timer.advance(4),
{
    cpu::laws::lemma_nothing_to_serve(cpu, mmu);
}

/// A halted CPU with no interrupt enabled idles for ever: `k` steps take
/// `4 * k` T-cycles, in which only the PPU and the timer move on.
pub proof fn lemma_idle_run(cpu: CPU, mmu: MmuView, k: nat)
    requires
        mmu.wf(),
        cpu.halted,
        mmu.ier.none(),
    ensures
        Machine::ran(cpu, mmu, k).2 is Ok,
        Machine::ran(cpu, mmu, k).0.halted,
        Machine::ran(cpu, mmu, k).1 == mmu.tick(4 * k),
        Machine::ran(cpu, mmu, k).1.wf(),
    decreases k,
{
    ppu::laws::lemma_advance_keeps_time(mmu.ppu, 0);
    if k > 0 {
        lemma_idle_step(cpu, mmu);
        let (c, m, r) = Machine::stepped(cpu, mmu);
        ppu::laws::lemma_advance_keeps_time(mmu.ppu, 4);
        lemma_idle_run(c, m, (k - 1) as nat);
        ppu::laws::lemma_advance_adds(mmu.ppu, 4, (4 * (k - 1)) as nat);
        timer::lemma_timer_advance_adds(mmu.timer, 4, (4 * (k - 1)) as nat);
        assert(m.tick((4 * (k - 1)) as nat) == mmu.tick(4 * k));
    } else {
        assert(mmu.timer.advance(0) == mmu.timer);
        assert(mmu.tick(0) == mmu);
    }
}

/// Under an idle CPU a frame takes exactly 70224 T-cycles. From the moment
/// the vertical blank has begun and its request in `IF` has been taken back,
/// the request is raised again by the idle step that completes 70224
/// T-cycles, which is step 17556, and by none before it.
pub proof fn lemma_idle_frame(cpu: CPU, mmu: MmuView, k: nat)
    requires
        mmu.wf(),
        cpu.halted,
        mmu.ier.none(),
        mmu.ppu.position() == 65664,
        !mmu.ifr().vblank,
    ensures
        Machine::ran(cpu, mmu, k).1.ifr().vblank == (4 * k >= 70224),
        Machine::ran(cpu, mmu, k).1.ifr().vblank == (k >= 17556),
{
    lemma_idle_run(cpu, mmu, k);
    ppu::laws::lemma_frame_period(mmu.ppu, 4 * k);
}

/// Every step of the machine, and so every run, leaves a well-formed
/// machine well-formed.
pub proof fn lemma_run_keeps_wf(cpu: CPU, mmu: MmuView, n: nat)
    requires
        mmu.wf(),
    ensures
        Machine::stepped(cpu, mmu).1.wf(),
        Machine::ran(cpu, mmu, n).1.wf(),
    decreases n,
{
    cpu::laws::lemma_step_keeps_wf(cpu, mmu);
    let (c, m, r) = cpu.stepped(mmu);
    if r is Ok {
        mmu::laws::lemma_tick_keeps_wf(m, r->Ok_0 as nat);
    }
    if n > 0 {
        let (c1, m1, r1) = Machine::stepped(cpu, mmu);
        if r1 is Ok {
            lemma_run_keeps_wf(c1, m1, (n - 1) as nat);
        }
    }
}

} // verus!
