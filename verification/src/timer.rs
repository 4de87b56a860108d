//! The timer: a free-running 16-bit counter whose upper byte is `DIV`, and
//! `TIMA`, which counts the falling edges of one bit of that counter.

use crate::util::{byte_of, get_nth_bit, lemma_bits_of_byte, nth_bit, pack_bits, wrap16};
use vstd::prelude::*;
use vstd::std_specs::convert::FromSpecImpl;

verus! {

pub const REG_DIV: u16 = 0xff04;

pub const REG_TIMA: u16 = 0xff05;

pub const REG_TMA: u16 = 0xff06;

pub const REG_TAC: u16 = 0xff07;

/// The two low bits of `TAC`: which bit of the counter drives `TIMA`.
#[derive(Clone, Copy, Debug, PartialEq, Eq, Structural)]
pub enum Select {
    Zero,
    One,
    Two,
    Three,
}

impl Select {
    /// The selection coded by two bits.
    pub open spec fn of(b1: bool, b0: bool) -> Select {
        if b1 {
            if b0 {
                Select::Three
            } else {
                Select::Two
            }
        } else {
            if b0 {
                Select::One
            } else {
                Select::Zero
            }
        }
    }

    /// Bit 1 of the code of this selection.
    pub open spec fn high(self) -> bool {
        self == Select::Two || self == Select::Three
    }

    /// Bit 0 of the code of this selection.
    pub open spec fn low(self) -> bool {
        self == Select::One || self == Select::Three
    }

    /// The bit of the counter that this selection watches: 9, 3, 5 or 7.
    pub open spec fn counter_bit(self) -> u16 {
        match self {
            Select::Zero => 9,
            Select::One => 3,
            Select::Two => 5,
            Select::Three => 7,
        }
    }

    /// The bit of the counter that this selection watches.
    pub fn bit(self) -> (r: u16)
        ensures
            r == self.counter_bit(),
            r < 16,
    {
        match self {
            Select::Zero => 9,
            Select::One => 3,
            Select::Two => 5,
            Select::Three => 7,
        }
    }
}

/// The timer control register `TAC`: enable in bit 2, clock select in bits 1
/// and 0.
#[derive(Clone, Copy, Debug, PartialEq, Eq, Structural)]
pub struct TimerControl {
    pub enable: bool,
    pub select: Select,
}

impl TimerControl {
    /// The control held in the three low bits of a byte.
    pub open spec fn unpack(value: u8) -> TimerControl {
        TimerControl { enable: nth_bit(value, 2), select: Select::of(nth_bit(value, 1), nth_bit(value, 0)) }
    }

    /// The byte with the control in its three low bits and the others zero.
    pub open spec fn pack(self) -> u8 {
        byte_of(false, false, false, false, false, self.enable, self.select.high(), self.select.low())
    }
}

impl From<u8> for TimerControl {
    fn from(value: u8) -> (r: TimerControl) {
        let enable = get_nth_bit(value, 2);
        let b1 = get_nth_bit(value, 1);
        let b0 = get_nth_bit(value, 0);
        let select = if b1 {
            if b0 {
                Select::Three
            } else {
                Select::Two
            }
        } else {
            if b0 {
                Select::One
            } else {
                Select::Zero
            }
        };
        TimerControl { enable, select }
    }
}

impl FromSpecImpl<u8> for TimerControl {
    open spec fn obeys_from_spec() -> bool {
        true
    }

    open spec fn from_spec(value: u8) -> TimerControl {
        TimerControl::unpack(value)
    }
}

impl From<TimerControl> for u8 {
    fn from(value: TimerControl) -> (r: u8) {
        let (b1, b0) = match value.select {
            Select::Zero => (false, false),
            Select::One => (false, true),
            Select::Two => (true, false),
            Select::Three => (true, true),
        };
        pack_bits(false, false, false, false, false, value.enable, b1, b0)
    }
}

impl FromSpecImpl<TimerControl> for u8 {
    open spec fn obeys_from_spec() -> bool {
        true
    }

    open spec fn from_spec(value: TimerControl) -> u8 {
        value.pack()
    }
}

/// Packing a timer control and unpacking the byte gives the control back.
pub proof fn lemma_timer_control_unpack_pack(tc: TimerControl)
    ensures
        TimerControl::unpack(tc.pack()) == tc,
{
    lemma_bits_of_byte(false, false, false, false, false, tc.enable, tc.select.high(), tc.select.low());
}

/// The state of the timer.
#[derive(Clone, Copy, Debug, PartialEq, Eq, Structural)]
pub struct Timer {
    /// The free-running counter; `DIV` is its upper byte.
    pub divider: u16,
    /// `TIMA`.
    pub counter: u8,
    /// `TMA`, the value that `TIMA` restarts from.
    pub tm: u8,
    /// `TAC`.
    pub tc: TimerControl,
    /// The watched signal as it was when last looked at.
    pub prev_and_res: bool,
    /// A timer interrupt is requested: bit 2 of `IF`.
    pub interrupt: bool,
}

impl Default for Timer {
    /// A stopped timer: every register zero, nothing requested.
    fn default() -> (r: Timer)
        ensures
            r == (Timer {
                divider: 0,
                counter: 0,
                tm: 0,
                tc: TimerControl { enable: false, select: Select::Zero },
                prev_and_res: false,
                interrupt: false,
            }),
            r.settled(),
    {
        Timer {
            divider: 0,
            counter: 0,
            tm: 0,
            tc: TimerControl { enable: false, select: Select::Zero },
            prev_and_res: false,
            interrupt: false,
        }
    }
}

impl Timer {
    /// The watched signal: the selected bit of the counter, ANDed with the
    /// enable bit of `TAC`.
    pub open spec fn and_result(self) -> bool {
        self.tc.enable && (self.divider >> self.tc.select.counter_bit()) & 1 == 1
    }

    /// The last look at the signal saw it as it is now.
    pub open spec fn settled(self) -> bool {
        self.prev_and_res == self.and_result()
    }

    /// Looks at the signal. If it fell since the last look, `TIMA` counts one
    /// up; from 0xff it restarts at `TMA` and the interrupt is requested.
    pub open spec fn settle(self) -> Timer {
        let now = self.and_result();
        if self.prev_and_res && !now {
            if self.counter == 0xff {
                Timer { counter: self.tm, interrupt: true, prev_and_res: now, ..self }
            } else {
                Timer { counter: (self.counter + 1) as u8, prev_and_res: now, ..self }
            }
        } else {
            Timer { prev_and_res: now, ..self }
        }
    }

    /// The timer one T-cycle later.
    pub open spec fn step(self) -> Timer {
        (Timer { divider: wrap16(self.divider + 1), ..self }).settle()
    }

    /// The timer `n` T-cycles later.
    pub open spec fn advance(self, n: nat) -> Timer
        decreases n,
    {
        if n == 0 {
            self
        } else {
            self.step().advance((n - 1) as nat)
        }
    }

    /// The watched signal as it is now.
    pub fn signal(&self) -> (r: bool)
        ensures
            r == self.and_result(),
    {
        let bit = self.tc.select.bit();
        self.tc.enable && ((self.divider >> bit) & 1) == 1
    }

    /// Looks at the signal and counts a falling edge.
    pub fn detect_edge(&mut self)
        ensures
            *final(self) == old(self).settle(),
            final(self).settled(),
    {
        let now = self.signal();
        if self.prev_and_res && !now {
            if self.counter == 0xff {
                self.counter = self.tm;
                self.interrupt = true;
            } else {
                self.counter = self.counter + 1;
            }
        }
        self.prev_and_res = now;
    }

    /// `DIV`: the upper byte of the counter.
    pub fn read_divider(&self) -> (r: u8)
        ensures
            r == self.divider / 256,
    {
        crate::util::msb(self.divider)
    }

    /// A write to `DIV`: whatever the value, the counter restarts at zero. If
    /// the watched signal falls by that, `TIMA` counts.
    pub fn write_divider(&mut self, _val: u8)
        ensures
            *final(self) == (Timer { divider: 0, ..*old(self) }).settle(),
            final(self).settled(),
    {
        self.divider = 0;
        self.detect_edge();
    }

    /// `TIMA`.
    pub fn read_counter(&self) -> (r: u8)
        ensures
            r == self.counter,
    {
        self.counter
    }

    /// A write to `TIMA`.
    pub fn write_counter(&mut self, val: u8)
        ensures
            *final(self) == (Timer { counter: val, ..*old(self) }),
    {
        self.counter = val;
    }

    /// `TMA`.
    pub fn read_modulo(&self) -> (r: u8)
        ensures
            r == self.tm,
    {
        self.tm
    }

    /// A write to `TMA`.
    pub fn write_modulo(&mut self, val: u8)
        ensures
            *final(self) == (Timer { tm: val, ..*old(self) }),
    {
        self.tm = val;
    }

    /// `TAC`: the three low bits; the others read as zero.
    pub fn read_control(&self) -> (r: u8)
        ensures
            r == self.tc.pack(),
    {
        u8::from(self.tc)
    }

    /// A write to `TAC`: the control is stored, then the signal is looked at
    /// again, so that a falling edge made by the write counts.
    pub fn write_control(&mut self, val: u8)
        ensures
            *final(self) == (Timer { tc: TimerControl::unpack(val), ..*old(self) }).settle(),
            final(self).settled(),
    {
        self.tc = TimerControl::from(val);
        self.detect_edge();
    }

    /// Runs the timer for `cpu_ticks` T-cycles, one at a time.
    pub fn tick(&mut self, cpu_ticks: u64)
        ensures
            *final(self) == old(self).advance(cpu_ticks as nat),
            cpu_ticks > 0 ==> final(self).settled(),
            cpu_ticks == 0 ==> *final(self) == *old(self),
    {
        let mut left: u64 = cpu_ticks;
        while left > 0
            invariant
                self.advance(left as nat) == old(self).advance(cpu_ticks as nat),
                left < cpu_ticks ==> self.settled(),
                left == cpu_ticks ==> *self == *old(self),
                left <= cpu_ticks,
            decreases left,
        {
            self.divider = self.divider.wrapping_add(1);
            self.detect_edge();
            left = left - 1;
        }
    }
}

/// One T-cycle of a settled timer. `TIMA` changes exactly when the watched
/// signal falls: it then counts one up, and from 0xff it restarts at `TMA`
/// (not at zero) and the interrupt is requested. Nothing else but the counter
/// itself changes.
pub proof fn lemma_step_counts_falling_edges(t: Timer)
    requires
        t.settled(),
    ensures
        t.step().settled(),
        t.step().divider == wrap16(t.divider + 1),
        t.step().tm == t.tm,
        t.step().tc == t.tc,
        (t.and_result() && !t.step().and_result()) ==> {
            &&& t.counter < 0xff ==> t.step().counter == t.counter + 1 && t.step().interrupt == t.interrupt
            &&& t.counter == 0xff ==> t.step().counter == t.tm && t.step().interrupt
        },
        !(t.and_result() && !t.step().and_result()) ==> {
            &&& t.step().counter == t.counter
            &&& t.step().interrupt == t.interrupt
        },
{
}

/// A timer that is switched off only counts T-cycles: `TIMA` and the request
/// stay as they are.
pub proof fn lemma_disabled_timer_keeps_tima(t: Timer, n: nat)
    requires
        !t.tc.enable,
        t.settled(),
    ensures
        t.advance(n).counter == t.counter,
        t.advance(n).interrupt == t.interrupt,
        t.advance(n).tc == t.tc,
        t.advance(n).tm == t.tm,
        t.advance(n).divider == wrap16(t.divider + n),
        t.advance(n).settled(),
    decreases n,
{
    if n > 0 {
        lemma_disabled_timer_keeps_tima(t.step(), (n - 1) as nat);
    }
}

/// Running for `a` T-cycles and then for `b` is running for `a + b`.
pub proof fn lemma_timer_advance_adds(t: Timer, a: nat, b: nat)
    ensures
        t.advance(a).advance(b) == t.advance(a + b),
    decreases a,
{
    if a > 0 {
        lemma_timer_advance_adds(t.step(), (a - 1) as nat, b);
        assert(t.advance(a + b) == t.step().advance((a + b - 1) as nat));
    }
}

} // verus!
