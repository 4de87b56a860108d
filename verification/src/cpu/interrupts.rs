//! The five interrupt sources and the byte registers `IE` and `IF` that hold
//! one bit for each.

use crate::util::{byte_of, get_nth_bit, lemma_bits_of_byte, lemma_byte_of_bits, nth_bit, pack_bits};
use vstd::prelude::*;
use vstd::std_specs::convert::FromSpecImpl;

verus! {

/// An interrupt source. The order of the variants is the order of priority.
#[derive(Clone, Copy, Debug, PartialEq, Eq, Structural)]
pub enum Interrupt {
    VBlank,
    LCDStat,
    Timer,
    Serial,
    Joypad,
}

impl Interrupt {
    /// The bit of `IE` and `IF` that stands for this source.
    pub open spec fn bit(self) -> u8 {
        match self {
            Interrupt::VBlank => 0,
            Interrupt::LCDStat => 1,
            Interrupt::Timer => 2,
            Interrupt::Serial => 3,
            Interrupt::Joypad => 4,
        }
    }

    /// The address of the service routine: `0x40 + 8 * bit`.
    pub open spec fn vector_of(self) -> u16 {
        match self {
            Interrupt::VBlank => 0x40,
            Interrupt::LCDStat => 0x48,
            Interrupt::Timer => 0x50,
            Interrupt::Serial => 0x58,
            Interrupt::Joypad => 0x60,
        }
    }

    /// The address of the service routine of this source.
    pub fn vector(self) -> (r: u16)
        ensures
            r == self.vector_of(),
            r == 0x40 + 8 * self.bit(),
    {
        match self {
            Interrupt::VBlank => 0x40,
            Interrupt::LCDStat => 0x48,
            Interrupt::Timer => 0x50,
            Interrupt::Serial => 0x58,
            Interrupt::Joypad => 0x60,
        }
    }
}

/// One flag for each interrupt source: the content of `IE` or of `IF`.
#[derive(Clone, Copy, Debug, PartialEq, Eq, Structural)]
pub struct Interrupts {
    pub vblank: bool,
    pub lcd_stat: bool,
    pub timer: bool,
    pub serial: bool,
    pub joypad: bool,
}

impl Interrupts {
    /// The flags held in bits 0 to 4 of a byte.
    pub open spec fn unpack(value: u8) -> Interrupts {
        Interrupts {
            vblank: nth_bit(value, 0),
            lcd_stat: nth_bit(value, 1),
            timer: nth_bit(value, 2),
            serial: nth_bit(value, 3),
            joypad: nth_bit(value, 4),
        }
    }

    /// The byte with the flags in bits 0 to 4 and bits 5 to 7 zero.
    pub open spec fn pack(self) -> u8 {
        byte_of(false, false, false, self.joypad, self.serial, self.timer, self.lcd_stat, self.vblank)
    }

    /// Whether the flag of a source is set.
    pub open spec fn has(self, i: Interrupt) -> bool {
        match i {
            Interrupt::VBlank => self.vblank,
            Interrupt::LCDStat => self.lcd_stat,
            Interrupt::Timer => self.timer,
            Interrupt::Serial => self.serial,
            Interrupt::Joypad => self.joypad,
        }
    }

    /// The flags with that of one source replaced.
    pub open spec fn with(self, i: Interrupt, on: bool) -> Interrupts {
        match i {
            Interrupt::VBlank => Interrupts { vblank: on, ..self },
            Interrupt::LCDStat => Interrupts { lcd_stat: on, ..self },
            Interrupt::Timer => Interrupts { timer: on, ..self },
            Interrupt::Serial => Interrupts { serial: on, ..self },
            Interrupt::Joypad => Interrupts { joypad: on, ..self },
        }
    }

    /// The sources flagged in both.
    pub open spec fn both(self, rhs: Interrupts) -> Interrupts {
        Interrupts {
            vblank: self.vblank && rhs.vblank,
            lcd_stat: self.lcd_stat && rhs.lcd_stat,
            timer: self.timer && rhs.timer,
            serial: self.serial && rhs.serial,
            joypad: self.joypad && rhs.joypad,
        }
    }

    /// Whether no source is flagged.
    pub open spec fn none(self) -> bool {
        !self.vblank && !self.lcd_stat && !self.timer && !self.serial && !self.joypad
    }

    /// The flagged source of highest priority, if any.
    pub open spec fn first(self) -> Option<Interrupt> {
        if self.vblank {
            Some(Interrupt::VBlank)
        } else if self.lcd_stat {
            Some(Interrupt::LCDStat)
        } else if self.timer {
            Some(Interrupt::Timer)
        } else if self.serial {
            Some(Interrupt::Serial)
        } else if self.joypad {
            Some(Interrupt::Joypad)
        } else {
            None
        }
    }

    /// Sets the flag of a source.
    pub fn set(&mut self, i: Interrupt)
        ensures
            *final(self) == old(self).with(i, true),
    {
        match i {
            Interrupt::VBlank => self.vblank = true,
            Interrupt::LCDStat => self.lcd_stat = true,
            Interrupt::Timer => self.timer = true,
            Interrupt::Serial => self.serial = true,
            Interrupt::Joypad => self.joypad = true,
        }
    }

    /// Clears the flag of a source.
    pub fn unset(&mut self, i: Interrupt)
        ensures
            *final(self) == old(self).with(i, false),
    {
        match i {
            Interrupt::VBlank => self.vblank = false,
            Interrupt::LCDStat => self.lcd_stat = false,
            Interrupt::Timer => self.timer = false,
            Interrupt::Serial => self.serial = false,
            Interrupt::Joypad => self.joypad = false,
        }
    }

    /// Inverts the flag of a source.
    pub fn toggle(&mut self, i: Interrupt)
        ensures
            *final(self) == old(self).with(i, !old(self).has(i)),
    {
        match i {
            Interrupt::VBlank => self.vblank = !self.vblank,
            Interrupt::LCDStat => self.lcd_stat = !self.lcd_stat,
            Interrupt::Timer => self.timer = !self.timer,
            Interrupt::Serial => self.serial = !self.serial,
            Interrupt::Joypad => self.joypad = !self.joypad,
        }
    }

    /// The sources flagged both in `self` and in `rhs`.
    pub fn bitand(self, rhs: Interrupts) -> (r: Interrupts)
        ensures
            r == self.both(rhs),
            forall|i: Interrupt| r.has(i) == (self.has(i) && rhs.has(i)),
    {
        Interrupts {
            vblank: self.vblank && rhs.vblank,
            lcd_stat: self.lcd_stat && rhs.lcd_stat,
            timer: self.timer && rhs.timer,
            serial: self.serial && rhs.serial,
            joypad: self.joypad && rhs.joypad,
        }
    }

    /// The flagged source of highest priority: the one with the lowest bit.
    /// `None` exactly when no source is flagged.
    pub fn next_interrupt(self) -> (r: Option<Interrupt>)
        ensures
            r == self.first(),
            r is None <==> self.none(),
            r is Some ==> self.has(r->0) && forall|j: Interrupt| self.has(j) ==> r->0.bit() <= j.bit(),
    {
        if self.vblank {
            return Some(Interrupt::VBlank);
        }
        if self.lcd_stat {
            return Some(Interrupt::LCDStat);
        }
        if self.timer {
            return Some(Interrupt::Timer);
        }
        if self.serial {
            return Some(Interrupt::Serial);
        }
        if self.joypad {
            return Some(Interrupt::Joypad);
        }
        None
    }

    /// The register as the bus reads it.
    pub fn readu8(&self) -> (r: u8)
        ensures
            r == self.pack(),
    {
        u8::from(*self)
    }

    /// Stores a byte written over the bus: bits 0 to 4 are kept.
    pub fn writeu8(&mut self, value: u8)
        ensures
            *final(self) == Interrupts::unpack(value),
    {
        *self = Interrupts::from(value);
    }
}

impl Default for Interrupts {
    fn default() -> (r: Interrupts)
        ensures
            r.none(),
    {
        Interrupts { vblank: false, lcd_stat: false, timer: false, serial: false, joypad: false }
    }
}

impl From<u8> for Interrupts {
    fn from(value: u8) -> (r: Interrupts) {
        Interrupts {
            vblank: get_nth_bit(value, 0),
            lcd_stat: get_nth_bit(value, 1),
            timer: get_nth_bit(value, 2),
            serial: get_nth_bit(value, 3),
            joypad: get_nth_bit(value, 4),
        }
    }
}

impl FromSpecImpl<u8> for Interrupts {
    open spec fn obeys_from_spec() -> bool {
        true
    }

    open spec fn from_spec(value: u8) -> Interrupts {
        Interrupts::unpack(value)
    }
}

impl From<Interrupts> for u8 {
    fn from(value: Interrupts) -> (r: u8) {
        pack_bits(false, false, false, value.joypad, value.serial, value.timer, value.lcd_stat, value.vblank)
    }
}

impl FromSpecImpl<Interrupts> for u8 {
    open spec fn obeys_from_spec() -> bool {
        true
    }

    open spec fn from_spec(value: Interrupts) -> u8 {
        value.pack()
    }
}

/// Packing the flags and unpacking the byte gives the flags back, and the
/// packed byte is below 32.
pub proof fn lemma_interrupts_unpack_pack(i: Interrupts)
    ensures
        Interrupts::unpack(i.pack()) == i,
        i.pack() < 32,
        i.pack() == 0 <==> i.none(),
{
    lemma_bits_of_byte(false, false, false, i.joypad, i.serial, i.timer, i.lcd_stat, i.vblank);
}

/// Unpacking a byte and packing the flags keeps bits 0 to 4.
pub proof fn lemma_interrupts_pack_unpack(v: u8)
    ensures
        Interrupts::unpack(v).pack() == v % 32,
{
    lemma_byte_of_bits(v);
}

} // verus!
