//! The joypad register at 0xff00: two select lines written by the CPU and
//! four key lines, all active-low.

use crate::util::{byte_of, get_nth_bit, nth_bit, pack_bits};
use vstd::prelude::*;

verus! {

pub const REG_JOYPAD: u16 = 0xff00;

/// The eight keys.
#[derive(Clone, Copy, Debug, PartialEq, Eq, Structural)]
pub enum Key {
    Down,
    Up,
    Left,
    Right,
    Start,
    Select,
    ButtonA,
    ButtonB,
}

impl Key {
    /// Whether the key is one of the four directions.
    pub open spec fn is_direction(self) -> bool {
        self == Key::Down || self == Key::Up || self == Key::Left || self == Key::Right
    }

    /// The key line, 3 to 0, on which the key is read.
    pub open spec fn line(self) -> u8 {
        match self {
            Key::Down | Key::Start => 3,
            Key::Up | Key::Select => 2,
            Key::Left | Key::ButtonB => 1,
            Key::Right | Key::ButtonA => 0,
        }
    }
}

/// The joypad: which group of keys is selected, which keys are held down, and
/// whether an interrupt is requested.
#[derive(Clone, Copy, Debug, PartialEq, Eq, Structural)]
pub struct Joypad {
    /// Bit 5 of the register: low selects the buttons.
    pub select_button: bool,
    /// Bit 4 of the register: low selects the directions.
    pub select_dir: bool,
    pub down: bool,
    pub up: bool,
    pub left: bool,
    pub right: bool,
    pub start: bool,
    pub select: bool,
    pub button_a: bool,
    pub button_b: bool,
    /// A joypad interrupt is requested: bit 4 of `IF`.
    pub interrupt: bool,
}

impl Default for Joypad {
    /// No group selected, no key held down, nothing requested.
    fn default() -> (r: Joypad)
        ensures
            r == (Joypad {
                select_button: true,
                select_dir: true,
                down: false,
                up: false,
                left: false,
                right: false,
                start: false,
                select: false,
                button_a: false,
                button_b: false,
                interrupt: false,
            }),
            r.register() == 0xff,
    {
        Joypad {
            select_button: true,
            select_dir: true,
            down: false,
            up: false,
            left: false,
            right: false,
            start: false,
            select: false,
            button_a: false,
            button_b: false,
            interrupt: false,
        }
    }
}

impl Joypad {
    /// Whether a key is held down.
    pub open spec fn pressed(self, key: Key) -> bool {
        match key {
            Key::Down => self.down,
            Key::Up => self.up,
            Key::Left => self.left,
            Key::Right => self.right,
            Key::Start => self.start,
            Key::Select => self.select,
            Key::ButtonA => self.button_a,
            Key::ButtonB => self.button_b,
        }
    }

    /// Bit 5 of the register as last written.
    pub open spec fn button_line(self) -> bool {
        self.select_button
    }

    /// Bit 4 of the register as last written.
    pub open spec fn direction_line(self) -> bool {
        self.select_dir
    }

    /// The directions are selected: bit 4 is low.
    pub open spec fn directions_selected(self) -> bool {
        !self.direction_line()
    }

    /// The buttons are selected: bit 5 is low.
    pub open spec fn buttons_selected(self) -> bool {
        !self.button_line()
    }

    /// Whether the group of a key is selected.
    pub open spec fn group_selected(self, key: Key) -> bool {
        if key.is_direction() {
            self.directions_selected()
        } else {
            self.buttons_selected()
        }
    }

    /// A key line as the register shows it: low when a key of a selected
    /// group on that line is held down.
    pub open spec fn line_high(self, n: u8) -> bool {
        let (dir, button) = if n == 3 {
            (Key::Down, Key::Start)
        } else if n == 2 {
            (Key::Up, Key::Select)
        } else if n == 1 {
            (Key::Left, Key::ButtonB)
        } else {
            (Key::Right, Key::ButtonA)
        };
        !((self.directions_selected() && self.pressed(dir)) || (self.buttons_selected() && self.pressed(
            button,
        )))
    }

    /// The register: bits 7 and 6 read as one, bits 5 and 4 are the select
    /// lines, bits 3 to 0 the key lines.
    pub open spec fn register(self) -> u8 {
        byte_of(
            true,
            true,
            self.button_line(),
            self.direction_line(),
            self.line_high(3),
            self.line_high(2),
            self.line_high(1),
            self.line_high(0),
        )
    }

    /// The joypad with one key held down or let go.
    pub open spec fn with_key(self, key: Key, held: bool) -> Joypad {
        match key {
            Key::Down => Joypad { down: held, ..self },
            Key::Up => Joypad { up: held, ..self },
            Key::Left => Joypad { left: held, ..self },
            Key::Right => Joypad { right: held, ..self },
            Key::Start => Joypad { start: held, ..self },
            Key::Select => Joypad { select: held, ..self },
            Key::ButtonA => Joypad { button_a: held, ..self },
            Key::ButtonB => Joypad { button_b: held, ..self },
        }
    }

    /// The joypad with the request flag replaced.
    pub open spec fn with_interrupt(self, on: bool) -> Joypad {
        Joypad { interrupt: on, ..self }
    }

    /// The joypad with the select lines replaced.
    pub open spec fn with_lines(self, button: bool, dir: bool) -> Joypad {
        Joypad { select_button: button, select_dir: dir, ..self }
    }

    /// The joypad with every key let go.
    pub open spec fn all_released(self) -> Joypad {
        Joypad {
            down: false,
            up: false,
            left: false,
            right: false,
            start: false,
            select: false,
            button_a: false,
            button_b: false,
            ..self
        }
    }

    /// Lets every key go.
    pub fn reset_all(&mut self)
        ensures
            *final(self) == old(self).all_released(),
    {
        self.down = false;
        self.up = false;
        self.left = false;
        self.right = false;
        self.start = false;
        self.select = false;
        self.button_a = false;
        self.button_b = false;
    }

    /// Whether a key is held down.
    pub fn is_pressed(&self, key: Key) -> (r: bool)
        ensures
            r == self.pressed(key),
    {
        match key {
            Key::Down => self.down,
            Key::Up => self.up,
            Key::Left => self.left,
            Key::Right => self.right,
            Key::Start => self.start,
            Key::Select => self.select,
            Key::ButtonA => self.button_a,
            Key::ButtonB => self.button_b,
        }
    }

    fn store(&mut self, key: Key, held: bool)
        ensures
            *final(self) == old(self).with_key(key, held),
    {
        match key {
            Key::Down => self.down = held,
            Key::Up => self.up = held,
            Key::Left => self.left = held,
            Key::Right => self.right = held,
            Key::Start => self.start = held,
            Key::Select => self.select = held,
            Key::ButtonA => self.button_a = held,
            Key::ButtonB => self.button_b = held,
        }
    }

    /// The state of key line `n` as the register shows it.
    pub fn line(&self, n: u8) -> (r: bool)
        requires
            n < 4,
        ensures
            r == self.line_high(n),
    {
        let (dir, button) = if n == 3 {
            (self.down, self.start)
        } else if n == 2 {
            (self.up, self.select)
        } else if n == 1 {
            (self.left, self.button_b)
        } else {
            (self.right, self.button_a)
        };
        !((self.is_dir() && dir) || (self.is_button() && button))
    }

    /// Holds a key down. If its line falls by that (the key's group is
    /// selected and the line was high), the joypad interrupt is requested.
    pub fn set(&mut self, key: Key)
        ensures
            *final(self) == old(self).with_key(key, true).with_interrupt(
                old(self).interrupt || (old(self).group_selected(key) && old(self).line_high(key.line())),
            ),
            !final(self).group_selected(key) || !final(self).line_high(key.line()),
    {
        let n: u8 = match key {
            Key::Down | Key::Start => 3,
            Key::Up | Key::Select => 2,
            Key::Left | Key::ButtonB => 1,
            Key::Right | Key::ButtonA => 0,
        };
        let selected = match key {
            Key::Down | Key::Up | Key::Left | Key::Right => self.is_dir(),
            _ => self.is_button(),
        };
        let falls = selected && self.line(n);
        self.store(key, true);
        if falls {
            self.interrupt = true;
        }
    }

    /// Lets a key go.
    pub fn release(&mut self, key: Key)
        ensures
            *final(self) == old(self).with_key(key, false),
    {
        self.store(key, false);
    }

    /// Whether the directions are selected.
    pub fn is_dir(&self) -> (r: bool)
        ensures
            r == self.directions_selected(),
    {
        !self.select_dir
    }

    /// Whether the buttons are selected.
    pub fn is_button(&self) -> (r: bool)
        ensures
            r == self.buttons_selected(),
    {
        !self.select_button
    }

    /// A write to the register: bits 5 and 4 become the select lines, the
    /// other bits are ignored.
    pub fn write_reg(&mut self, value: u8)
        ensures
            *final(self) == old(self).with_lines(nth_bit(value, 5), nth_bit(value, 4)),
    {
        self.select_button = get_nth_bit(value, 5);
        self.select_dir = get_nth_bit(value, 4);
    }

    /// The register as the bus reads it.
    pub fn read(&self) -> (r: u8)
        ensures
            r == self.register(),
            r >= 0xc0,
    {
        pack_bits(
            true,
            true,
            !self.is_button(),
            !self.is_dir(),
            self.line(3),
            self.line(2),
            self.line(1),
            self.line(0),
        )
    }
}

} // verus!
