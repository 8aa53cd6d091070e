//! The joypad: eight keys in two columns of four, read through one register.
//!
//! A write to the register selects the columns (a clear bit 4 selects the
//! directions, a clear bit 5 the buttons). On reading, each of the low four
//! bits is clear when a key of its row is held in a selected column.

use vstd::prelude::*;

verus! {

/// A key of the console.
#[derive(Clone, Copy, Debug, PartialEq, Eq)]
pub enum KeypadKey {
    Right,
    Left,
    Up,
    Down,
    A,
    B,
    Select,
    Start,
}

/// The state of the joypad.
#[derive(Clone, Copy, Debug, PartialEq, Eq)]
pub struct Joypad {
    pub right: bool,
    pub left: bool,
    pub up: bool,
    pub down: bool,
    pub a: bool,
    pub b: bool,
    pub select: bool,
    pub start: bool,
    /// The column of the directions is selected.
    pub directions: bool,
    /// The column of the buttons is selected.
    pub buttons: bool,
}

impl Joypad {
    /// No key held, both columns selected.
    pub open spec fn power_on() -> Joypad {
        Joypad {
            right: false,
            left: false,
            up: false,
            down: false,
            a: false,
            b: false,
            select: false,
            start: false,
            directions: true,
            buttons: true,
        }
    }

    /// Whether a key is held.
    pub open spec fn held(self, key: KeypadKey) -> bool {
        match key {
            KeypadKey::Right => self.right,
            KeypadKey::Left => self.left,
            KeypadKey::Up => self.up,
            KeypadKey::Down => self.down,
            KeypadKey::A => self.a,
            KeypadKey::B => self.b,
            KeypadKey::Select => self.select,
            KeypadKey::Start => self.start,
        }
    }

    /// Whether row `row` (0 to 3) is pulled low: a key of the row is held in
    /// a selected column.
    pub open spec fn row_low(self, row: int) -> bool {
        if row == 0 {
            self.directions && self.right || self.buttons && self.a
        } else if row == 1 {
            self.directions && self.left || self.buttons && self.b
        } else if row == 2 {
            self.directions && self.up || self.buttons && self.select
        } else {
            self.directions && self.down || self.buttons && self.start
        }
    }

    /// The row of a key.
    pub open spec fn row_of(key: KeypadKey) -> int {
        match key {
            KeypadKey::Right | KeypadKey::A => 0,
            KeypadKey::Left | KeypadKey::B => 1,
            KeypadKey::Up | KeypadKey::Select => 2,
            KeypadKey::Down | KeypadKey::Start => 3,
        }
    }

    /// What the register reads as: bits 7 and 6 set, bits 5 and 4 clear for
    /// a selected column, each of bits 3 to 0 clear for a row pulled low.
    pub open spec fn read_spec(self) -> u8 {
        (0xC0 + (if self.buttons { 0int } else { 0x20 }) + (if self.directions { 0int } else {
            0x10
        }) + (if self.row_low(3) { 0int } else { 8 }) + (if self.row_low(2) { 0int } else { 4 })
            + (if self.row_low(1) { 0int } else { 2 }) + (if self.row_low(0) { 0int } else {
            1
        })) as u8
    }

    /// The joypad after a write to the register: bits 5 and 4 of the value
    /// select the columns, the rest is ignored.
    pub open spec fn write_spec(self, v: u8) -> Joypad {
        Joypad { buttons: v / 32 % 2 == 0, directions: v / 16 % 2 == 0, ..self }
    }

    /// The joypad with a key held or released.
    pub open spec fn with_key(self, key: KeypadKey, held: bool) -> Joypad {
        match key {
            KeypadKey::Right => Joypad { right: held, ..self },
            KeypadKey::Left => Joypad { left: held, ..self },
            KeypadKey::Up => Joypad { up: held, ..self },
            KeypadKey::Down => Joypad { down: held, ..self },
            KeypadKey::A => Joypad { a: held, ..self },
            KeypadKey::B => Joypad { b: held, ..self },
            KeypadKey::Select => Joypad { select: held, ..self },
            KeypadKey::Start => Joypad { start: held, ..self },
        }
    }

    /// Whether pressing a key requests the joypad interrupt: it does when the
    /// key's row goes from high to low.
    pub open spec fn press_fires(self, key: KeypadKey) -> bool {
        !self.row_low(Joypad::row_of(key)) && self.with_key(key, true).row_low(
            Joypad::row_of(key),
        )
    }

    /// A held key shows in the register exactly when its column is selected:
    /// with only the other column selected, its row reads high unless a key
    /// of that column holds it low.
    pub proof fn lemma_column_selects(self, key: KeypadKey)
        requires
            self.held(key),
        ensures
            self.write_spec(0x20).row_low(Joypad::row_of(key)) || !(key == KeypadKey::Right
                || key == KeypadKey::Left || key == KeypadKey::Up || key == KeypadKey::Down),
            self.write_spec(0x10).row_low(Joypad::row_of(key)) || !(key == KeypadKey::A || key
                == KeypadKey::B || key == KeypadKey::Select || key == KeypadKey::Start),
            self.write_spec(0x30).read_spec() == 0xFF,
    {
    }

    /// The joypad in its power-on state.
    pub fn new() -> (j: Joypad)
        ensures
            j == Joypad::power_on(),
    {
        Joypad {
            right: false,
            left: false,
            up: false,
            down: false,
            a: false,
            b: false,
            select: false,
            start: false,
            directions: true,
            buttons: true,
        }
    }

    /// Reads the register.
    pub fn read(&self) -> (v: u8)
        ensures
            v == self.read_spec(),
    {
        let mut v: u8 = 0xC0;
        if !self.buttons {
            v = v + 0x20;
        }
        if !self.directions {
            v = v + 0x10;
        }
        if !(self.directions && self.down || self.buttons && self.start) {
            v = v + 8;
        }
        if !(self.directions && self.up || self.buttons && self.select) {
            v = v + 4;
        }
        if !(self.directions && self.left || self.buttons && self.b) {
            v = v + 2;
        }
        if !(self.directions && self.right || self.buttons && self.a) {
            v = v + 1;
        }
        v
    }

    /// Serves a write to the register.
    pub fn write(&mut self, v: u8)
        ensures
            *final(self) == old(self).write_spec(v),
    {
        self.buttons = v / 32 % 2 == 0;
        self.directions = v / 16 % 2 == 0;
    }

    /// Holds or releases a key.
    pub fn set_key(&mut self, key: KeypadKey, held: bool)
        ensures
            *final(self) == old(self).with_key(key, held),
    {
        match key {
            KeypadKey::Right => {
                self.right = held;
            },
            KeypadKey::Left => {
                self.left = held;
            },
            KeypadKey::Up => {
                self.up = held;
            },
            KeypadKey::Down => {
                self.down = held;
            },
            KeypadKey::A => {
                self.a = held;
            },
            KeypadKey::B => {
                self.b = held;
            },
            KeypadKey::Select => {
                self.select = held;
            },
            KeypadKey::Start => {
                self.start = held;
            },
        }
    }

    /// Whether the row of a key is pulled low.
    pub fn key_row_low(&self, key: KeypadKey) -> (b: bool)
        ensures
            b == self.row_low(Joypad::row_of(key)),
    {
        match key {
            KeypadKey::Right | KeypadKey::A => self.directions && self.right || self.buttons
                && self.a,
            KeypadKey::Left | KeypadKey::B => self.directions && self.left || self.buttons
                && self.b,
            KeypadKey::Up | KeypadKey::Select => self.directions && self.up || self.buttons
                && self.select,
            KeypadKey::Down | KeypadKey::Start => self.directions && self.down || self.buttons
                && self.start,
        }
    }

    /// Presses a key and says whether that requests the joypad interrupt.
    pub fn press(&mut self, key: KeypadKey) -> (fired: bool)
        ensures
            *final(self) == old(self).with_key(key, true),
            fired == old(self).press_fires(key),
    {
        let before: bool = self.key_row_low(key);
        self.set_key(key, true);
        !before && self.key_row_low(key)
    }

    /// Releases a key.
    pub fn release(&mut self, key: KeypadKey)
        ensures
            *final(self) == old(self).with_key(key, false),
    {
        self.set_key(key, false);
    }
}

} // verus!
