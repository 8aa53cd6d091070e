//! The interrupt controller: five lines, each with an enable bit and a
//! request bit, and the master-enable flag.
//!
//! A line is ready when both of its bits are set. Of the ready lines the one
//! with the lowest number is served first: V-Blank, LCD status, timer,
//! serial, joypad.

use vstd::prelude::*;
use crate::alu::{bit_is_set, clear_bit, clear_bit_spec, pow2, set_bit, set_bit_spec};

verus! {

/// An interrupt line, in order of priority.
#[derive(Clone, Copy, Debug, PartialEq, Eq)]
pub enum Interrupt {
    VBlank,
    LcdStat,
    Timer,
    Serial,
    Joypad,
}

impl Interrupt {
    /// The number of the line: its bit in the enable and request registers.
    pub open spec fn line(self) -> u8 {
        match self {
            Interrupt::VBlank => 0,
            Interrupt::LcdStat => 1,
            Interrupt::Timer => 2,
            Interrupt::Serial => 3,
            Interrupt::Joypad => 4,
        }
    }

    /// The address of the service routine: 0x40 plus eight times the line.
    pub open spec fn vector_spec(self) -> u16 {
        (0x40 + 8 * self.line()) as u16
    }

    /// The number of the line.
    pub fn index(self) -> (n: u8)
        ensures
            n == self.line(),
            n < 5,
    {
        match self {
            Interrupt::VBlank => 0,
            Interrupt::LcdStat => 1,
            Interrupt::Timer => 2,
            Interrupt::Serial => 3,
            Interrupt::Joypad => 4,
        }
    }

    /// The address of the service routine.
    pub fn vector(self) -> (a: u16)
        ensures
            a == self.vector_spec(),
    {
        match self {
            Interrupt::VBlank => 0x40,
            Interrupt::LcdStat => 0x48,
            Interrupt::Timer => 0x50,
            Interrupt::Serial => 0x58,
            Interrupt::Joypad => 0x60,
        }
    }
}

/// The state of the interrupt controller.
#[derive(Clone, Copy, Debug, PartialEq, Eq)]
pub struct Interrupts {
    /// The enable register, one bit per line.
    pub enable: u8,
    /// The request register, one bit per line.
    pub request: u8,
    /// The master-enable flag.
    pub master: bool,
    /// The enabling instruction has run and the master-enable flag is to be
    /// set once the instruction after it has been fetched.
    pub enabling: bool,
}

/// Whether bit `n` of `v` is set.
pub open spec fn has_bit(v: u8, n: u8) -> bool {
    v / pow2(n) % 2 == 1
}

impl Interrupts {
    /// Nothing enabled, nothing requested but V-Blank, master-enable off.
    pub open spec fn power_on() -> Interrupts {
        Interrupts { enable: 0, request: 1, master: false, enabling: false }
    }

    /// Whether a line is both enabled and requested.
    pub open spec fn ready(self, i: Interrupt) -> bool {
        has_bit(self.enable, i.line()) && has_bit(self.request, i.line())
    }

    /// The ready line of highest priority, if any line is ready.
    pub open spec fn next_spec(self) -> Option<Interrupt> {
        if self.ready(Interrupt::VBlank) {
            Some(Interrupt::VBlank)
        } else if self.ready(Interrupt::LcdStat) {
            Some(Interrupt::LcdStat)
        } else if self.ready(Interrupt::Timer) {
            Some(Interrupt::Timer)
        } else if self.ready(Interrupt::Serial) {
            Some(Interrupt::Serial)
        } else if self.ready(Interrupt::Joypad) {
            Some(Interrupt::Joypad)
        } else {
            None
        }
    }

    /// The controller with the request bit of a line set.
    pub open spec fn raise_spec(self, i: Interrupt) -> Interrupts {
        Interrupts { request: set_bit_spec(i.line(), self.request), ..self }
    }

    /// The controller with the request bit of a line set if `fired` holds.
    pub open spec fn raise_if_spec(self, fired: bool, i: Interrupt) -> Interrupts {
        if fired { self.raise_spec(i) } else { self }
    }

    /// The controller as serving a line leaves it: the request bit cleared,
    /// master-enable off.
    pub open spec fn serve_spec(self, i: Interrupt) -> Interrupts {
        Interrupts {
            request: clear_bit_spec(i.line(), self.request),
            master: false,
            enabling: false,
            ..self
        }
    }

    /// What the request register reads as: the five request bits, the upper
    /// three bits set.
    pub open spec fn read_request_spec(self) -> u8 {
        (self.request % 32 + 0xE0) as u8
    }

    /// A served line is no longer ready, and serving it leaves the other
    /// lines as they were.
    pub proof fn lemma_serve(self, i: Interrupt, j: Interrupt)
        ensures
            !self.serve_spec(i).ready(i),
            i != j ==> self.serve_spec(i).ready(j) == self.ready(j),
            !self.serve_spec(i).master,
    {
        lemma_bit_update(self.request, i.line(), j.line());
    }

    /// The line that is served next is ready, and no line before it is.
    pub proof fn lemma_next_is_highest(self, j: Interrupt)
        ensures
            self.next_spec() matches Some(i) ==> self.ready(i) && (self.ready(j) ==> i.line()
                <= j.line()),
            self.next_spec() is None ==> !self.ready(j),
    {
    }

    /// The controller in its power-on state.
    pub fn new() -> (s: Interrupts)
        ensures
            s == Interrupts::power_on(),
    {
        Interrupts { enable: 0, request: 1, master: false, enabling: false }
    }

    /// Whether line `i` is ready.
    pub fn is_ready(&self, i: Interrupt) -> (b: bool)
        ensures
            b == self.ready(i),
    {
        let n: u8 = i.index();
        bit_is_set(n, self.enable) && bit_is_set(n, self.request)
    }

    /// The ready line of highest priority.
    pub fn next(&self) -> (r: Option<Interrupt>)
        ensures
            r == self.next_spec(),
    {
        if self.is_ready(Interrupt::VBlank) {
            Some(Interrupt::VBlank)
        } else if self.is_ready(Interrupt::LcdStat) {
            Some(Interrupt::LcdStat)
        } else if self.is_ready(Interrupt::Timer) {
            Some(Interrupt::Timer)
        } else if self.is_ready(Interrupt::Serial) {
            Some(Interrupt::Serial)
        } else if self.is_ready(Interrupt::Joypad) {
            Some(Interrupt::Joypad)
        } else {
            None
        }
    }

    /// Sets the request bit of a line.
    pub fn raise(&mut self, i: Interrupt)
        ensures
            *final(self) == old(self).raise_spec(i),
    {
        self.request = set_bit(i.index(), self.request);
    }

    /// Sets the request bit of a line if `fired` holds.
    pub fn raise_if(&mut self, fired: bool, i: Interrupt)
        ensures
            *final(self) == old(self).raise_if_spec(fired, i),
    {
        if fired {
            self.raise(i);
        }
    }

    /// Clears the request bit of the line that is being served and turns
    /// master-enable off.
    pub fn serve(&mut self, i: Interrupt)
        ensures
            *final(self) == old(self).serve_spec(i),
    {
        self.request = clear_bit(i.index(), self.request);
        self.master = false;
        self.enabling = false;
    }

    /// Reads the request register.
    pub fn read_request(&self) -> (v: u8)
        ensures
            v == self.read_request_spec(),
    {
        self.request % 32 + 0xE0
    }
}

/// Setting or clearing bit `i` of a byte decides bit `i` and keeps every
/// other bit.
pub proof fn lemma_bit_update(v: u8, i: u8, j: u8)
    requires
        i < 8,
        j < 8,
    ensures
        has_bit(set_bit_spec(i, v), i),
        !has_bit(clear_bit_spec(i, v), i),
        i != j ==> has_bit(set_bit_spec(i, v), j) == has_bit(v, j),
        i != j ==> has_bit(clear_bit_spec(i, v), j) == has_bit(v, j),
{
    assert(pow2(i) == 1u8 << i && pow2(j) == 1u8 << j) by (bit_vector)
        requires
            i < 8,
            j < 8,
    ;
    let pi = pow2(i);
    let pj = pow2(j);
    assert({
        &&& (v / pi % 2 == 1 ==> v - pi >= 0)
        &&& (v / pi % 2 != 1 ==> v + pi <= 255)
        &&& ((v | pi) / pi % 2 == 1)
        &&& ((v & !pi) / pi % 2 != 1)
        &&& (v / pi % 2 == 1 ==> (v | pi) == v && (v & !pi) == (v - pi) as u8)
        &&& (v / pi % 2 != 1 ==> (v & !pi) == v && (v | pi) == (v + pi) as u8)
        &&& (i != j ==> ((v | pi) / pj % 2 == 1) == (v / pj % 2 == 1))
        &&& (i != j ==> ((v & !pi) / pj % 2 == 1) == (v / pj % 2 == 1))
    }) by (bit_vector)
        requires
            i < 8,
            j < 8,
            pi == 1u8 << i,
            pj == 1u8 << j,
    ;
}

} // verus!
