//! The timer unit: a free-running divider and a counter that is stepped at
//! one of four rates and requests an interrupt when it overflows.
//!
//! A 16-bit system counter advances by one every cycle and cannot be
//! stopped. The divider register is its upper byte, so it advances once
//! every 256 cycles. The counter register advances whenever the system
//! counter reaches a multiple of the selected period. When it overflows it
//! reads zero for exactly one cycle; on the next cycle it takes the reload
//! value and the interrupt is requested.

use vstd::prelude::*;

verus! {

/// The state of the timer unit.
#[derive(Clone, Copy, Debug, PartialEq, Eq)]
pub struct Timer {
    /// The system counter; the divider register is its upper byte.
    pub system: u16,
    /// The counter register.
    pub counter: u8,
    /// The reload register.
    pub reload: u8,
    /// The control register: bit 2 enables the counter, bits 1 and 0 select
    /// its period.
    pub control: u8,
    /// The counter overflowed on the last cycle and is reloaded on the next.
    pub overflowed: bool,
}

/// The number of cycles between two steps of the counter register, by the
/// low two bits of the control register: 1024, 16, 64 or 256.
pub open spec fn period_spec(control: u8) -> u16 {
    if control % 4 == 0 {
        1024
    } else if control % 4 == 1 {
        16
    } else if control % 4 == 2 {
        64
    } else {
        256
    }
}

/// Whether the control register enables the counter: its bit 2.
pub open spec fn enabled_spec(control: u8) -> bool {
    control / 4 % 2 == 1
}

impl Timer {
    /// Everything zero, the counter stopped.
    pub open spec fn power_on() -> Timer {
        Timer { system: 0, counter: 0, reload: 0, control: 0, overflowed: false }
    }

    /// Whether this cycle requests the timer interrupt: it does when the
    /// counter overflowed on the cycle before.
    pub open spec fn fires(self) -> bool {
        self.overflowed
    }

    /// The timer one cycle later.
    pub open spec fn tick_spec(self) -> Timer {
        let system = ((self.system + 1) % 65536) as u16;
        let counter = if self.overflowed { self.reload } else { self.counter };
        let steps = enabled_spec(self.control) && system % period_spec(self.control) == 0;
        Timer {
            system,
            counter: if steps { ((counter + 1) % 256) as u8 } else { counter },
            overflowed: steps && counter == 255,
            ..self
        }
    }

    /// The timer `n` cycles later.
    pub open spec fn advance_spec(self, n: nat) -> Timer
        decreases n,
    {
        if n == 0 {
            self
        } else {
            self.tick_spec().advance_spec((n - 1) as nat)
        }
    }

    /// Whether any of the next `n` cycles requests the timer interrupt.
    pub open spec fn fires_within(self, n: nat) -> bool
        decreases n,
    {
        if n == 0 {
            false
        } else {
            self.fires() || self.tick_spec().fires_within((n - 1) as nat)
        }
    }

    /// What the divider register reads as: the upper byte of the system
    /// counter.
    pub open spec fn divider_spec(self) -> u8 {
        (self.system / 256) as u8
    }

    /// What the control register reads as: its low three bits, the others
    /// set.
    pub open spec fn read_control_spec(self) -> u8 {
        (self.control % 8 + 0xF8) as u8
    }

    /// The timer after a write to the divider register: the system counter
    /// is cleared, whatever was written.
    pub open spec fn reset_divider_spec(self) -> Timer {
        Timer { system: 0, ..self }
    }

    /// The timer after a write to the counter register: a reload that was
    /// due is given up.
    pub open spec fn write_counter_spec(self, v: u8) -> Timer {
        Timer { counter: v, overflowed: false, ..self }
    }

    /// After a write to the divider register the divider reads zero.
    pub proof fn lemma_divider_reset(self)
        ensures
            self.reset_divider_spec().divider_spec() == 0,
    {
    }

    /// The divider register advances by one, modulo 256, every 256 cycles,
    /// whatever the control register holds.
    pub proof fn lemma_divider_rate(self)
        ensures
            self.advance_spec(256).divider_spec() == (self.divider_spec() + 1) % 256,
            self.advance_spec(256).system == (self.system + 256) % 65536,
    {
        self.lemma_system_advance(256);
    }

    /// After `n` cycles the system counter has advanced by `n`, modulo 65536,
    /// and the reload and control registers are as they were.
    pub proof fn lemma_system_advance(self, n: nat)
        ensures
            self.advance_spec(n).system == (self.system + n) % 65536,
            self.advance_spec(n).reload == self.reload,
            self.advance_spec(n).control == self.control,
        decreases n,
    {
        if n > 0 {
            self.tick_spec().lemma_system_advance((n - 1) as nat);
        }
    }

    /// An overflow of the counter register: when the counter holds 255 and
    /// the cycle steps it, it reads zero after that cycle without a request
    /// for the interrupt, and after one more cycle it holds the reload value
    /// and the interrupt has been requested.
    pub proof fn lemma_overflow_reloads(self)
        requires
            self.counter == 255,
            !self.overflowed,
            enabled_spec(self.control),
            (self.system + 1) % (period_spec(self.control) as int) == 0,
        ensures
            self.tick_spec().counter == 0,
            !self.fires(),
            self.tick_spec().fires(),
            self.tick_spec().tick_spec().counter == self.reload,
            !self.tick_spec().tick_spec().fires(),
    {
        let t = self.tick_spec();
        let p = period_spec(self.control) as int;
        assert(t.system as int % p == 0);
        assert(t.system < 65535);
        assert((t.system + 1) % p != 0);
    }

    /// The timer in its power-on state.
    pub fn new() -> (t: Timer)
        ensures
            t == Timer::power_on(),
    {
        Timer { system: 0, counter: 0, reload: 0, control: 0, overflowed: false }
    }

    /// The period that the control register selects.
    pub fn period(&self) -> (p: u16)
        ensures
            p == period_spec(self.control),
    {
        let select: u8 = self.control % 4;
        if select == 0 {
            1024
        } else if select == 1 {
            16
        } else if select == 2 {
            64
        } else {
            256
        }
    }

    /// Advances the timer by one cycle and says whether the cycle requests
    /// the timer interrupt.
    pub fn tick(&mut self) -> (fired: bool)
        ensures
            *final(self) == old(self).tick_spec(),
            fired == old(self).fires(),
    {
        let fired: bool = self.overflowed;
        self.system = if self.system == 0xFFFF { 0 } else { self.system + 1 };
        if self.overflowed {
            self.counter = self.reload;
        }
        let steps: bool = self.control / 4 % 2 == 1 && self.system % self.period() == 0;
        self.overflowed = steps && self.counter == 255;
        if steps {
            self.counter = if self.counter == 255 { 0 } else { self.counter + 1 };
        }
        fired
    }

    /// Advances the timer by `n` cycles and says whether any of them
    /// requests the timer interrupt.
    pub fn advance(&mut self, n: u8) -> (fired: bool)
        ensures
            *final(self) == old(self).advance_spec(n as nat),
            fired == old(self).fires_within(n as nat),
    {
        let mut fired: bool = false;
        let mut left: u8 = n;
        while left > 0
            invariant
                self.advance_spec(left as nat) == old(self).advance_spec(n as nat),
                (fired || self.fires_within(left as nat)) == old(self).fires_within(n as nat),
            decreases left,
        {
            let f: bool = self.tick();
            fired = fired || f;
            left = left - 1;
        }
        fired
    }

    /// Reads the divider register.
    pub fn divider(&self) -> (v: u8)
        ensures
            v == self.divider_spec(),
    {
        (self.system / 256) as u8
    }

    /// Reads the control register.
    pub fn read_control(&self) -> (v: u8)
        ensures
            v == self.read_control_spec(),
    {
        self.control % 8 + 0xF8
    }

    /// Serves a write to the divider register.
    pub fn reset_divider(&mut self)
        ensures
            *final(self) == old(self).reset_divider_spec(),
    {
        self.system = 0;
    }

    /// Serves a write to the counter register.
    pub fn write_counter(&mut self, v: u8)
        ensures
            *final(self) == old(self).write_counter_spec(v),
    {
        self.counter = v;
        self.overflowed = false;
    }
}

} // verus!
