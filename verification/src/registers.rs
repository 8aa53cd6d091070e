//! The register file of the processor.
//!
//! The flag register is held as four booleans, so its low nibble cannot be
//! anything but zero: the byte is assembled on reading and taken apart on
//! writing. The 16-bit pairs are views of two 8-bit registers, high byte first.

use vstd::prelude::*;

verus! {

/// The four condition flags, the upper nibble of register F.
#[derive(Clone, Copy, Debug, PartialEq, Eq)]
pub struct Flags {
    /// Bit 7: the last result was zero.
    pub zero: bool,
    /// Bit 6: the last operation was a subtraction.
    pub subtract: bool,
    /// Bit 5: carry or borrow out of bit 3 (bit 11 for 16-bit additions).
    pub half_carry: bool,
    /// Bit 4: carry or borrow out of the operand width.
    pub carry: bool,
}

/// The registers of the processor.
#[derive(Clone, Copy, Debug, PartialEq, Eq)]
pub struct Registers {
    pub a: u8,
    pub b: u8,
    pub c: u8,
    pub d: u8,
    pub e: u8,
    pub h: u8,
    pub l: u8,
    pub flags: Flags,
    pub sp: u16,
    pub pc: u16,
}

/// The 16-bit value whose high byte is `hi` and whose low byte is `lo`.
pub open spec fn pair(hi: u8, lo: u8) -> u16 {
    (hi * 256 + lo) as u16
}

/// The high byte of a 16-bit value.
pub open spec fn high(v: u16) -> u8 {
    (v / 256) as u8
}

/// The low byte of a 16-bit value.
pub open spec fn low(v: u16) -> u8 {
    (v % 256) as u8
}

/// Splitting a 16-bit value and joining the halves gives the value back, and
/// the halves of a joined pair are the bytes it was joined from.
pub proof fn lemma_pair_split(hi: u8, lo: u8, v: u16)
    ensures
        high(pair(hi, lo)) == hi,
        low(pair(hi, lo)) == lo,
        pair(high(v), low(v)) == v,
{
}

/// Joins two bytes into a 16-bit value, high byte first.
pub fn join(hi: u8, lo: u8) -> (v: u16)
    ensures
        v == pair(hi, lo),
{
    let h: u16 = hi as u16;
    let l: u16 = lo as u16;
    h * 256 + l
}

/// The high byte of `v`.
pub fn high_byte(v: u16) -> (b: u8)
    ensures
        b == high(v),
{
    (v / 256) as u8
}

/// The low byte of `v`.
pub fn low_byte(v: u16) -> (b: u8)
    ensures
        b == low(v),
{
    (v % 256) as u8
}

impl Flags {
    /// The byte that register F reads as: the flags in bits 7 to 4, zero below.
    pub open spec fn byte(self) -> u8 {
        ((if self.zero { 128int } else { 0 })
            + (if self.subtract { 64int } else { 0 })
            + (if self.half_carry { 32int } else { 0 })
            + (if self.carry { 16int } else { 0 })) as u8
    }

    /// The flags that a byte written to register F sets: its bits 7 to 4.
    pub open spec fn of_byte(v: u8) -> Flags {
        Flags {
            zero: v / 128 % 2 == 1,
            subtract: v / 64 % 2 == 1,
            half_carry: v / 32 % 2 == 1,
            carry: v / 16 % 2 == 1,
        }
    }

    /// Writing the byte read from the flags changes nothing; reading after a
    /// write gives the written byte with its low nibble cleared.
    pub proof fn lemma_byte_round_trip(self, v: u8)
        ensures
            Flags::of_byte(self.byte()) == self,
            Flags::of_byte(v).byte() == v - v % 16,
            self.byte() % 16 == 0,
    {
    }

    /// All four flags clear.
    pub fn cleared() -> (f: Flags)
        ensures
            f == (Flags { zero: false, subtract: false, half_carry: false, carry: false }),
    {
        Flags { zero: false, subtract: false, half_carry: false, carry: false }
    }

    /// Assembles the byte of register F.
    pub fn to_byte(&self) -> (v: u8)
        ensures
            v == self.byte(),
            v % 16 == 0,
    {
        let mut v: u8 = 0;
        if self.zero {
            v = v + 0x80;
        }
        if self.subtract {
            v = v + 0x40;
        }
        if self.half_carry {
            v = v + 0x20;
        }
        if self.carry {
            v = v + 0x10;
        }
        v
    }

    /// Takes a byte written to register F apart; the low nibble is dropped.
    pub fn from_byte(v: u8) -> (f: Flags)
        ensures
            f == Flags::of_byte(v),
    {
        Flags {
            zero: v / 128 % 2 == 1,
            subtract: v / 64 % 2 == 1,
            half_carry: v / 32 % 2 == 1,
            carry: v / 16 % 2 == 1,
        }
    }
}

impl Registers {
    /// The register file as the start-up program leaves it when it hands
    /// control to the cartridge: AF = 01B0, BC = 0013, DE = 00D8, HL = 014D,
    /// SP = FFFE, PC = 0100.
    pub open spec fn power_on() -> Registers {
        Registers {
            a: 0x01,
            b: 0x00,
            c: 0x13,
            d: 0x00,
            e: 0xD8,
            h: 0x01,
            l: 0x4D,
            flags: Flags { zero: true, subtract: false, half_carry: true, carry: true },
            sp: 0xFFFE,
            pc: 0x0100,
        }
    }

    /// The 16-bit operand with number `i`: BC, DE, HL, SP.
    pub open spec fn pair16(self, i: u8) -> u16 {
        if i == 0 {
            pair(self.b, self.c)
        } else if i == 1 {
            pair(self.d, self.e)
        } else if i == 2 {
            pair(self.h, self.l)
        } else {
            self.sp
        }
    }

    /// The registers with `v` in the 16-bit operand with number `i`.
    pub open spec fn set_pair16(self, i: u8, v: u16) -> Registers {
        if i == 0 {
            Registers { b: high(v), c: low(v), ..self }
        } else if i == 1 {
            Registers { d: high(v), e: low(v), ..self }
        } else if i == 2 {
            Registers { h: high(v), l: low(v), ..self }
        } else {
            Registers { sp: v, ..self }
        }
    }

    /// The pair with number `i` as the stack instructions count them: BC,
    /// DE, HL, AF.
    pub open spec fn stack_pair(self, i: u8) -> u16 {
        if i == 3 {
            pair(self.a, self.flags.byte())
        } else {
            self.pair16(i)
        }
    }

    /// The registers with `v` in the pair with number `i` as the stack
    /// instructions count them. The low nibble of F takes nothing.
    pub open spec fn set_stack_pair(self, i: u8, v: u16) -> Registers {
        if i == 3 {
            Registers { a: high(v), flags: Flags::of_byte(low(v)), ..self }
        } else {
            self.set_pair16(i, v)
        }
    }

    /// The condition with number `i`: Zero clear, Zero set, Carry clear,
    /// Carry set.
    pub open spec fn condition(self, i: u8) -> bool {
        if i == 0 {
            !self.flags.zero
        } else if i == 1 {
            self.flags.zero
        } else if i == 2 {
            !self.flags.carry
        } else {
            self.flags.carry
        }
    }

    /// Reads the 16-bit operand with number `i`.
    pub fn get_pair(&self, i: u8) -> (v: u16)
        ensures
            v == self.pair16(i),
    {
        if i == 0 {
            self.bc()
        } else if i == 1 {
            self.de()
        } else if i == 2 {
            self.hl()
        } else {
            self.sp
        }
    }

    /// Writes the 16-bit operand with number `i`.
    pub fn set_pair(&mut self, i: u8, v: u16)
        ensures
            *final(self) == old(self).set_pair16(i, v),
    {
        if i == 0 {
            self.set_bc(v);
        } else if i == 1 {
            self.set_de(v);
        } else if i == 2 {
            self.set_hl(v);
        } else {
            self.sp = v;
        }
    }

    /// Reads the pair with number `i` as the stack instructions count them.
    pub fn get_stack_pair(&self, i: u8) -> (v: u16)
        ensures
            v == self.stack_pair(i),
    {
        if i == 3 {
            self.af()
        } else {
            self.get_pair(i)
        }
    }

    /// Writes the pair with number `i` as the stack instructions count
    /// them.
    pub fn set_stack(&mut self, i: u8, v: u16)
        ensures
            *final(self) == old(self).set_stack_pair(i, v),
    {
        if i == 3 {
            self.set_af(v);
        } else {
            self.set_pair(i, v);
        }
    }

    /// Whether the condition with number `i` holds.
    pub fn test(&self, i: u8) -> (b: bool)
        ensures
            b == self.condition(i),
    {
        if i == 0 {
            !self.flags.zero
        } else if i == 1 {
            self.flags.zero
        } else if i == 2 {
            !self.flags.carry
        } else {
            self.flags.carry
        }
    }

    /// A register file in its power-on state.
    pub fn new() -> (r: Registers)
        ensures
            r == Registers::power_on(),
    {
        Registers {
            a: 0x01,
            b: 0x00,
            c: 0x13,
            d: 0x00,
            e: 0xD8,
            h: 0x01,
            l: 0x4D,
            flags: Flags { zero: true, subtract: false, half_carry: true, carry: true },
            sp: 0xFFFE,
            pc: 0x0100,
        }
    }

    /// Register F as a byte.
    pub fn f(&self) -> (v: u8)
        ensures
            v == self.flags.byte(),
            v % 16 == 0,
    {
        self.flags.to_byte()
    }

    /// Writes register F; the low nibble of `v` is dropped.
    pub fn set_f(&mut self, v: u8)
        ensures
            *final(self) == (Registers { flags: Flags::of_byte(v), ..*old(self) }),
    {
        self.flags = Flags::from_byte(v);
    }

    /// The pair AF.
    pub fn af(&self) -> (v: u16)
        ensures
            v == pair(self.a, self.flags.byte()),
    {
        join(self.a, self.flags.to_byte())
    }

    /// The pair BC.
    pub fn bc(&self) -> (v: u16)
        ensures
            v == pair(self.b, self.c),
    {
        join(self.b, self.c)
    }

    /// The pair DE.
    pub fn de(&self) -> (v: u16)
        ensures
            v == pair(self.d, self.e),
    {
        join(self.d, self.e)
    }

    /// The pair HL.
    pub fn hl(&self) -> (v: u16)
        ensures
            v == pair(self.h, self.l),
    {
        join(self.h, self.l)
    }

    /// Writes the pair AF: A takes the high byte, the flags the upper nibble
    /// of the low byte.
    pub fn set_af(&mut self, v: u16)
        ensures
            *final(self) == (Registers {
                a: high(v),
                flags: Flags::of_byte(low(v)),
                ..*old(self)
            }),
    {
        self.a = high_byte(v);
        self.flags = Flags::from_byte(low_byte(v));
    }

    /// Writes the pair BC: B takes the high byte, C the low byte.
    pub fn set_bc(&mut self, v: u16)
        ensures
            *final(self) == (Registers { b: high(v), c: low(v), ..*old(self) }),
    {
        self.b = high_byte(v);
        self.c = low_byte(v);
    }

    /// Writes the pair DE: D takes the high byte, E the low byte.
    pub fn set_de(&mut self, v: u16)
        ensures
            *final(self) == (Registers { d: high(v), e: low(v), ..*old(self) }),
    {
        self.d = high_byte(v);
        self.e = low_byte(v);
    }

    /// Writes the pair HL: H takes the high byte, L the low byte.
    pub fn set_hl(&mut self, v: u16)
        ensures
            *final(self) == (Registers { h: high(v), l: low(v), ..*old(self) }),
    {
        self.h = high_byte(v);
        self.l = low_byte(v);
    }
}

} // verus!
