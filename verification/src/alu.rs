//! The arithmetic and logic unit: what each operation makes of its operands
//! and which flags it leaves.
//!
//! The definitions are written over unbounded integers: a result is the
//! mathematical sum or difference reduced modulo the operand width, and a
//! carry is the statement that the unreduced value left the width.

use vstd::prelude::*;
use crate::registers::Flags;

verus! {

/// An 8-bit result together with the flags that the operation leaves.
#[derive(Clone, Copy, Debug, PartialEq, Eq)]
pub struct Byte {
    pub value: u8,
    pub flags: Flags,
}

/// A 16-bit result together with the flags that the operation leaves.
#[derive(Clone, Copy, Debug, PartialEq, Eq)]
pub struct Word {
    pub value: u16,
    pub flags: Flags,
}

/// 1 for a set carry, 0 for a clear one.
pub open spec fn bit_of(c: bool) -> int {
    if c { 1 } else { 0 }
}

/// The value of a byte read as a two's-complement number.
pub open spec fn signed(e: u8) -> int {
    if e < 128 { e as int } else { e - 256 }
}

/// `x + y + carry_in`: the sum modulo 256, Carry iff the sum exceeds 255,
/// Half-Carry iff the low nibbles' sum exceeds 15, Zero iff the result is 0,
/// Subtract clear.
pub open spec fn add8_spec(x: u8, y: u8, carry_in: bool) -> Byte {
    let sum = x + y + bit_of(carry_in);
    Byte {
        value: (sum % 256) as u8,
        flags: Flags {
            zero: sum % 256 == 0,
            subtract: false,
            half_carry: x % 16 + y % 16 + bit_of(carry_in) > 15,
            carry: sum > 255,
        },
    }
}

/// `x - y - carry_in`: the difference modulo 256, Carry iff a borrow was
/// needed, Half-Carry iff the low nibble needed one, Zero iff the result is
/// 0, Subtract set.
pub open spec fn sub8_spec(x: u8, y: u8, carry_in: bool) -> Byte {
    let diff = x - y - bit_of(carry_in);
    Byte {
        value: (diff % 256) as u8,
        flags: Flags {
            zero: diff % 256 == 0,
            subtract: true,
            half_carry: x % 16 - y % 16 - bit_of(carry_in) < 0,
            carry: diff < 0,
        },
    }
}

/// Bitwise and: Half-Carry set, Carry and Subtract clear.
pub open spec fn and8_spec(x: u8, y: u8) -> Byte {
    Byte {
        value: x & y,
        flags: Flags { zero: x & y == 0, subtract: false, half_carry: true, carry: false },
    }
}

/// Bitwise or: all flags but Zero clear.
pub open spec fn or8_spec(x: u8, y: u8) -> Byte {
    Byte {
        value: x | y,
        flags: Flags { zero: x | y == 0, subtract: false, half_carry: false, carry: false },
    }
}

/// Bitwise exclusive or: all flags but Zero clear.
pub open spec fn xor8_spec(x: u8, y: u8) -> Byte {
    Byte {
        value: x ^ y,
        flags: Flags { zero: x ^ y == 0, subtract: false, half_carry: false, carry: false },
    }
}

/// The eight accumulator operations by their number in the instruction
/// encoding: add, add with carry, subtract, subtract with carry, and,
/// exclusive or, or, compare. A comparison subtracts and keeps the
/// accumulator.
pub open spec fn accumulate_spec(op: u8, a: u8, y: u8, flags: Flags) -> Byte {
    if op == 0 {
        add8_spec(a, y, false)
    } else if op == 1 {
        add8_spec(a, y, flags.carry)
    } else if op == 2 {
        sub8_spec(a, y, false)
    } else if op == 3 {
        sub8_spec(a, y, flags.carry)
    } else if op == 4 {
        and8_spec(a, y)
    } else if op == 5 {
        xor8_spec(a, y)
    } else if op == 6 {
        or8_spec(a, y)
    } else {
        Byte { value: a, flags: sub8_spec(a, y, false).flags }
    }
}

/// `x + 1` modulo 256; Carry is kept.
pub open spec fn inc8_spec(x: u8, flags: Flags) -> Byte {
    Byte {
        value: ((x + 1) % 256) as u8,
        flags: Flags {
            zero: x == 255,
            subtract: false,
            half_carry: x % 16 == 15,
            carry: flags.carry,
        },
    }
}

/// `x - 1` modulo 256; Carry is kept.
pub open spec fn dec8_spec(x: u8, flags: Flags) -> Byte {
    Byte {
        value: ((x - 1) % 256) as u8,
        flags: Flags {
            zero: x == 1,
            subtract: true,
            half_carry: x % 16 == 0,
            carry: flags.carry,
        },
    }
}

/// `x + y` modulo 65536, as the 16-bit addition to HL computes it: Carry iff
/// the sum exceeds 65535, Half-Carry iff the low twelve bits' sum exceeds
/// 4095, Subtract clear, Zero kept.
pub open spec fn add16_spec(x: u16, y: u16, flags: Flags) -> Word {
    Word {
        value: ((x + y) % 65536) as u16,
        flags: Flags {
            zero: flags.zero,
            subtract: false,
            half_carry: x % 4096 + y % 4096 > 4095,
            carry: x + y > 65535,
        },
    }
}

/// The stack pointer plus a signed offset, modulo 65536. Carry and
/// Half-Carry are those of adding the offset, unsigned, to the low byte.
pub open spec fn add_signed_spec(sp: u16, e: u8) -> Word {
    Word {
        value: ((sp + signed(e)) % 65536) as u16,
        flags: Flags {
            zero: false,
            subtract: false,
            half_carry: sp % 16 + e % 16 > 15,
            carry: sp % 256 + e > 255,
        },
    }
}

/// `v + n` modulo 65536.
pub open spec fn wrap16(v: int) -> u16 {
    (v % 65536) as u16
}

/// The eight rotations and shifts by their number in the instruction
/// encoding: rotate left, rotate right, rotate left through carry, rotate
/// right through carry, shift left, arithmetic shift right, swap nibbles,
/// logical shift right. Carry takes the bit that left the byte (none for a
/// swap), Zero says whether the result is 0, the other two flags are clear.
pub open spec fn shift_value(op: u8, x: u8, carry_in: bool) -> u8 {
    if op == 0 {
        (x * 2 % 256 + x / 128) as u8
    } else if op == 1 {
        (x / 2 + x % 2 * 128) as u8
    } else if op == 2 {
        (x * 2 % 256 + bit_of(carry_in)) as u8
    } else if op == 3 {
        (x / 2 + bit_of(carry_in) * 128) as u8
    } else if op == 4 {
        (x * 2 % 256) as u8
    } else if op == 5 {
        (x / 2 + x / 128 * 128) as u8
    } else if op == 6 {
        (x % 16 * 16 + x / 16) as u8
    } else {
        x / 2
    }
}

/// The bit that a rotation or shift moves into Carry.
pub open spec fn shift_carry(op: u8, x: u8) -> bool {
    if op == 0 || op == 2 || op == 4 {
        x >= 128
    } else if op == 6 {
        false
    } else {
        x % 2 == 1
    }
}

/// A rotation or shift with its flags.
pub open spec fn shift_spec(op: u8, x: u8, carry_in: bool) -> Byte {
    let value = shift_value(op, x, carry_in);
    Byte {
        value,
        flags: Flags {
            zero: value == 0,
            subtract: false,
            half_carry: false,
            carry: shift_carry(op, x),
        },
    }
}

/// The flags after testing bit `n` of `x`: Zero iff the bit is clear,
/// Half-Carry set, Subtract clear, Carry kept.
pub open spec fn test_bit_spec(n: u8, x: u8, flags: Flags) -> Flags {
    Flags { zero: x / pow2(n) % 2 == 0, subtract: false, half_carry: true, carry: flags.carry }
}

/// Two to the `n`, for a bit number.
pub open spec fn pow2(n: u8) -> u8 {
    if n == 0 {
        1
    } else if n == 1 {
        2
    } else if n == 2 {
        4
    } else if n == 3 {
        8
    } else if n == 4 {
        16
    } else if n == 5 {
        32
    } else if n == 6 {
        64
    } else {
        128
    }
}

/// `x` with bit `n` cleared.
pub open spec fn clear_bit_spec(n: u8, x: u8) -> u8 {
    if x / pow2(n) % 2 == 1 { (x - pow2(n)) as u8 } else { x }
}

/// `x` with bit `n` set.
pub open spec fn set_bit_spec(n: u8, x: u8) -> u8 {
    if x / pow2(n) % 2 == 1 { x } else { (x + pow2(n)) as u8 }
}

/// Decimal adjustment of the accumulator after an addition or subtraction of
/// two packed decimal numbers. After an addition, 6 is added where the low
/// digit left the decimal range or carried, and 0x60 where the high digit
/// did; after a subtraction the same amounts are taken away where a borrow
/// was recorded.
pub open spec fn decimal_adjust_spec(a: u8, flags: Flags) -> Byte {
    let low_fix = if flags.subtract {
        flags.half_carry
    } else {
        flags.half_carry || a % 16 > 9
    };
    let high_fix = if flags.subtract {
        flags.carry
    } else {
        flags.carry || a > 0x99
    };
    let amount = (if low_fix { 6int } else { 0 }) + (if high_fix { 0x60int } else { 0 });
    let raw = if flags.subtract { a - amount } else { a + amount };
    Byte {
        value: (raw % 256) as u8,
        flags: Flags {
            zero: raw % 256 == 0,
            subtract: flags.subtract,
            half_carry: false,
            carry: high_fix,
        },
    }
}

/// Adds with carry-in.
pub fn add8(x: u8, y: u8, carry_in: bool) -> (r: Byte)
    ensures
        r == add8_spec(x, y, carry_in),
{
    let c: u16 = if carry_in { 1 } else { 0 };
    let sum: u16 = x as u16 + y as u16 + c;
    let value: u8 = (sum % 256) as u8;
    Byte {
        value,
        flags: Flags {
            zero: value == 0,
            subtract: false,
            half_carry: (x % 16) as u16 + (y % 16) as u16 + c > 15,
            carry: sum > 255,
        },
    }
}

/// Subtracts with borrow-in.
pub fn sub8(x: u8, y: u8, carry_in: bool) -> (r: Byte)
    ensures
        r == sub8_spec(x, y, carry_in),
{
    let c: i16 = if carry_in { 1 } else { 0 };
    let diff: i16 = x as i16 - y as i16 - c;
    let wrapped: i16 = if diff < 0 { diff + 256 } else { diff };
    let value: u8 = wrapped as u8;
    Byte {
        value,
        flags: Flags {
            zero: value == 0,
            subtract: true,
            half_carry: (x % 16) as i16 - (y % 16) as i16 - c < 0,
            carry: diff < 0,
        },
    }
}

/// Bitwise and.
pub fn and8(x: u8, y: u8) -> (r: Byte)
    ensures
        r == and8_spec(x, y),
{
    let value: u8 = x & y;
    Byte {
        value,
        flags: Flags { zero: value == 0, subtract: false, half_carry: true, carry: false },
    }
}

/// Bitwise or.
pub fn or8(x: u8, y: u8) -> (r: Byte)
    ensures
        r == or8_spec(x, y),
{
    let value: u8 = x | y;
    Byte {
        value,
        flags: Flags { zero: value == 0, subtract: false, half_carry: false, carry: false },
    }
}

/// Bitwise exclusive or.
pub fn xor8(x: u8, y: u8) -> (r: Byte)
    ensures
        r == xor8_spec(x, y),
{
    let value: u8 = x ^ y;
    Byte {
        value,
        flags: Flags { zero: value == 0, subtract: false, half_carry: false, carry: false },
    }
}

/// One of the eight accumulator operations, by its number.
pub fn accumulate(op: u8, a: u8, y: u8, flags: Flags) -> (r: Byte)
    ensures
        r == accumulate_spec(op, a, y, flags),
{
    if op == 0 {
        add8(a, y, false)
    } else if op == 1 {
        add8(a, y, flags.carry)
    } else if op == 2 {
        sub8(a, y, false)
    } else if op == 3 {
        sub8(a, y, flags.carry)
    } else if op == 4 {
        and8(a, y)
    } else if op == 5 {
        xor8(a, y)
    } else if op == 6 {
        or8(a, y)
    } else {
        Byte { value: a, flags: sub8(a, y, false).flags }
    }
}

/// Increments a byte.
pub fn inc8(x: u8, flags: Flags) -> (r: Byte)
    ensures
        r == inc8_spec(x, flags),
{
    let value: u8 = if x == 255 { 0 } else { x + 1 };
    Byte {
        value,
        flags: Flags {
            zero: value == 0,
            subtract: false,
            half_carry: x % 16 == 15,
            carry: flags.carry,
        },
    }
}

/// Decrements a byte.
pub fn dec8(x: u8, flags: Flags) -> (r: Byte)
    ensures
        r == dec8_spec(x, flags),
{
    let value: u8 = if x == 0 { 255 } else { x - 1 };
    Byte {
        value,
        flags: Flags {
            zero: value == 0,
            subtract: true,
            half_carry: x % 16 == 0,
            carry: flags.carry,
        },
    }
}

/// Adds two 16-bit values as the addition to HL does.
pub fn add16(x: u16, y: u16, flags: Flags) -> (r: Word)
    ensures
        r == add16_spec(x, y, flags),
{
    let sum: u32 = x as u32 + y as u32;
    Word {
        value: (sum % 65536) as u16,
        flags: Flags {
            zero: flags.zero,
            subtract: false,
            half_carry: (x % 4096) as u32 + (y % 4096) as u32 > 4095,
            carry: sum > 65535,
        },
    }
}

/// Adds a signed offset to the stack pointer.
pub fn add_signed(sp: u16, e: u8) -> (r: Word)
    ensures
        r == add_signed_spec(sp, e),
{
    let offset: i32 = if e < 128 { e as i32 } else { e as i32 - 256 };
    let raw: i32 = sp as i32 + offset;
    let wrapped: i32 = if raw < 0 {
        raw + 65536
    } else if raw > 65535 {
        raw - 65536
    } else {
        raw
    };
    Word {
        value: wrapped as u16,
        flags: Flags {
            zero: false,
            subtract: false,
            half_carry: (sp % 16) as u32 + (e % 16) as u32 > 15,
            carry: (sp % 256) as u32 + e as u32 > 255,
        },
    }
}

/// `v + 1` modulo 65536.
pub fn inc16(v: u16) -> (r: u16)
    ensures
        r == wrap16(v + 1),
{
    if v == 0xFFFF { 0 } else { v + 1 }
}

/// `v - 1` modulo 65536.
pub fn dec16(v: u16) -> (r: u16)
    ensures
        r == wrap16(v - 1),
{
    if v == 0 { 0xFFFF } else { v - 1 }
}

/// `v + n` modulo 65536.
pub fn offset16(v: u16, n: u16) -> (r: u16)
    ensures
        r == wrap16(v + n),
{
    let sum: u32 = v as u32 + n as u32;
    (sum % 65536) as u16
}

/// One of the eight rotations and shifts, by its number.
pub fn shift(op: u8, x: u8, carry_in: bool) -> (r: Byte)
    ensures
        r == shift_spec(op, x, carry_in),
{
    let c: u8 = if carry_in { 1 } else { 0 };
    let doubled: u8 = ((x as u16 * 2) % 256) as u8;
    let value: u8 = if op == 0 {
        doubled + x / 128
    } else if op == 1 {
        x / 2 + x % 2 * 128
    } else if op == 2 {
        doubled + c
    } else if op == 3 {
        x / 2 + c * 128
    } else if op == 4 {
        doubled
    } else if op == 5 {
        x / 2 + x / 128 * 128
    } else if op == 6 {
        x % 16 * 16 + x / 16
    } else {
        x / 2
    };
    let carry: bool = if op == 0 || op == 2 || op == 4 {
        x >= 128
    } else if op == 6 {
        false
    } else {
        x % 2 == 1
    };
    Byte { value, flags: Flags { zero: value == 0, subtract: false, half_carry: false, carry } }
}

/// The value of bit `n`, as a power of two.
pub fn mask(n: u8) -> (m: u8)
    ensures
        m == pow2(n),
{
    if n == 0 {
        1
    } else if n == 1 {
        2
    } else if n == 2 {
        4
    } else if n == 3 {
        8
    } else if n == 4 {
        16
    } else if n == 5 {
        32
    } else if n == 6 {
        64
    } else {
        128
    }
}

/// Whether bit `n` of `x` is set.
pub fn bit_is_set(n: u8, x: u8) -> (b: bool)
    ensures
        b == (x / pow2(n) % 2 == 1),
{
    x / mask(n) % 2 == 1
}

/// Tests bit `n` of `x`.
pub fn test_bit(n: u8, x: u8, flags: Flags) -> (f: Flags)
    ensures
        f == test_bit_spec(n, x, flags),
{
    Flags { zero: !bit_is_set(n, x), subtract: false, half_carry: true, carry: flags.carry }
}

/// Clears bit `n` of `x`.
pub fn clear_bit(n: u8, x: u8) -> (r: u8)
    ensures
        r == clear_bit_spec(n, x),
{
    let m: u8 = mask(n);
    if bit_is_set(n, x) {
        assert(x >= m) by (nonlinear_arith)
            requires
                x / m % 2 == 1,
                m > 0,
        ;
        x - m
    } else {
        x
    }
}

/// Sets bit `n` of `x`.
pub fn set_bit(n: u8, x: u8) -> (r: u8)
    ensures
        r == set_bit_spec(n, x),
{
    let m: u8 = mask(n);
    if bit_is_set(n, x) {
        x
    } else {
        assert(x + m <= 255) by {
            lemma_clear_bit_room(n, x);
        }
        x + m
    }
}

/// A byte whose bit `n` is clear stays a byte when the bit's value is added.
proof fn lemma_clear_bit_room(n: u8, x: u8)
    requires
        x / pow2(n) % 2 == 0,
    ensures
        x + pow2(n) <= 255,
{
    let m = pow2(n);
    if n == 0 {
        assert(m == 1);
    } else if n == 1 {
        assert(m == 2);
    } else if n == 2 {
        assert(m == 4);
    } else if n == 3 {
        assert(m == 8);
    } else if n == 4 {
        assert(m == 16);
    } else if n == 5 {
        assert(m == 32);
    } else if n == 6 {
        assert(m == 64);
    } else {
        assert(m == 128);
    }
}

/// Adjusts the accumulator to packed decimal.
pub fn decimal_adjust(a: u8, flags: Flags) -> (r: Byte)
    ensures
        r == decimal_adjust_spec(a, flags),
{
    let low_fix: bool = if flags.subtract {
        flags.half_carry
    } else {
        flags.half_carry || a % 16 > 9
    };
    let high_fix: bool = if flags.subtract {
        flags.carry
    } else {
        flags.carry || a > 0x99
    };
    let mut amount: i16 = 0;
    if low_fix {
        amount = amount + 6;
    }
    if high_fix {
        amount = amount + 0x60;
    }
    let raw: i16 = if flags.subtract { a as i16 - amount } else { a as i16 + amount };
    let wrapped: i16 = if raw < 0 {
        raw + 256
    } else if raw > 255 {
        raw - 256
    } else {
        raw
    };
    let value: u8 = wrapped as u8;
    Byte {
        value,
        flags: Flags {
            zero: value == 0,
            subtract: flags.subtract,
            half_carry: false,
            carry: high_fix,
        },
    }
}

} // verus!
