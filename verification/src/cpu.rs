//! The execution engine of the processor: it fetches an opcode through the
//! memory subsystem, runs the instruction and says how many cycles that
//! took.
//!
//! What each instruction does is defined in [`crate::machine`]; the
//! functions here compute it, and their contracts say that they do.

use vstd::prelude::*;
use crate::alu::{
    accumulate, accumulate_spec, add16, add_signed, clear_bit, dec16, dec8, decimal_adjust,
    inc16, inc8, offset16, set_bit, shift, signed, test_bit, wrap16, Byte, Word,
};
use crate::interrupts::{Interrupt, Interrupts};
use crate::machine::{is_illegal, state, Machine, Step};
use crate::mmu::{Mmu, MmuView};
use crate::registers::{high_byte, low_byte, Flags, Registers};

verus! {

/// The state of the processor.
#[derive(Clone, Copy, Debug, PartialEq, Eq)]
pub struct Cpu {
    /// The register file.
    pub r: Registers,
    /// The processor waits for an interrupt.
    pub halted: bool,
    /// The processor ran into an opcode that is not an instruction and has
    /// locked up. Nothing brings it back.
    pub locked: bool,
    /// The processor was asked to wait while an interrupt was ready and
    /// master-enable was off: the next opcode is fetched without moving the
    /// program counter, and so is fetched twice.
    pub halt_bug: bool,
}

/// A processor, a memory subsystem and a number of cycles as the outcome of
/// a step.
pub open spec fn outcome(cpu: Cpu, mem: MmuView, cycles: u8) -> Step {
    Step { machine: Machine { cpu, mem }, cycles }
}

/// The address that lies `1 + e` after `pc`, with `e` read as a signed
/// offset.
pub fn relative(pc: u16, e: u8) -> (target: u16)
    ensures
        target == wrap16(pc + 1 + signed(e)),
{
    let offset: i32 = if e < 128 { e as i32 } else { e as i32 - 256 };
    let raw: i32 = pc as i32 + 1 + offset;
    let wrapped: i32 = if raw < 0 {
        raw + 65536
    } else if raw > 65535 {
        raw - 65536
    } else {
        raw
    };
    wrapped as u16
}

impl Cpu {
    /// The processor at power-on.
    pub open spec fn power_on() -> Cpu {
        Cpu { r: Registers::power_on(), halted: false, locked: false, halt_bug: false }
    }

    /// A processor in its power-on state.
    pub fn new() -> (c: Cpu)
        ensures
            c == Cpu::power_on(),
    {
        Cpu { r: Registers::new(), halted: false, locked: false, halt_bug: false }
    }

    /// Reads the byte at the program counter and moves past it.
    fn imm8(&mut self, mmu: &Mmu) -> (v: u8)
        requires
            mmu@.wf(),
        ensures
            v == state(*old(self), mmu@).imm8(),
            state(*final(self), mmu@) == state(*old(self), mmu@).skip(1),
    {
        let v: u8 = mmu.rb(self.r.pc);
        self.r.pc = inc16(self.r.pc);
        v
    }

    /// Reads the 16-bit value at the program counter and moves past it.
    fn imm16(&mut self, mmu: &Mmu) -> (v: u16)
        requires
            mmu@.wf(),
        ensures
            v == state(*old(self), mmu@).imm16(),
            state(*final(self), mmu@) == state(*old(self), mmu@).skip(2),
    {
        let v: u16 = mmu.rw(self.r.pc);
        self.r.pc = offset16(self.r.pc, 2);
        v
    }

    /// Reads the 8-bit operand with number `i`.
    fn reg8(&self, mmu: &Mmu, i: u8) -> (v: u8)
        requires
            mmu@.wf(),
        ensures
            v == state(*self, mmu@).reg8(i),
    {
        if i == 0 {
            self.r.b
        } else if i == 1 {
            self.r.c
        } else if i == 2 {
            self.r.d
        } else if i == 3 {
            self.r.e
        } else if i == 4 {
            self.r.h
        } else if i == 5 {
            self.r.l
        } else if i == 6 {
            mmu.rb(self.r.hl())
        } else {
            self.r.a
        }
    }

    /// Writes the 8-bit operand with number `i`.
    fn set_reg8(&mut self, mmu: &mut Mmu, i: u8, v: u8)
        requires
            old(mmu)@.wf(),
        ensures
            state(*final(self), final(mmu)@) == state(*old(self), old(mmu)@).set_reg8(i, v),
            final(mmu)@.wf(),
    {
        if i == 0 {
            self.r.b = v;
        } else if i == 1 {
            self.r.c = v;
        } else if i == 2 {
            self.r.d = v;
        } else if i == 3 {
            self.r.e = v;
        } else if i == 4 {
            self.r.h = v;
        } else if i == 5 {
            self.r.l = v;
        } else if i == 6 {
            mmu.wb(self.r.hl(), v);
        } else {
            self.r.a = v;
        }
    }

    /// Pushes a 16-bit value.
    fn push(&mut self, mmu: &mut Mmu, v: u16)
        requires
            old(mmu)@.wf(),
        ensures
            state(*final(self), final(mmu)@) == state(*old(self), old(mmu)@).push(v),
            final(mmu)@.wf(),
    {
        self.r.sp = dec16(self.r.sp);
        mmu.wb(self.r.sp, high_byte(v));
        self.r.sp = dec16(self.r.sp);
        mmu.wb(self.r.sp, low_byte(v));
    }

    /// Takes the 16-bit value on top of the stack.
    fn pop(&mut self, mmu: &Mmu) -> (v: u16)
        requires
            mmu@.wf(),
        ensures
            v == state(*old(self), mmu@).top(),
            state(*final(self), mmu@) == state(*old(self), mmu@).pop(),
    {
        let v: u16 = mmu.rw(self.r.sp);
        self.r.sp = offset16(self.r.sp, 2);
        v
    }

    /// Column 0 of the first quarter.
    fn control(&mut self, mmu: &mut Mmu, row: u8) -> (cycles: u8)
        requires
            old(mmu)@.wf(),
            row < 8,
        ensures
            outcome(*final(self), final(mmu)@, cycles) == state(
                *old(self),
                old(mmu)@,
            ).control_spec(row),
            final(mmu)@.wf(),
    {
        if row == 0 {
            4
        } else if row == 1 {
            let addr: u16 = self.imm16(mmu);
            mmu.ww(addr, self.r.sp);
            20
        } else if row == 2 {
            self.halted = true;
            self.r.pc = inc16(self.r.pc);
            4
        } else if row == 3 || self.r.test(row - 4) {
            let e: u8 = mmu.rb(self.r.pc);
            self.r.pc = relative(self.r.pc, e);
            12
        } else {
            self.r.pc = inc16(self.r.pc);
            8
        }
    }

    /// Column 1 of the first quarter.
    fn pair_load(&mut self, mmu: &Mmu, row: u8) -> (cycles: u8)
        requires
            mmu@.wf(),
            row < 8,
        ensures
            outcome(*final(self), mmu@, cycles) == state(*old(self), mmu@).pair_load_spec(row),
    {
        if row % 2 == 0 {
            let v: u16 = mmu.rw(self.r.pc);
            self.r.set_pair(row / 2, v);
            self.r.pc = offset16(self.r.pc, 2);
            12
        } else {
            let sum: Word = add16(self.r.hl(), self.r.get_pair(row / 2), self.r.flags);
            self.r.set_hl(sum.value);
            self.r.flags = sum.flags;
            8
        }
    }

    /// The address that the loads of column 2 use.
    fn pointer(&self, i: u8) -> (at: u16)
        ensures
            forall|m: MmuView| at == #[trigger] state(*self, m).pointer(i),
    {
        if i == 0 {
            self.r.bc()
        } else if i == 1 {
            self.r.de()
        } else {
            self.r.hl()
        }
    }

    /// Moves HL after a load of column 2.
    fn move_pointer(&mut self, i: u8)
        ensures
            forall|m: MmuView| state(*final(self), m) == #[trigger] state(*old(self), m).moved(i),
    {
        if i == 2 {
            self.r.set_hl(inc16(self.r.hl()));
        } else if i == 3 {
            self.r.set_hl(dec16(self.r.hl()));
        }
    }

    /// Column 2 of the first quarter.
    fn indirect(&mut self, mmu: &mut Mmu, row: u8) -> (cycles: u8)
        requires
            old(mmu)@.wf(),
            row < 8,
        ensures
            outcome(*final(self), final(mmu)@, cycles) == state(
                *old(self),
                old(mmu)@,
            ).indirect_spec(row),
            final(mmu)@.wf(),
    {
        let at: u16 = self.pointer(row / 2);
        assert(at == state(*self, mmu@).pointer(row / 2));
        if row % 2 == 0 {
            mmu.wb(at, self.r.a);
        } else {
            self.r.a = mmu.rb(at);
        }
        let ghost before = state(*self, mmu@);
        self.move_pointer(row / 2);
        assert(state(*self, mmu@) == before.moved(row / 2));
        8
    }

    /// Column 3 of the first quarter.
    fn pair_step(&mut self, row: u8) -> (cycles: u8)
        requires
            row < 8,
        ensures
            forall|m: MmuView|
                outcome(*final(self), m, cycles) == #[trigger] state(*old(self), m).pair_step_spec(
                    row,
                ),
    {
        let v: u16 = self.r.get_pair(row / 2);
        self.r.set_pair(row / 2, if row % 2 == 0 { inc16(v) } else { dec16(v) });
        8
    }

    /// Columns 4 and 5 of the first quarter.
    fn step8(&mut self, mmu: &mut Mmu, row: u8, down: bool) -> (cycles: u8)
        requires
            old(mmu)@.wf(),
            row < 8,
        ensures
            outcome(*final(self), final(mmu)@, cycles) == state(*old(self), old(mmu)@).step8_spec(
                row,
                down,
            ),
            final(mmu)@.wf(),
    {
        let v: u8 = self.reg8(mmu, row);
        let r: Byte = if down { dec8(v, self.r.flags) } else { inc8(v, self.r.flags) };
        self.set_reg8(mmu, row, r.value);
        self.r.flags = r.flags;
        if row == 6 { 12 } else { 4 }
    }

    /// Column 6 of the first quarter.
    fn load_immediate(&mut self, mmu: &mut Mmu, row: u8) -> (cycles: u8)
        requires
            old(mmu)@.wf(),
            row < 8,
        ensures
            outcome(*final(self), final(mmu)@, cycles) == state(
                *old(self),
                old(mmu)@,
            ).load_immediate_spec(row),
            final(mmu)@.wf(),
    {
        let v: u8 = self.imm8(mmu);
        self.set_reg8(mmu, row, v);
        if row == 6 { 12 } else { 8 }
    }

    /// Column 7 of the first quarter.
    fn accumulator(&mut self, row: u8) -> (cycles: u8)
        requires
            row < 8,
        ensures
            forall|m: MmuView|
                outcome(*final(self), m, cycles) == #[trigger] state(
                    *old(self),
                    m,
                ).accumulator_spec(row),
    {
        let f: Flags = self.r.flags;
        if row < 4 {
            let s: Byte = shift(row, self.r.a, f.carry);
            self.r.a = s.value;
            self.r.flags = Flags { zero: false, ..s.flags };
        } else if row == 4 {
            let d: Byte = decimal_adjust(self.r.a, f);
            self.r.a = d.value;
            self.r.flags = d.flags;
        } else if row == 5 {
            self.r.a = 255 - self.r.a;
            self.r.flags = Flags { subtract: true, half_carry: true, ..f };
        } else if row == 6 {
            self.r.flags = Flags { subtract: false, half_carry: false, carry: true, ..f };
        } else {
            self.r.flags = Flags { subtract: false, half_carry: false, carry: !f.carry, ..f };
        }
        4
    }

    /// The first quarter of the opcodes.
    fn first_quarter(&mut self, mmu: &mut Mmu, op: u8) -> (cycles: u8)
        requires
            old(mmu)@.wf(),
            op < 0x40,
        ensures
            outcome(*final(self), final(mmu)@, cycles) == state(
                *old(self),
                old(mmu)@,
            ).first_quarter_spec(op),
            final(mmu)@.wf(),
            4 <= cycles <= 24,
    {
        proof {
            reveal(Machine::first_quarter_spec);
        }
        let row: u8 = op / 8;
        let col: u8 = op % 8;
        if col == 0 {
            self.control(mmu, row)
        } else if col == 1 {
            self.pair_load(mmu, row)
        } else if col == 2 {
            self.indirect(mmu, row)
        } else if col == 3 {
            self.pair_step(row)
        } else if col == 4 {
            self.step8(mmu, row, false)
        } else if col == 5 {
            self.step8(mmu, row, true)
        } else if col == 6 {
            self.load_immediate(mmu, row)
        } else {
            self.accumulator(row)
        }
    }

    /// Waiting for an interrupt.
    fn halt(&mut self, mmu: &Mmu) -> (cycles: u8)
        ensures
            outcome(*final(self), mmu@, cycles) == state(*old(self), mmu@).halt_spec(),
            cycles == 4,
    {
        let i: Interrupts = mmu.interrupts();
        if !i.master && i.next().is_some() {
            self.halt_bug = true;
        } else {
            self.halted = true;
        }
        4
    }

    /// The second quarter of the opcodes, without 76.
    fn load(&mut self, mmu: &mut Mmu, op: u8) -> (cycles: u8)
        requires
            old(mmu)@.wf(),
        ensures
            outcome(*final(self), final(mmu)@, cycles) == state(*old(self), old(mmu)@).load_spec(
                op,
            ),
            final(mmu)@.wf(),
            4 <= cycles <= 8,
    {
        let to: u8 = op / 8 % 8;
        let from: u8 = op % 8;
        let v: u8 = self.reg8(mmu, from);
        self.set_reg8(mmu, to, v);
        if to == 6 || from == 6 { 8 } else { 4 }
    }

    /// An accumulator operation with the operand `v`.
    fn accumulate_with(&mut self, which: u8, v: u8)
        ensures
            *final(self) == (Cpu {
                r: Registers {
                    a: accumulate_spec(which, old(self).r.a, v, old(self).r.flags).value,
                    flags: accumulate_spec(which, old(self).r.a, v, old(self).r.flags).flags,
                    ..old(self).r
                },
                ..*old(self)
            }),
    {
        let r: Byte = accumulate(which, self.r.a, v, self.r.flags);
        self.r.a = r.value;
        self.r.flags = r.flags;
    }

    /// The third quarter of the opcodes.
    fn arithmetic(&mut self, mmu: &Mmu, op: u8) -> (cycles: u8)
        requires
            mmu@.wf(),
        ensures
            outcome(*final(self), mmu@, cycles) == state(*old(self), mmu@).arithmetic_spec(op),
            4 <= cycles <= 8,
    {
        let v: u8 = self.reg8(mmu, op % 8);
        self.accumulate_with(op / 8 % 8, v);
        if op % 8 == 6 { 8 } else { 4 }
    }

    /// Column 0 of the last quarter.
    fn return_column(&mut self, mmu: &mut Mmu, row: u8) -> (cycles: u8)
        requires
            old(mmu)@.wf(),
            row < 8,
        ensures
            outcome(*final(self), final(mmu)@, cycles) == state(
                *old(self),
                old(mmu)@,
            ).return_spec(row),
            final(mmu)@.wf(),
            4 <= cycles <= 24,
    {
        if row < 4 {
            if self.r.test(row) {
                let target: u16 = self.pop(mmu);
                self.r.pc = target;
                20
            } else {
                8
            }
        } else if row == 4 {
            let n: u8 = self.imm8(mmu);
            mmu.wb(0xFF00 + n as u16, self.r.a);
            12
        } else if row == 5 {
            let e: u8 = mmu.rb(self.r.pc);
            let s: Word = add_signed(self.r.sp, e);
            self.r.sp = s.value;
            self.r.flags = s.flags;
            self.r.pc = inc16(self.r.pc);
            16
        } else if row == 6 {
            let n: u8 = self.imm8(mmu);
            self.r.a = mmu.rb(0xFF00 + n as u16);
            12
        } else {
            let e: u8 = mmu.rb(self.r.pc);
            let s: Word = add_signed(self.r.sp, e);
            self.r.set_hl(s.value);
            self.r.flags = s.flags;
            self.r.pc = inc16(self.r.pc);
            12
        }
    }

    /// Column 1 of the last quarter.
    fn pop_column(&mut self, mmu: &mut Mmu, row: u8) -> (cycles: u8)
        requires
            old(mmu)@.wf(),
            row < 8,
        ensures
            outcome(*final(self), final(mmu)@, cycles) == state(*old(self), old(mmu)@).pop_spec(
                row,
            ),
            final(mmu)@.wf(),
            4 <= cycles <= 24,
    {
        if row % 2 == 0 {
            let v: u16 = self.pop(mmu);
            self.r.set_stack(row / 2, v);
            12
        } else if row == 1 {
            let target: u16 = self.pop(mmu);
            self.r.pc = target;
            16
        } else if row == 3 {
            let target: u16 = self.pop(mmu);
            self.r.pc = target;
            let mut i: Interrupts = mmu.interrupts();
            i.master = true;
            mmu.set_interrupts(i);
            16
        } else if row == 5 {
            self.r.pc = self.r.hl();
            4
        } else {
            self.r.sp = self.r.hl();
            8
        }
    }

    /// Column 2 of the last quarter.
    fn jump_column(&mut self, mmu: &mut Mmu, row: u8) -> (cycles: u8)
        requires
            old(mmu)@.wf(),
            row < 8,
        ensures
            outcome(*final(self), final(mmu)@, cycles) == state(*old(self), old(mmu)@).jump_spec(
                row,
            ),
            final(mmu)@.wf(),
            4 <= cycles <= 24,
    {
        if row < 4 {
            if self.r.test(row) {
                self.r.pc = mmu.rw(self.r.pc);
                16
            } else {
                self.r.pc = offset16(self.r.pc, 2);
                12
            }
        } else if row == 4 {
            mmu.wb(0xFF00 + self.r.c as u16, self.r.a);
            8
        } else if row == 5 {
            let addr: u16 = self.imm16(mmu);
            mmu.wb(addr, self.r.a);
            16
        } else if row == 6 {
            self.r.a = mmu.rb(0xFF00 + self.r.c as u16);
            8
        } else {
            let addr: u16 = self.imm16(mmu);
            self.r.a = mmu.rb(addr);
            16
        }
    }

    /// The instructions behind the prefix.
    fn prefixed(&mut self, mmu: &mut Mmu, op: u8) -> (cycles: u8)
        requires
            old(mmu)@.wf(),
        ensures
            outcome(*final(self), final(mmu)@, cycles) == state(
                *old(self),
                old(mmu)@,
            ).prefixed_spec(op),
            final(mmu)@.wf(),
            4 <= cycles <= 24,
    {
        proof {
            reveal(Machine::prefixed_spec);
        }
        let group: u8 = op / 64;
        let n: u8 = op / 8 % 8;
        let i: u8 = op % 8;
        let v: u8 = self.reg8(mmu, i);
        if group == 0 {
            let s: Byte = shift(n, v, self.r.flags.carry);
            self.set_reg8(mmu, i, s.value);
            self.r.flags = s.flags;
            if i == 6 { 16 } else { 8 }
        } else if group == 1 {
            self.r.flags = test_bit(n, v, self.r.flags);
            if i == 6 { 12 } else { 8 }
        } else if group == 2 {
            self.set_reg8(mmu, i, clear_bit(n, v));
            if i == 6 { 16 } else { 8 }
        } else {
            self.set_reg8(mmu, i, set_bit(n, v));
            if i == 6 { 16 } else { 8 }
        }
    }

    /// Column 3 of the last quarter.
    fn switch_column(&mut self, mmu: &mut Mmu, row: u8) -> (cycles: u8)
        requires
            old(mmu)@.wf(),
            row == 0 || row == 1 || row == 6 || row == 7,
        ensures
            outcome(*final(self), final(mmu)@, cycles) == state(
                *old(self),
                old(mmu)@,
            ).switch_spec(row),
            final(mmu)@.wf(),
            4 <= cycles <= 24,
    {
        if row == 0 {
            self.r.pc = mmu.rw(self.r.pc);
            16
        } else if row == 1 {
            let op: u8 = self.imm8(mmu);
            self.prefixed(mmu, op)
        } else if row == 6 {
            let mut i: Interrupts = mmu.interrupts();
            i.master = false;
            i.enabling = false;
            mmu.set_interrupts(i);
            4
        } else {
            let mut i: Interrupts = mmu.interrupts();
            i.enabling = true;
            mmu.set_interrupts(i);
            4
        }
    }

    /// A call.
    fn call(&mut self, mmu: &mut Mmu)
        requires
            old(mmu)@.wf(),
        ensures
            state(*final(self), final(mmu)@) == state(*old(self), old(mmu)@).call(),
            final(mmu)@.wf(),
    {
        let target: u16 = self.imm16(mmu);
        let back: u16 = self.r.pc;
        self.push(mmu, back);
        self.r.pc = target;
    }

    /// Column 4 of the last quarter.
    fn call_column(&mut self, mmu: &mut Mmu, row: u8) -> (cycles: u8)
        requires
            old(mmu)@.wf(),
            row < 4,
        ensures
            outcome(*final(self), final(mmu)@, cycles) == state(*old(self), old(mmu)@).call_spec(
                row,
            ),
            final(mmu)@.wf(),
            4 <= cycles <= 24,
    {
        if self.r.test(row) {
            self.call(mmu);
            24
        } else {
            self.r.pc = offset16(self.r.pc, 2);
            12
        }
    }

    /// Column 5 of the last quarter.
    fn push_column(&mut self, mmu: &mut Mmu, row: u8) -> (cycles: u8)
        requires
            old(mmu)@.wf(),
            row < 8,
        ensures
            outcome(*final(self), final(mmu)@, cycles) == state(*old(self), old(mmu)@).push_spec(
                row,
            ),
            final(mmu)@.wf(),
            4 <= cycles <= 24,
    {
        if row % 2 == 0 {
            let v: u16 = self.r.get_stack_pair(row / 2);
            self.push(mmu, v);
            16
        } else {
            self.call(mmu);
            24
        }
    }

    /// The last quarter of the opcodes.
    fn last_quarter(&mut self, mmu: &mut Mmu, op: u8) -> (cycles: u8)
        requires
            old(mmu)@.wf(),
            op >= 0xC0,
            !is_illegal(op),
        ensures
            outcome(*final(self), final(mmu)@, cycles) == state(
                *old(self),
                old(mmu)@,
            ).last_quarter_spec(op),
            final(mmu)@.wf(),
            4 <= cycles <= 24,
    {
        proof {
            reveal(Machine::last_quarter_spec);
        }
        let row: u8 = op / 8 % 8;
        let col: u8 = op % 8;
        if col == 0 {
            self.return_column(mmu, row)
        } else if col == 1 {
            self.pop_column(mmu, row)
        } else if col == 2 {
            self.jump_column(mmu, row)
        } else if col == 3 {
            self.switch_column(mmu, row)
        } else if col == 4 {
            self.call_column(mmu, row)
        } else if col == 5 {
            self.push_column(mmu, row)
        } else if col == 6 {
            let v: u8 = self.imm8(mmu);
            self.accumulate_with(row, v);
            8
        } else {
            let back: u16 = self.r.pc;
            self.push(mmu, back);
            self.r.pc = row as u16 * 8;
            16
        }
    }

    /// Runs the instruction with opcode `op`; the program counter is at the
    /// byte after the opcode.
    fn execute(&mut self, mmu: &mut Mmu, op: u8) -> (cycles: u8)
        requires
            old(mmu)@.wf(),
            !is_illegal(op),
        ensures
            outcome(*final(self), final(mmu)@, cycles) == state(
                *old(self),
                old(mmu)@,
            ).execute_spec(op),
            final(mmu)@.wf(),
            4 <= cycles <= 24,
    {
        proof {
            reveal(Machine::execute_spec);
        }
        if op < 0x40 {
            self.first_quarter(mmu, op)
        } else if op == 0x76 {
            self.halt(mmu)
        } else if op < 0x80 {
            self.load(mmu, op)
        } else if op < 0xC0 {
            self.arithmetic(mmu, op)
        } else {
            self.last_quarter(mmu, op)
        }
    }

    /// Serves an interrupt.
    fn serve(&mut self, mmu: &mut Mmu, i: Interrupt)
        requires
            old(mmu)@.wf(),
        ensures
            state(*final(self), final(mmu)@) == state(*old(self), old(mmu)@).serve_spec(i),
            final(mmu)@.wf(),
    {
        self.halted = false;
        let mut ints: Interrupts = mmu.interrupts();
        ints.serve(i);
        mmu.set_interrupts(ints);
        let back: u16 = self.r.pc;
        self.push(mmu, back);
        self.r.pc = i.vector();
    }

    /// Whether an opcode is no instruction.
    pub fn illegal(op: u8) -> (b: bool)
        ensures
            b == is_illegal(op),
    {
        op == 0xD3 || op == 0xDB || op == 0xDD || op == 0xE3 || op == 0xE4 || op == 0xEB || op
            == 0xEC || op == 0xED || op == 0xF4 || op == 0xFC || op == 0xFD
    }

    /// Takes one step: serves a ready interrupt or runs one instruction, and
    /// returns the cycles that this took, between 4 and 24.
    ///
    /// A processor that has locked up on an opcode that is no instruction
    /// stays as it is, whatever is called; `locked` says so.
    pub fn exec(&mut self, mmu: &mut Mmu) -> (cycles: u8)
        requires
            old(mmu)@.wf(),
        ensures
            outcome(*final(self), final(mmu)@, cycles) == state(*old(self), old(mmu)@).step_spec(),
            final(mmu)@.wf(),
            4 <= cycles <= 24,
    {
        proof {
            reveal(Machine::step_spec);
        }
        if self.locked {
            return 4;
        }
        let ints: Interrupts = mmu.interrupts();
        let next: Option<Interrupt> = ints.next();
        match next {
            Some(i) => {
                if ints.master {
                    self.serve(mmu, i);
                    return 20;
                }
            },
            None => {
                if self.halted {
                    return 4;
                }
            },
        }
        self.halted = false;
        if ints.enabling {
            let mut on: Interrupts = ints;
            on.master = true;
            on.enabling = false;
            mmu.set_interrupts(on);
        }
        let op: u8 = mmu.rb(self.r.pc);
        if Cpu::illegal(op) {
            self.locked = true;
            return 4;
        }
        if self.halt_bug {
            self.halt_bug = false;
        } else {
            self.r.pc = inc16(self.r.pc);
        }
        self.execute(mmu, op)
    }

    /// Adds E to A, as opcode 83 does, in 4 cycles: A takes the sum modulo
    /// 256, Carry is set iff the sum exceeds 255, Half-Carry iff the sum of
    /// the low nibbles exceeds 15, Zero iff the result is 0, and Subtract
    /// is cleared.
    pub fn add_register_e(&mut self) -> (cycles: u8)
        ensures
            final(self).r.a == (old(self).r.a + old(self).r.e) % 256,
            final(self).r.flags.carry <==> old(self).r.a + old(self).r.e > 255,
            final(self).r.flags.half_carry <==> old(self).r.a % 16 + old(self).r.e % 16 > 15,
            final(self).r.flags.zero <==> final(self).r.a == 0,
            !final(self).r.flags.subtract,
            *final(self) == (Cpu {
                r: Registers { a: final(self).r.a, flags: final(self).r.flags, ..old(self).r },
                ..*old(self)
            }),
            cycles == 4,
            forall|m: MmuView|
                outcome(*final(self), m, cycles) == #[trigger] state(*old(self), m).arithmetic_spec(
                    0x83,
                ),
    {
        self.accumulate_with(0, self.r.e);
        4
    }

    /// Compares B with A, as opcode B8 does, in 4 cycles: A is kept, Zero
    /// is set iff the two are equal, Carry iff A is less than B, Half-Carry
    /// iff the low nibble of A is less than that of B, and Subtract is
    /// set.
    pub fn compare_register_b(&mut self) -> (cycles: u8)
        ensures
            final(self).r.flags == (Flags {
                zero: old(self).r.a == old(self).r.b,
                subtract: true,
                half_carry: old(self).r.a % 16 < old(self).r.b % 16,
                carry: old(self).r.a < old(self).r.b,
            }),
            *final(self) == (Cpu {
                r: Registers { flags: final(self).r.flags, ..old(self).r },
                ..*old(self)
            }),
            cycles == 4,
            forall|m: MmuView|
                outcome(*final(self), m, cycles) == #[trigger] state(*old(self), m).arithmetic_spec(
                    0xB8,
                ),
    {
        self.accumulate_with(7, self.r.b);
        4
    }

    /// Does nothing, as opcode 00 does, in 4 cycles.
    pub fn no_operation(&mut self) -> (cycles: u8)
        ensures
            *final(self) == *old(self),
            cycles == 4,
    {
        4
    }

    /// Pushes BC, as opcode C5 does, in 16 cycles: the stack pointer is
    /// lowered by two, B is written above C.
    pub fn push_registers_b_c(&mut self, mmu: &mut Mmu) -> (cycles: u8)
        requires
            old(mmu)@.wf(),
        ensures
            outcome(*final(self), final(mmu)@, cycles) == state(*old(self), old(mmu)@).push_spec(
                0,
            ),
            final(self).r == (Registers { sp: wrap16(old(self).r.sp - 2), ..old(self).r }),
            final(mmu)@ == old(mmu)@.write_spec(wrap16(old(self).r.sp - 1), old(self).r.b)
                .write_spec(wrap16(old(self).r.sp - 2), old(self).r.c),
            final(mmu)@.wf(),
            cycles == 16,
    {
        proof {
            crate::registers::lemma_pair_split(self.r.b, self.r.c, 0);
        }
        self.push_column(mmu, 0)
    }

    /// Pops HL, as opcode E1 does, in 12 cycles: L takes the byte at the
    /// stack pointer, H the byte above it, and the stack pointer is raised
    /// by two.
    pub fn pop_registers_h_l(&mut self, mmu: &Mmu) -> (cycles: u8)
        requires
            mmu@.wf(),
        ensures
            outcome(*final(self), mmu@, cycles) == state(*old(self), mmu@).pop_spec(4),
            final(self).r == (Registers {
                l: mmu@.read_spec(old(self).r.sp),
                h: mmu@.read_spec(wrap16(old(self).r.sp + 1)),
                sp: wrap16(old(self).r.sp + 2),
                ..old(self).r
            }),
            cycles == 12,
    {
        proof {
            crate::registers::lemma_pair_split(
                mmu@.read_spec(wrap16(self.r.sp + 1)),
                mmu@.read_spec(self.r.sp),
                0,
            );
        }
        let v: u16 = self.pop(mmu);
        self.r.set_hl(v);
        12
    }

    /// Loads A from the address that follows the opcode, as opcode FA
    /// does, in 16 cycles; the program counter moves past the address.
    pub fn ldamm(&mut self, mmu: &Mmu) -> (cycles: u8)
        requires
            mmu@.wf(),
        ensures
            outcome(*final(self), mmu@, cycles) == state(*old(self), mmu@).jump_spec(7),
            final(self).r == (Registers {
                a: mmu@.read_spec(mmu@.read_word_spec(old(self).r.pc)),
                pc: wrap16(old(self).r.pc + 2),
                ..old(self).r
            }),
            cycles == 16,
    {
        let addr: u16 = self.imm16(mmu);
        self.r.a = mmu.rb(addr);
        16
    }
}

} // verus!
