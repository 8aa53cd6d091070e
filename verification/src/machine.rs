//! The machine as the instruction set sees it: the processor's state beside
//! the memory subsystem, and what every instruction makes of them.
//!
//! Everything here is ghost code: definitions and laws that the verifier
//! reads and the compiler drops. An instruction is a function from the
//! machine after its opcode was fetched to the machine after it ran, with the
//! cycles that it took. The opcode space is regular, and the functions follow
//! it: an opcode is taken apart into its quarter, its row (bits 5 to 3) and
//! its column (bits 2 to 0).

use vstd::prelude::*;
use crate::cpu::Cpu;
use crate::alu::{
    accumulate_spec, add16_spec, add_signed_spec, clear_bit_spec, dec8_spec,
    decimal_adjust_spec, inc8_spec, set_bit_spec, shift_spec, signed, test_bit_spec, wrap16,
};
use crate::interrupts::{Interrupt, Interrupts};
use crate::mmu::MmuView;
use crate::registers::{high, low, pair, Flags, Registers};

verus! {

/// The processor beside the memory subsystem.
pub struct Machine {
    pub cpu: Cpu,
    pub mem: MmuView,
}

/// The machine after a step, and the cycles that the step took.
pub struct Step {
    pub machine: Machine,
    pub cycles: u8,
}

/// The machine made of a processor and a memory subsystem.
pub open spec fn state(cpu: Cpu, mem: MmuView) -> Machine {
    Machine { cpu, mem }
}

/// The opcodes that are no instructions: the processor locks up on them.
pub open spec fn is_illegal(op: u8) -> bool {
    op == 0xD3 || op == 0xDB || op == 0xDD || op == 0xE3 || op == 0xE4 || op == 0xEB || op
        == 0xEC || op == 0xED || op == 0xF4 || op == 0xFC || op == 0xFD
}

impl Machine {
    /// The machine with another register file.
    pub open spec fn with_regs(self, r: Registers) -> Machine {
        Machine { cpu: Cpu { r, ..self.cpu }, ..self }
    }

    /// The machine with other flags.
    pub open spec fn with_flags(self, flags: Flags) -> Machine {
        self.with_regs(Registers { flags, ..self.cpu.r })
    }

    /// The machine with another accumulator.
    pub open spec fn with_a(self, a: u8) -> Machine {
        self.with_regs(Registers { a, ..self.cpu.r })
    }

    /// The machine with another state of the interrupt controller.
    pub open spec fn with_interrupts(self, i: Interrupts) -> Machine {
        Machine { mem: MmuView { interrupts: i, ..self.mem }, ..self }
    }

    /// The machine with the program counter at `addr`.
    pub open spec fn jump(self, addr: u16) -> Machine {
        self.with_regs(Registers { pc: addr, ..self.cpu.r })
    }

    /// The machine with the program counter moved by `n`, modulo 65536.
    pub open spec fn skip(self, n: int) -> Machine {
        self.jump(wrap16(self.cpu.r.pc + n))
    }

    /// The byte at the program counter.
    pub open spec fn imm8(self) -> u8 {
        self.mem.read_spec(self.cpu.r.pc)
    }

    /// The 16-bit value at the program counter, low byte first.
    pub open spec fn imm16(self) -> u16 {
        self.mem.read_word_spec(self.cpu.r.pc)
    }

    /// The pair HL.
    pub open spec fn hl(self) -> u16 {
        pair(self.cpu.r.h, self.cpu.r.l)
    }

    /// The machine after a write of `v` to `addr`.
    pub open spec fn write(self, addr: u16, v: u8) -> Machine {
        Machine { mem: self.mem.write_spec(addr, v), ..self }
    }

    /// The 8-bit operand with number `i`: B, C, D, E, H, L, the byte at the
    /// address in HL, A.
    pub open spec fn reg8(self, i: u8) -> u8 {
        let r = self.cpu.r;
        if i == 0 {
            r.b
        } else if i == 1 {
            r.c
        } else if i == 2 {
            r.d
        } else if i == 3 {
            r.e
        } else if i == 4 {
            r.h
        } else if i == 5 {
            r.l
        } else if i == 6 {
            self.mem.read_spec(self.hl())
        } else {
            r.a
        }
    }

    /// The machine with `v` in the 8-bit operand with number `i`.
    pub open spec fn set_reg8(self, i: u8, v: u8) -> Machine {
        let r = self.cpu.r;
        if i == 0 {
            self.with_regs(Registers { b: v, ..r })
        } else if i == 1 {
            self.with_regs(Registers { c: v, ..r })
        } else if i == 2 {
            self.with_regs(Registers { d: v, ..r })
        } else if i == 3 {
            self.with_regs(Registers { e: v, ..r })
        } else if i == 4 {
            self.with_regs(Registers { h: v, ..r })
        } else if i == 5 {
            self.with_regs(Registers { l: v, ..r })
        } else if i == 6 {
            self.write(self.hl(), v)
        } else {
            self.with_regs(Registers { a: v, ..r })
        }
    }

    /// The 16-bit operand with number `i`: BC, DE, HL, SP.
    pub open spec fn pair16(self, i: u8) -> u16 {
        self.cpu.r.pair16(i)
    }

    /// The machine with `v` in the 16-bit operand with number `i`.
    pub open spec fn set_pair16(self, i: u8, v: u16) -> Machine {
        self.with_regs(self.cpu.r.set_pair16(i, v))
    }

    /// The pair with number `i` as the stack instructions count them: BC,
    /// DE, HL, AF.
    pub open spec fn stack_pair(self, i: u8) -> u16 {
        self.cpu.r.stack_pair(i)
    }

    /// The machine with `v` in the pair with number `i` as the stack
    /// instructions count them. The low nibble of F takes nothing.
    pub open spec fn set_stack_pair(self, i: u8, v: u16) -> Machine {
        self.with_regs(self.cpu.r.set_stack_pair(i, v))
    }

    /// The machine after `v` was pushed: the stack pointer is lowered by
    /// two, the high byte is written above the low byte.
    pub open spec fn push(self, v: u16) -> Machine {
        let upper = wrap16(self.cpu.r.sp - 1);
        let lower = wrap16(self.cpu.r.sp - 2);
        self.with_regs(Registers { sp: lower, ..self.cpu.r }).write(upper, high(v)).write(
            lower,
            low(v),
        )
    }

    /// The 16-bit value on top of the stack.
    pub open spec fn top(self) -> u16 {
        self.mem.read_word_spec(self.cpu.r.sp)
    }

    /// The machine after the top of the stack was taken: the stack pointer
    /// is raised by two.
    pub open spec fn pop(self) -> Machine {
        self.with_regs(Registers { sp: wrap16(self.cpu.r.sp + 2), ..self.cpu.r })
    }

    /// The condition with number `i`: Zero clear, Zero set, Carry clear,
    /// Carry set.
    pub open spec fn condition(self, i: u8) -> bool {
        self.cpu.r.condition(i)
    }

    /// The machine after `cycles` cycles of an instruction.
    pub open spec fn done(self, cycles: u8) -> Step {
        Step { machine: self, cycles }
    }

    /// The cycles of an instruction that takes `base` cycles on a register
    /// and `memory` cycles on the byte at the address in HL.
    pub open spec fn cost(i: u8, base: u8, memory: u8) -> u8 {
        if i == 6 { memory } else { base }
    }

    /// A relative jump: the byte at the program counter is a signed offset
    /// from the address after it.
    pub open spec fn jump_relative(self) -> Machine {
        self.skip(1 + signed(self.imm8()))
    }

    /// A call: the address after the operand is pushed and the operand
    /// becomes the program counter.
    pub open spec fn call(self) -> Machine {
        self.skip(2).push(wrap16(self.cpu.r.pc + 2)).jump(self.imm16())
    }

    /// A return: the top of the stack becomes the program counter.
    pub open spec fn ret(self) -> Machine {
        self.pop().jump(self.top())
    }

    /// Column 0 of the first quarter: no operation (4 cycles); storing the
    /// stack pointer at an address (20); stopping (4); the relative jump
    /// (12) and the four conditional ones (12 when taken, else 8).
    pub open spec fn control_spec(self, row: u8) -> Step {
        if row == 0 {
            self.done(4)
        } else if row == 1 {
            Machine { mem: self.mem.write_word_spec(self.imm16(), self.cpu.r.sp), ..self }.skip(
                2,
            ).done(20)
        } else if row == 2 {
            Machine { cpu: Cpu { halted: true, ..self.cpu }, ..self }.skip(1).done(4)
        } else if row == 3 || self.condition((row - 4) as u8) {
            self.jump_relative().done(12)
        } else {
            self.skip(1).done(8)
        }
    }

    /// Column 1 of the first quarter: loading a pair from the operand (12
    /// cycles) in the even rows, adding a pair to HL (8) in the odd ones.
    pub open spec fn pair_load_spec(self, row: u8) -> Step {
        if row % 2 == 0 {
            self.set_pair16(row / 2, self.imm16()).skip(2).done(12)
        } else {
            let sum = add16_spec(self.hl(), self.pair16(row / 2), self.cpu.r.flags);
            self.set_pair16(2, sum.value).with_flags(sum.flags).done(8)
        }
    }

    /// The address that the loads of column 2 use: BC, DE, HL, HL.
    pub open spec fn pointer(self, i: u8) -> u16 {
        if i == 0 {
            pair(self.cpu.r.b, self.cpu.r.c)
        } else if i == 1 {
            pair(self.cpu.r.d, self.cpu.r.e)
        } else {
            self.hl()
        }
    }

    /// The machine after the loads of column 2 moved HL: up by one for
    /// pointer 2, down by one for pointer 3.
    pub open spec fn moved(self, i: u8) -> Machine {
        if i == 2 {
            self.set_pair16(2, wrap16(self.hl() + 1))
        } else if i == 3 {
            self.set_pair16(2, wrap16(self.hl() - 1))
        } else {
            self
        }
    }

    /// Column 2 of the first quarter: storing A at a pointer in the even
    /// rows, loading A from it in the odd ones (8 cycles).
    pub open spec fn indirect_spec(self, row: u8) -> Step {
        let at = self.pointer(row / 2);
        if row % 2 == 0 {
            self.write(at, self.cpu.r.a).moved(row / 2).done(8)
        } else {
            self.with_a(self.mem.read_spec(at)).moved(row / 2).done(8)
        }
    }

    /// Column 3 of the first quarter: a pair plus one in the even rows,
    /// minus one in the odd ones, modulo 65536 and without flags (8
    /// cycles).
    pub open spec fn pair_step_spec(self, row: u8) -> Step {
        let v = self.pair16(row / 2);
        self.set_pair16(row / 2, wrap16(if row % 2 == 0 { v + 1 } else { v - 1 })).done(8)
    }

    /// Columns 4 and 5 of the first quarter: an 8-bit operand plus one, or
    /// minus one (4 cycles, 12 on memory).
    pub open spec fn step8_spec(self, row: u8, down: bool) -> Step {
        let v = self.reg8(row);
        let r = if down { dec8_spec(v, self.cpu.r.flags) } else { inc8_spec(v, self.cpu.r.flags) };
        self.set_reg8(row, r.value).with_flags(r.flags).done(Machine::cost(row, 4, 12))
    }

    /// Column 6 of the first quarter: loading an 8-bit operand from the
    /// byte after the opcode (8 cycles, 12 on memory).
    pub open spec fn load_immediate_spec(self, row: u8) -> Step {
        self.skip(1).set_reg8(row, self.imm8()).done(Machine::cost(row, 8, 12))
    }

    /// Column 7 of the first quarter, all on the accumulator and in 4
    /// cycles: the four rotations, which leave Zero clear; the decimal
    /// adjustment; the complement, which sets Subtract and Half-Carry;
    /// setting Carry and inverting it, which clear Subtract and Half-Carry.
    pub open spec fn accumulator_spec(self, row: u8) -> Step {
        let r = self.cpu.r;
        let f = r.flags;
        if row < 4 {
            let s = shift_spec(row, r.a, f.carry);
            self.with_regs(Registers { a: s.value, flags: Flags { zero: false, ..s.flags }, ..r })
                .done(4)
        } else if row == 4 {
            let d = decimal_adjust_spec(r.a, f);
            self.with_regs(Registers { a: d.value, flags: d.flags, ..r }).done(4)
        } else if row == 5 {
            self.with_regs(
                Registers {
                    a: (255 - r.a) as u8,
                    flags: Flags { subtract: true, half_carry: true, ..f },
                    ..r
                },
            ).done(4)
        } else if row == 6 {
            self.with_flags(Flags { subtract: false, half_carry: false, carry: true, ..f }).done(
                4,
            )
        } else {
            self.with_flags(Flags { subtract: false, half_carry: false, carry: !f.carry, ..f })
                .done(4)
        }
    }

    /// The first quarter of the opcodes, 00 to 3F.
    #[verifier::opaque]
    pub open spec fn first_quarter_spec(self, op: u8) -> Step {
        let row = op / 8;
        let col = op % 8;
        if col == 0 {
            self.control_spec(row)
        } else if col == 1 {
            self.pair_load_spec(row)
        } else if col == 2 {
            self.indirect_spec(row)
        } else if col == 3 {
            self.pair_step_spec(row)
        } else if col == 4 {
            self.step8_spec(row, false)
        } else if col == 5 {
            self.step8_spec(row, true)
        } else if col == 6 {
            self.load_immediate_spec(row)
        } else {
            self.accumulator_spec(row)
        }
    }

    /// Waiting for an interrupt (opcode 76). With master-enable off and an
    /// interrupt ready the processor does not wait, and fetches the next
    /// opcode twice.
    pub open spec fn halt_spec(self) -> Step {
        if !self.mem.interrupts.master && self.mem.interrupts.next_spec() is Some {
            Machine { cpu: Cpu { halt_bug: true, ..self.cpu }, ..self }.done(4)
        } else {
            Machine { cpu: Cpu { halted: true, ..self.cpu }, ..self }.done(4)
        }
    }

    /// The second quarter, 40 to 7F without 76: loading the operand of the
    /// row from the operand of the column (4 cycles, 8 with memory).
    pub open spec fn load_spec(self, op: u8) -> Step {
        let to = op / 8 % 8;
        let from = op % 8;
        self.set_reg8(to, self.reg8(from)).done(if to == 6 || from == 6 { 8 } else { 4 })
    }

    /// The machine after an accumulator operation with the operand `v`.
    pub open spec fn accumulated(self, which: u8, v: u8) -> Machine {
        let r = accumulate_spec(which, self.cpu.r.a, v, self.cpu.r.flags);
        self.with_regs(Registers { a: r.value, flags: r.flags, ..self.cpu.r })
    }

    /// The third quarter, 80 to BF: the accumulator operation of the row on
    /// the operand of the column (4 cycles, 8 on memory).
    pub open spec fn arithmetic_spec(self, op: u8) -> Step {
        self.accumulated(op / 8 % 8, self.reg8(op % 8)).done(Machine::cost(op % 8, 4, 8))
    }

    /// Column 0 of the last quarter: the conditional returns (20 cycles
    /// when taken, else 8); storing A in the high page at the operand (12);
    /// adding the signed operand to the stack pointer (16); loading A from
    /// the high page (12); loading HL with the stack pointer plus the signed
    /// operand (12).
    pub open spec fn return_spec(self, row: u8) -> Step {
        if row < 4 {
            if self.condition(row) {
                self.ret().done(20)
            } else {
                self.done(8)
            }
        } else if row == 4 {
            self.skip(1).write((0xFF00 + self.imm8()) as u16, self.cpu.r.a).done(12)
        } else if row == 5 {
            let s = add_signed_spec(self.cpu.r.sp, self.imm8());
            self.with_regs(
                Registers {
                    sp: s.value,
                    flags: s.flags,
                    pc: wrap16(self.cpu.r.pc + 1),
                    ..self.cpu.r
                },
            ).done(16)
        } else if row == 6 {
            self.skip(1).with_a(self.mem.read_spec((0xFF00 + self.imm8()) as u16)).done(12)
        } else {
            let s = add_signed_spec(self.cpu.r.sp, self.imm8());
            self.with_regs(
                Registers {
                    h: high(s.value),
                    l: low(s.value),
                    flags: s.flags,
                    pc: wrap16(self.cpu.r.pc + 1),
                    ..self.cpu.r
                },
            ).done(12)
        }
    }

    /// Column 1 of the last quarter: popping a pair in the even rows (12
    /// cycles); the return (16); the return that turns master-enable on
    /// (16); the jump to HL (4); loading the stack pointer from HL (8).
    pub open spec fn pop_spec(self, row: u8) -> Step {
        if row % 2 == 0 {
            self.pop().set_stack_pair(row / 2, self.top()).done(12)
        } else if row == 1 {
            self.ret().done(16)
        } else if row == 3 {
            self.ret().with_interrupts(Interrupts { master: true, ..self.mem.interrupts }).done(
                16,
            )
        } else if row == 5 {
            self.jump(self.hl()).done(4)
        } else {
            self.set_pair16(3, self.hl()).done(8)
        }
    }

    /// Column 2 of the last quarter: the conditional jumps (16 cycles when
    /// taken, else 12); storing A in the high page at C (8) or at the
    /// operand's address (16); loading A from there (8 and 16).
    pub open spec fn jump_spec(self, row: u8) -> Step {
        if row < 4 {
            if self.condition(row) {
                self.jump(self.imm16()).done(16)
            } else {
                self.skip(2).done(12)
            }
        } else if row == 4 {
            self.write((0xFF00 + self.cpu.r.c) as u16, self.cpu.r.a).done(8)
        } else if row == 5 {
            self.skip(2).write(self.imm16(), self.cpu.r.a).done(16)
        } else if row == 6 {
            self.with_a(self.mem.read_spec((0xFF00 + self.cpu.r.c) as u16)).done(8)
        } else {
            self.skip(2).with_a(self.mem.read_spec(self.imm16())).done(16)
        }
    }

    /// The instructions behind the prefix CB, on the operand of the
    /// column: the rotation or shift of the row in the first quarter,
    /// testing the bit of the row in the second, clearing it in the third,
    /// setting it in the last (8 cycles; on memory 16, and 12 for a test).
    #[verifier::opaque]
    pub open spec fn prefixed_spec(self, op: u8) -> Step {
        let group = op / 64;
        let n = op / 8 % 8;
        let i = op % 8;
        let v = self.reg8(i);
        if group == 0 {
            let s = shift_spec(n, v, self.cpu.r.flags.carry);
            self.set_reg8(i, s.value).with_flags(s.flags).done(Machine::cost(i, 8, 16))
        } else if group == 1 {
            self.with_flags(test_bit_spec(n, v, self.cpu.r.flags)).done(Machine::cost(i, 8, 12))
        } else if group == 2 {
            self.set_reg8(i, clear_bit_spec(n, v)).done(Machine::cost(i, 8, 16))
        } else {
            self.set_reg8(i, set_bit_spec(n, v)).done(Machine::cost(i, 8, 16))
        }
    }

    /// Column 3 of the last quarter, without the opcodes that are no
    /// instructions: the jump (16 cycles); the prefix; turning master-enable
    /// off, at once (4); turning it on, which takes effect after the
    /// instruction that follows (4).
    pub open spec fn switch_spec(self, row: u8) -> Step {
        if row == 0 {
            self.jump(self.imm16()).done(16)
        } else if row == 1 {
            self.skip(1).prefixed_spec(self.imm8())
        } else if row == 6 {
            self.with_interrupts(
                Interrupts { master: false, enabling: false, ..self.mem.interrupts },
            ).done(4)
        } else {
            self.with_interrupts(Interrupts { enabling: true, ..self.mem.interrupts }).done(4)
        }
    }

    /// Column 4 of the last quarter: the conditional calls (24 cycles when
    /// taken, else 12).
    pub open spec fn call_spec(self, row: u8) -> Step {
        if self.condition(row) {
            self.call().done(24)
        } else {
            self.skip(2).done(12)
        }
    }

    /// Column 5 of the last quarter: pushing a pair in the even rows (16
    /// cycles), the call (24).
    pub open spec fn push_spec(self, row: u8) -> Step {
        if row % 2 == 0 {
            self.push(self.stack_pair(row / 2)).done(16)
        } else {
            self.call().done(24)
        }
    }

    /// The last quarter of the opcodes, C0 to FF, without those that are
    /// no instructions. Column 6 is the accumulator operation of the row on
    /// the byte after the opcode (8 cycles); column 7 calls the address
    /// that is eight times the row (16).
    #[verifier::opaque]
    pub open spec fn last_quarter_spec(self, op: u8) -> Step {
        let row = op / 8 % 8;
        let col = op % 8;
        if col == 0 {
            self.return_spec(row)
        } else if col == 1 {
            self.pop_spec(row)
        } else if col == 2 {
            self.jump_spec(row)
        } else if col == 3 {
            self.switch_spec(row)
        } else if col == 4 {
            self.call_spec(row)
        } else if col == 5 {
            self.push_spec(row)
        } else if col == 6 {
            self.skip(1).accumulated(row, self.imm8()).done(8)
        } else {
            self.push(self.cpu.r.pc).jump((row * 8) as u16).done(16)
        }
    }

    /// What the instruction with opcode `op` makes of the machine; the
    /// program counter is at the byte after the opcode.
    #[verifier::opaque]
    pub open spec fn execute_spec(self, op: u8) -> Step {
        if op < 0x40 {
            self.first_quarter_spec(op)
        } else if op == 0x76 {
            self.halt_spec()
        } else if op < 0x80 {
            self.load_spec(op)
        } else if op < 0xC0 {
            self.arithmetic_spec(op)
        } else {
            self.last_quarter_spec(op)
        }
    }

    /// The machine after serving an interrupt: the processor is awake, the
    /// request is cleared, master-enable is off, the program counter is on
    /// the stack and the service routine's address has taken its place.
    pub open spec fn serve_spec(self, i: Interrupt) -> Machine {
        Machine { cpu: Cpu { halted: false, ..self.cpu }, ..self }.with_interrupts(
            self.mem.interrupts.serve_spec(i),
        ).push(self.cpu.r.pc).jump(i.vector_spec())
    }

    /// The machine with master-enable turned on if the enabling instruction
    /// ran before the last one.
    pub open spec fn enabled(self) -> Machine {
        if self.mem.interrupts.enabling {
            self.with_interrupts(
                Interrupts { master: true, enabling: false, ..self.mem.interrupts },
            )
        } else {
            self
        }
    }

    /// The machine after the opcode was fetched: the program counter has
    /// moved on, unless the opcode is to be fetched twice.
    pub open spec fn fetched(self) -> Machine {
        if self.cpu.halt_bug {
            Machine { cpu: Cpu { halt_bug: false, ..self.cpu }, ..self }
        } else {
            self.skip(1)
        }
    }

    /// One step of the processor.
    ///
    /// A processor that has locked up stays as it is; 4 cycles pass. Else a
    /// ready interrupt wakes a waiting processor, and with master-enable on
    /// the ready interrupt of highest priority is served in 20 cycles. Else
    /// a waiting processor waits on; 4 cycles pass. Else a delayed enabling
    /// takes effect, the opcode at the program counter is fetched, and
    /// either it is no instruction, and the processor locks up with its
    /// registers as they were before the fetch, or the instruction runs.
    #[verifier::opaque]
    pub open spec fn step_spec(self) -> Step {
        if self.cpu.locked {
            self.done(4)
        } else if self.serves() is Some {
            self.serve_spec(self.serves()->0).done(20)
        } else if self.waits() {
            self.done(4)
        } else if is_illegal(self.opcode()) {
            self.awake().locked().done(4)
        } else {
            self.awake().fetched().execute_spec(self.opcode())
        }
    }

    /// The interrupt that the next step serves, if it serves one: with
    /// master-enable on, the ready interrupt of highest priority.
    pub open spec fn serves(self) -> Option<Interrupt> {
        if self.mem.interrupts.master {
            self.mem.interrupts.next_spec()
        } else {
            None
        }
    }

    /// Whether the next step only waits: the processor waits for an
    /// interrupt and none is ready.
    pub open spec fn waits(self) -> bool {
        self.cpu.halted && self.mem.interrupts.next_spec() is None
    }

    /// The machine as a step that runs an instruction starts from: the
    /// processor is awake and a delayed enabling has taken effect.
    pub open spec fn awake(self) -> Machine {
        Machine { cpu: Cpu { halted: false, ..self.cpu }, ..self }.enabled()
    }

    /// The opcode that a step that runs an instruction fetches.
    pub open spec fn opcode(self) -> u8 {
        self.awake().imm8()
    }

    /// The machine with the processor locked up.
    pub open spec fn locked(self) -> Machine {
        Machine { cpu: Cpu { locked: true, ..self.cpu }, ..self }
    }

    /// Whether the next step fetches an opcode.
    pub open spec fn fetches(self) -> bool {
        !self.cpu.locked && self.serves() is None && !self.waits()
    }

    /// An interrupt is served only with master-enable on and with its bit
    /// set in both the enable and the request register, and of the
    /// interrupts that are ready the one of highest priority is served. The
    /// step that serves it takes 20 cycles, wakes the processor and leaves
    /// the program counter at the interrupt's service address.
    pub proof fn lemma_served_is_ready(self, j: Interrupt)
        requires
            !self.cpu.locked,
            self.serves() is Some,
        ensures
            self.mem.interrupts.master,
            self.mem.interrupts.ready(self.serves()->0),
            self.mem.interrupts.ready(j) ==> self.serves()->0.line() <= j.line(),
            self.step_spec().cycles == 20,
            self.step_spec().machine.cpu.r.pc == self.serves()->0.vector_spec(),
            !self.step_spec().machine.cpu.halted,
    {
        reveal(Machine::step_spec);
        self.mem.interrupts.lemma_next_is_highest(j);
    }

    /// With master-enable off no interrupt is served, whatever is
    /// requested.
    pub proof fn lemma_master_off_serves_nothing(self)
        requires
            !self.mem.interrupts.master,
        ensures
            self.serves() is None,
    {
    }

    /// The instruction that turns master-enable on takes effect one
    /// instruction late: the step that runs it (opcode FB) leaves
    /// master-enable as it was, so that no interrupt can be served before
    /// the instruction after it has run, and that next instruction starts
    /// with master-enable on.
    pub proof fn lemma_enable_is_delayed(self)
        requires
            self.fetches(),
            self.opcode() == 0xFB,
            !self.mem.interrupts.master,
            !self.mem.interrupts.enabling,
        ensures
            !self.step_spec().machine.mem.interrupts.master,
            self.step_spec().machine.serves() is None,
            self.step_spec().machine.mem.interrupts.enabling,
            self.step_spec().machine.awake().mem.interrupts.master,
    {
        reveal(Machine::step_spec);
        reveal(Machine::execute_spec);
        reveal(Machine::last_quarter_spec);
    }

    /// Asking the processor to wait (opcode 76) while master-enable is off
    /// and an interrupt is ready does not make it wait: the program counter
    /// moves past the opcode, and the fetch of the step after leaves the
    /// program counter where it is, so that the byte there is fetched
    /// twice.
    pub proof fn lemma_halt_bug(self)
        requires
            self.fetches(),
            self.opcode() == 0x76,
            !self.cpu.halt_bug,
            !self.mem.interrupts.master,
            !self.mem.interrupts.enabling,
            self.mem.interrupts.next_spec() is Some,
        ensures
            !self.step_spec().machine.cpu.halted,
            self.step_spec().machine.cpu.halt_bug,
            self.step_spec().cycles == 4,
            self.step_spec().machine.cpu.r.pc == wrap16(self.cpu.r.pc + 1),
            self.step_spec().machine.mem == self.mem,
            self.step_spec().machine.fetches(),
            self.step_spec().machine.awake().fetched().cpu.r.pc
                == self.step_spec().machine.cpu.r.pc,
            !self.step_spec().machine.awake().fetched().cpu.halt_bug,
    {
        reveal(Machine::step_spec);
        reveal(Machine::execute_spec);
    }

    /// Asking the processor to wait when no interrupt is ready, or with
    /// master-enable on, makes it wait: every step then takes 4 cycles and
    /// changes nothing, until an interrupt is ready.
    pub proof fn lemma_halt_waits(self)
        requires
            !self.cpu.locked,
            self.cpu.halted,
            self.mem.interrupts.next_spec() is None,
        ensures
            self.step_spec() == self.done(4),
    {
        reveal(Machine::step_spec);
    }

    /// A processor that has locked up stays as it is: every step leaves the
    /// whole machine, and with it the program counter, unchanged.
    pub proof fn lemma_locked_is_stable(self, n: nat)
        requires
            self.cpu.locked,
        ensures
            self.steps_spec(n) == self,
            self.step_spec() == self.done(4),
        decreases n,
    {
        reveal(Machine::step_spec);
        if n > 0 {
            self.lemma_locked_is_stable((n - 1) as nat);
        }
    }

    /// A step that fetches an opcode that is no instruction locks the
    /// processor up with its registers as they were, and the program
    /// counter is the same after every later step.
    pub proof fn lemma_illegal_opcode_locks(self, n: nat)
        requires
            self.fetches(),
            is_illegal(self.opcode()),
        ensures
            self.step_spec().machine.cpu.locked,
            self.step_spec().machine.cpu.r == self.cpu.r,
            self.step_spec().cycles == 4,
            self.step_spec().machine.steps_spec(n) == self.step_spec().machine,
            self.steps_spec(n + 1).cpu.r.pc == self.cpu.r.pc,
    {
        reveal(Machine::step_spec);
        self.step_spec().machine.lemma_locked_is_stable(n);
    }

    /// The addition instructions (opcodes 80 to 87) leave in A the sum of A
    /// and the operand modulo 256, set Carry iff the sum exceeds 255, set
    /// Half-Carry iff the sum of the low nibbles exceeds 15, set Zero iff
    /// the result is 0, and clear Subtract. Nothing else changes; the cost
    /// is 4 cycles on a register and 8 on memory.
    pub proof fn lemma_add_opcode(self, op: u8)
        requires
            0x80 <= op <= 0x87,
        ensures
            ({
                let x = self.cpu.r.a;
                let y = self.reg8((op - 0x80) as u8);
                let after = self.execute_spec(op).machine;
                &&& after.cpu.r.a == (x + y) % 256
                &&& (after.cpu.r.flags.carry <==> x + y > 255)
                &&& (after.cpu.r.flags.half_carry <==> x % 16 + y % 16 > 15)
                &&& (after.cpu.r.flags.zero <==> after.cpu.r.a == 0)
                &&& !after.cpu.r.flags.subtract
                &&& after == self.with_regs(
                    Registers { a: after.cpu.r.a, flags: after.cpu.r.flags, ..self.cpu.r },
                )
                &&& self.execute_spec(op).cycles == (if op == 0x86 { 8u8 } else { 4u8 })
            }),
    {
        reveal(Machine::execute_spec);
    }

    /// Pushing a 16-bit value and popping it at once gives the value back
    /// and leaves the stack pointer, and every other register, as it was,
    /// where the two bytes below the stack pointer lie in RAM.
    pub proof fn lemma_push_pop(self, v: u16)
        requires
            self.mem.wf(),
            MmuView::is_ram(wrap16(self.cpu.r.sp - 1)),
            MmuView::is_ram(wrap16(self.cpu.r.sp - 2)),
        ensures
            self.push(v).top() == v,
            self.push(v).pop().cpu == self.cpu,
    {
        let upper = wrap16(self.cpu.r.sp - 1);
        let lower = wrap16(self.cpu.r.sp - 2);
        let first = self.mem.write_spec(upper, high(v));
        let second = first.write_spec(lower, low(v));
        self.mem.lemma_write_wf(upper, high(v));
        self.mem.lemma_ram_write_read(upper, high(v));
        first.lemma_ram_write_read(lower, low(v));
        first.lemma_ram_write_elsewhere(lower, low(v), upper);
        assert(wrap16(lower + 1) == upper);
        assert(self.push(v).mem == second);
        assert(second.read_spec(lower) == low(v));
        assert(second.read_spec(upper) == high(v));
        crate::registers::lemma_pair_split(high(v), low(v), v);
    }

    /// A push of a pair followed by a pop into the same pair, as the
    /// instructions do them, restores the pair and the stack pointer, and
    /// with them every register that the instructions touch, where the two
    /// bytes below the stack pointer lie in RAM.
    pub proof fn lemma_push_pop_pair(self, i: u8)
        requires
            self.mem.wf(),
            i < 4,
            MmuView::is_ram(wrap16(self.cpu.r.sp - 1)),
            MmuView::is_ram(wrap16(self.cpu.r.sp - 2)),
        ensures
            ({
                let pushed = self.push_spec((2 * i) as u8).machine;
                let popped = pushed.pop_spec((2 * i) as u8).machine;
                &&& popped.cpu.r == self.cpu.r
                &&& popped.cpu.r.sp == self.cpu.r.sp
                &&& popped.stack_pair(i) == self.stack_pair(i)
            }),
    {
        let v = self.stack_pair(i);
        self.lemma_push_pop(v);
        crate::registers::lemma_pair_split(0, 0, v);
        if i == 3 {
            self.cpu.r.flags.lemma_byte_round_trip(0);
            crate::registers::lemma_pair_split(self.cpu.r.a, self.cpu.r.flags.byte(), v);
        } else if i == 0 {
            crate::registers::lemma_pair_split(self.cpu.r.b, self.cpu.r.c, v);
        } else if i == 1 {
            crate::registers::lemma_pair_split(self.cpu.r.d, self.cpu.r.e, v);
        } else {
            crate::registers::lemma_pair_split(self.cpu.r.h, self.cpu.r.l, v);
        }
    }

    /// The machine after `n` steps.
    pub open spec fn steps_spec(self, n: nat) -> Machine
        decreases n,
    {
        if n == 0 {
            self
        } else {
            self.step_spec().machine.steps_spec((n - 1) as nat)
        }
    }

    /// Whether `after` has a well-formed memory subsystem at the place in
    /// the frame at which this machine is.
    pub open spec fn keeps(self, after: Machine) -> bool {
        after.mem.wf() && after.mem.place() == self.mem.place()
    }

    /// No step of the processor moves the place in the frame or leaves the
    /// memory subsystem ill formed: the pixel-processing unit keeps its own
    /// time, whatever the processor runs.
    pub proof fn lemma_step_keeps(self)
        requires
            self.mem.wf(),
        ensures
            self.keeps(self.step_spec().machine),
            4 <= self.step_spec().cycles <= 24,
    {
        reveal(Machine::step_spec);
        lemma_writes_keep();
        if self.fetches() && !is_illegal(self.opcode()) {
            self.awake().fetched().lemma_execute_keeps(self.opcode());
        }
    }

    /// No instruction moves the place in the frame or leaves the memory
    /// subsystem ill formed, and every instruction takes 4 to 24 cycles.
    pub proof fn lemma_execute_keeps(self, op: u8)
        requires
            self.mem.wf(),
        ensures
            self.keeps(self.execute_spec(op).machine),
            4 <= self.execute_spec(op).cycles <= 24,
    {
        reveal(Machine::execute_spec);
        if op < 0x40 {
            self.lemma_first_quarter_keeps(op);
        } else if op == 0x76 {
        } else if op < 0x80 {
            lemma_writes_keep();
        } else if op < 0xC0 {
        } else {
            self.lemma_last_quarter_keeps(op);
        }
    }

    proof fn lemma_first_quarter_keeps(self, op: u8)
        requires
            self.mem.wf(),
            op < 0x40,
        ensures
            self.keeps(self.first_quarter_spec(op).machine),
            4 <= self.first_quarter_spec(op).cycles <= 24,
    {
        reveal(Machine::first_quarter_spec);
        let row = op / 8;
        let col = op % 8;
        if col == 0 {
            self.lemma_control_keeps(row);
        } else if col == 2 {
            self.lemma_indirect_keeps(row);
        } else if col == 4 {
            self.lemma_step8_keeps(row, false);
        } else if col == 5 {
            self.lemma_step8_keeps(row, true);
        } else if col == 6 {
            self.lemma_load_immediate_keeps(row);
        }
    }

    proof fn lemma_control_keeps(self, row: u8)
        requires
            self.mem.wf(),
        ensures
            self.keeps(self.control_spec(row).machine),
            4 <= self.control_spec(row).cycles <= 24,
    {
        lemma_writes_keep();
    }

    proof fn lemma_indirect_keeps(self, row: u8)
        requires
            self.mem.wf(),
        ensures
            self.keeps(self.indirect_spec(row).machine),
    {
        lemma_writes_keep();
    }

    proof fn lemma_step8_keeps(self, row: u8, down: bool)
        requires
            self.mem.wf(),
        ensures
            self.keeps(self.step8_spec(row, down).machine),
    {
        lemma_writes_keep();
    }

    proof fn lemma_load_immediate_keeps(self, row: u8)
        requires
            self.mem.wf(),
        ensures
            self.keeps(self.load_immediate_spec(row).machine),
    {
        lemma_writes_keep();
    }

    proof fn lemma_last_quarter_keeps(self, op: u8)
        requires
            self.mem.wf(),
            op >= 0xC0,
        ensures
            self.keeps(self.last_quarter_spec(op).machine),
            4 <= self.last_quarter_spec(op).cycles <= 24,
    {
        reveal(Machine::last_quarter_spec);
        let row = op / 8 % 8;
        let col = op % 8;
        if col == 0 {
            self.lemma_return_keeps(row);
        } else if col == 1 {
            self.lemma_pop_keeps(row);
        } else if col == 2 {
            self.lemma_jump_keeps(row);
        } else if col == 3 {
            self.lemma_switch_keeps(row);
        } else if col == 4 {
            self.lemma_call_keeps(row);
        } else if col == 5 {
            self.lemma_push_keeps(row);
        } else if col == 7 {
            lemma_writes_keep();
        }
    }

    proof fn lemma_return_keeps(self, row: u8)
        requires
            self.mem.wf(),
        ensures
            self.keeps(self.return_spec(row).machine),
            4 <= self.return_spec(row).cycles <= 24,
    {
        lemma_writes_keep();
    }

    proof fn lemma_pop_keeps(self, row: u8)
        requires
            self.mem.wf(),
        ensures
            self.keeps(self.pop_spec(row).machine),
            4 <= self.pop_spec(row).cycles <= 24,
    {
    }

    proof fn lemma_jump_keeps(self, row: u8)
        requires
            self.mem.wf(),
        ensures
            self.keeps(self.jump_spec(row).machine),
            4 <= self.jump_spec(row).cycles <= 24,
    {
        lemma_writes_keep();
    }

    proof fn lemma_switch_keeps(self, row: u8)
        requires
            self.mem.wf(),
        ensures
            self.keeps(self.switch_spec(row).machine),
            4 <= self.switch_spec(row).cycles <= 24,
    {
        if row == 1 {
            self.skip(1).lemma_prefixed_keeps(self.imm8());
        }
    }

    proof fn lemma_prefixed_keeps(self, op: u8)
        requires
            self.mem.wf(),
        ensures
            self.keeps(self.prefixed_spec(op).machine),
            4 <= self.prefixed_spec(op).cycles <= 24,
    {
        reveal(Machine::prefixed_spec);
        lemma_writes_keep();
    }

    proof fn lemma_call_keeps(self, row: u8)
        requires
            self.mem.wf(),
        ensures
            self.keeps(self.call_spec(row).machine),
            4 <= self.call_spec(row).cycles <= 24,
    {
        lemma_writes_keep();
    }

    proof fn lemma_push_keeps(self, row: u8)
        requires
            self.mem.wf(),
        ensures
            self.keeps(self.push_spec(row).machine),
            4 <= self.push_spec(row).cycles <= 24,
    {
        lemma_writes_keep();
    }
}

/// Every write keeps the memory subsystem well formed and leaves the place
/// in the frame where it is, whatever the address and the value.
pub proof fn lemma_writes_keep()
    ensures
        forall|m: MmuView, a: u16, v: u8|
            m.wf() ==> (#[trigger] m.write_spec(a, v)).wf() && m.write_spec(a, v).place()
                == m.place(),
{
    assert forall|m: MmuView, a: u16, v: u8| m.wf() implies (#[trigger] m.write_spec(a, v)).wf()
        && m.write_spec(a, v).place() == m.place() by {
        m.lemma_write_wf(a, v);
        m.lemma_write_keeps_place(a, v);
    }
}

} // verus!
