//! The console as one value: the processor and the memory subsystem, and the
//! clock that keeps them in step.
//!
//! A step lets the processor take one step and then advances the timer and
//! the pixel-processing unit by the cycles that the step took. A frame is
//! what runs until the pixel-processing unit reports the end of line 153.

use vstd::prelude::*;
use crate::cartridge::{load_spec, Cartridge, RomLoadError};
use crate::cpu::Cpu;
use crate::joypad::KeypadKey;
use crate::machine::{state, Machine};
use crate::mmu::{Mmu, MmuView};
use crate::ppu::PpuView;

verus! {

/// The width of the picture in pixels.
pub const SCREEN_WIDTH: u32 = 160;

/// The height of the picture in pixels.
pub const SCREEN_HEIGHT: u32 = 144;

/// The bytes of the picture in the pixel format: four for each pixel.
pub const IMAGE_LEN: usize = 92160;

/// How the picture is shown.
#[derive(Clone, Copy, Debug, PartialEq, Eq)]
pub enum RenderMode {
    /// In a window of the desktop's terminal.
    Desktop,
}

/// What a step of the console reports.
#[derive(Clone, Copy, Debug, PartialEq, Eq)]
pub struct Tick {
    /// The cycles that the step took.
    pub cycles: u8,
    /// A frame ended within the step: the picture is complete.
    pub frame: bool,
}

/// What running a frame reports.
#[derive(Clone, Copy, Debug, PartialEq, Eq)]
pub struct FrameReport {
    /// The steps that were taken.
    pub steps: u32,
    /// The cycles that were run.
    pub cycles: u32,
    /// The processor has locked up on an opcode that is no instruction.
    pub locked: bool,
}

/// The brightness of a shade: 0 is white, 3 is black.
pub open spec fn level_spec(shade: u8) -> u8 {
    if shade == 0 {
        0xFF
    } else if shade == 1 {
        0xAA
    } else if shade == 2 {
        0x55
    } else {
        0x00
    }
}

/// The picture in the pixel format: for each pixel, line after line, the
/// bytes red, green, blue and alpha. The three colours are the brightness of
/// the pixel's shade and alpha is 0xFF.
pub open spec fn image_spec(frame: Seq<u8>) -> Seq<u8> {
    Seq::new(
        4 * frame.len(),
        |i: int|
            if i % 4 == 3 {
                0xFFu8
            } else {
                level_spec(frame[i / 4])
            },
    )
}

impl Machine {
    /// The machine after a step of the console: the processor has taken a
    /// step and the timer and the pixel-processing unit have advanced by
    /// the cycles of that step.
    #[verifier::opaque]
    pub open spec fn tick_spec(self) -> Machine {
        let s = self.step_spec();
        Machine { mem: s.machine.mem.advance_spec(s.cycles as nat), ..s.machine }
    }

    /// Whether a frame ends within the next step of the console.
    #[verifier::opaque]
    pub open spec fn tick_ends_frame(self) -> bool {
        let s = self.step_spec();
        s.machine.mem.ppu.events_within(s.cycles as nat).frame
    }

    /// The cycles since the start of the frame.
    pub open spec fn position(self) -> int {
        self.mem.ppu.video.lcd.position()
    }

    /// A step of the console keeps the memory subsystem well formed, takes
    /// 4 to 24 cycles, moves the place in the frame on by those cycles
    /// modulo 70,224, and ends a frame exactly when that passes the end.
    pub proof fn lemma_tick(self)
        requires
            self.mem.wf(),
        ensures
            self.tick_spec().mem.wf(),
            4 <= self.step_spec().cycles <= 24,
            self.tick_spec().position() == (self.position() + self.step_spec().cycles) % 70224,
            self.tick_ends_frame() <==> self.position() + self.step_spec().cycles >= 70224,
    {
        reveal(Machine::tick_spec);
        reveal(Machine::tick_ends_frame);
        self.lemma_step_keeps();
        let s = self.step_spec();
        let p = s.machine.mem.ppu;
        p.lemma_frame_length(s.cycles as nat);
        lemma_frames_and_events(p, s.cycles as nat);
    }

    /// The machine after `n` steps of the console.
    pub open spec fn ticks_spec(self, n: nat) -> Machine
        decreases n,
    {
        if n == 0 {
            self
        } else {
            self.tick_spec().ticks_spec((n - 1) as nat)
        }
    }

    /// The cycles that the next `n` steps of the console take.
    pub open spec fn cycles_within(self, n: nat) -> int
        decreases n,
    {
        if n == 0 {
            0
        } else {
            self.step_spec().cycles + self.tick_spec().cycles_within((n - 1) as nat)
        }
    }

    /// The number of frames that end within the next `n` steps of the
    /// console.
    pub open spec fn frames_within(self, n: nat) -> int
        decreases n,
    {
        if n == 0 {
            0
        } else {
            (if self.tick_ends_frame() { 1int } else { 0 }) + self.tick_spec().frames_within(
                (n - 1) as nat,
            )
        }
    }

    /// One more step of the console, taken after `n` steps: the machine, the
    /// cycles and the frames after `n + 1` steps are those after `n` steps
    /// and one step from there.
    pub proof fn lemma_ticks_extend(self, n: nat)
        ensures
            self.ticks_spec(n + 1) == self.ticks_spec(n).tick_spec(),
            self.cycles_within(n + 1) == self.cycles_within(n) + self.ticks_spec(
                n,
            ).step_spec().cycles,
            self.frames_within(n + 1) == self.frames_within(n) + (if self.ticks_spec(
                n,
            ).tick_ends_frame() {
                1int
            } else {
                0
            }),
        decreases n,
    {
        if n > 0 {
            self.tick_spec().lemma_ticks_extend((n - 1) as nat);
        } else {
            assert(self.tick_spec().ticks_spec(0) == self.tick_spec());
            assert(self.tick_spec().cycles_within(0) == 0);
            assert(self.tick_spec().frames_within(0) == 0);
        }
    }

    /// A frame always lasts 70,224 cycles, whatever the processor runs:
    /// within any number of steps of the console, from any state, the
    /// number of frames that end is the number of multiples of 70,224 that
    /// the cycles of the steps, counted from the start of the current
    /// frame, pass.
    pub proof fn lemma_frames_last_70224_cycles(self, n: nat)
        requires
            self.mem.wf(),
        ensures
            self.ticks_spec(n).mem.wf(),
            self.frames_within(n) == (self.position() + self.cycles_within(n)) / 70224,
            self.ticks_spec(n).position() == (self.position() + self.cycles_within(n)) % 70224,
            4 * n <= self.cycles_within(n) <= 24 * n,
        decreases n,
    {
        if n > 0 {
            self.lemma_tick();
            self.tick_spec().lemma_frames_last_70224_cycles((n - 1) as nat);
        }
    }
}

/// A frame ends within `n` cycles exactly when the count of frames that end
/// within them is not zero.
proof fn lemma_frames_and_events(p: PpuView, n: nat)
    ensures
        p.events_within(n).frame <==> p.frames_within(n) > 0,
    decreases n,
{
    if n > 0 {
        lemma_frames_and_events(p.tick_spec(), (n - 1) as nat);
    }
}

/// The console.
pub struct Gameboy {
    cpu: Cpu,
    mmu: Mmu,
}

impl View for Gameboy {
    type V = Machine;

    closed spec fn view(&self) -> Machine {
        Machine { cpu: self.cpu, mem: self.mmu@ }
    }
}

/// The brightness of a shade.
pub fn level(shade: u8) -> (v: u8)
    ensures
        v == level_spec(shade),
{
    if shade == 0 {
        0xFF
    } else if shade == 1 {
        0xAA
    } else if shade == 2 {
        0x55
    } else {
        0x00
    }
}

impl Gameboy {
    /// The console at power-on, without a cartridge.
    pub fn new() -> (g: Gameboy)
        ensures
            g@ == state(Cpu::power_on(), MmuView::power_on()),
            g@.mem.wf(),
    {
        Gameboy { cpu: Cpu::new(), mmu: Mmu::new() }
    }

    /// The width of the picture.
    pub fn width(&self) -> (w: u32)
        ensures
            w == 160,
    {
        SCREEN_WIDTH
    }

    /// The height of the picture.
    pub fn height(&self) -> (h: u32)
        ensures
            h == 144,
    {
        SCREEN_HEIGHT
    }

    /// The processor.
    pub fn cpu(&self) -> (c: Cpu)
        ensures
            c == self@.cpu,
    {
        self.cpu
    }

    /// Replaces the state of the processor.
    pub fn set_cpu(&mut self, c: Cpu)
        ensures
            final(self)@ == (Machine { cpu: c, ..old(self)@ }),
    {
        self.cpu = c;
    }

    /// The memory subsystem.
    pub fn mmu(&self) -> (m: &Mmu)
        ensures
            m@ == self@.mem,
    {
        &self.mmu
    }

    /// Whether the processor has locked up on an opcode that is no
    /// instruction.
    pub fn is_locked(&self) -> (b: bool)
        ensures
            b == self@.cpu.locked,
    {
        self.cpu.locked
    }

    /// Parses a cartridge image and, if it is accepted, puts the cartridge
    /// into the slot and brings the console to its power-on state. An image
    /// that is not accepted leaves the console as it was.
    pub fn load_rom(&mut self, bytes: Vec<u8>) -> (r: Result<(), RomLoadError>)
        requires
            old(self)@.mem.wf(),
        ensures
            match load_spec(bytes@) {
                Ok(c) => r is Ok && final(self)@ == state(
                    Cpu::power_on(),
                    MmuView::power_on().insert_spec(c),
                ),
                Err(e) => r == Err::<(), RomLoadError>(e) && final(self)@ == old(self)@,
            },
            final(self)@.mem.wf(),
    {
        match Cartridge::load(bytes) {
            Ok(cart) => {
                let mut mmu: Mmu = Mmu::new();
                mmu.insert(cart);
                self.mmu = mmu;
                self.cpu = Cpu::new();
                Ok(())
            },
            Err(e) => Err(e),
        }
    }

    /// What is to be kept when the cartridge leaves the slot: the contents
    /// of its external RAM, if a battery keeps them.
    pub fn save_ram(&self) -> (kept: Option<Vec<u8>>)
        requires
            self@.mem.wf(),
        ensures
            match kept {
                Some(bytes) => self@.mem.save_spec() == Some(bytes@),
                None => self@.mem.save_spec() is None,
            },
    {
        match self.mmu.cartridge() {
            Some(c) => c.save_ram(),
            None => None,
        }
    }

    /// Puts the kept contents of the external RAM back into the cartridge
    /// in the slot and says whether that could be done: it can where the
    /// cartridge has a battery and the length is that of its RAM.
    pub fn restore_ram(&mut self, bytes: Vec<u8>) -> (done: bool)
        requires
            old(self)@.mem.wf(),
        ensures
            done == old(self)@.mem.restores(bytes@),
            final(self)@ == (Machine { mem: old(self)@.mem.restore_spec(bytes@), ..old(self)@ }),
            final(self)@.mem.wf(),
    {
        self.mmu.restore_ram(bytes)
    }

    /// Reads the byte at an address.
    pub fn read(&self, addr: u16) -> (v: u8)
        requires
            self@.mem.wf(),
        ensures
            v == self@.mem.read_spec(addr),
    {
        self.mmu.rb(addr)
    }

    /// Writes a byte to an address.
    pub fn write(&mut self, addr: u16, v: u8)
        requires
            old(self)@.mem.wf(),
        ensures
            final(self)@ == old(self)@.write(addr, v),
            final(self)@.mem.wf(),
    {
        self.mmu.wb(addr, v);
    }

    /// Presses a key. The joypad register shows it at once, and the joypad
    /// interrupt is requested where the press pulls a row low.
    pub fn keydown(&mut self, key: KeypadKey)
        ensures
            final(self)@ == (Machine { mem: old(self)@.mem.key_down_spec(key), ..old(self)@ }),
            old(self)@.mem.wf() ==> final(self)@.mem.wf(),
    {
        self.mmu.key_down(key);
    }

    /// Releases a key.
    pub fn keyup(&mut self, key: KeypadKey)
        ensures
            final(self)@ == (Machine { mem: old(self)@.mem.key_up_spec(key), ..old(self)@ }),
            old(self)@.mem.wf() ==> final(self)@.mem.wf(),
    {
        self.mmu.key_up(key);
    }

    /// Takes one step: the processor serves an interrupt or runs an
    /// instruction, then the timer and the pixel-processing unit advance
    /// by the cycles that this took.
    pub fn step(&mut self) -> (t: Tick)
        requires
            old(self)@.mem.wf(),
        ensures
            final(self)@ == old(self)@.tick_spec(),
            t.cycles == old(self)@.step_spec().cycles,
            t.frame == old(self)@.tick_ends_frame(),
            4 <= t.cycles <= 24,
            final(self)@.mem.wf(),
            final(self)@.position() == (old(self)@.position() + t.cycles) % 70224,
            t.frame <==> old(self)@.position() + t.cycles >= 70224,
    {
        proof {
            reveal(Machine::tick_spec);
            reveal(Machine::tick_ends_frame);
        }
        let cycles: u8 = self.cpu.exec(&mut self.mmu);
        proof {
            old(self)@.lemma_tick();
        }
        let frame: bool = self.mmu.advance(cycles);
        Tick { cycles, frame }
    }

    /// Runs until a frame ends: takes steps until one of them ends a frame,
    /// and says how many steps and cycles that took.
    ///
    /// The frame ends exactly 70,224 cycles after it began, whatever the
    /// instructions are: the cycles that were run, counted from the place
    /// in the frame at which the call began, reach the end of the frame,
    /// and what is beyond it, less than the 24 cycles of one step, is
    /// already part of the next frame. A processor that has locked up
    /// lets the time pass all the same.
    pub fn frame(&mut self) -> (report: FrameReport)
        requires
            old(self)@.mem.wf(),
        ensures
            final(self)@.mem.wf(),
            report.steps >= 1,
            final(self)@ == old(self)@.ticks_spec(report.steps as nat),
            old(self)@.frames_within((report.steps - 1) as nat) == 0,
            old(self)@.frames_within(report.steps as nat) == 1,
            report.cycles == old(self)@.cycles_within(report.steps as nat),
            old(self)@.position() + report.cycles == 70224 + final(self)@.position(),
            final(self)@.position() < 24,
            report.locked == final(self)@.cpu.locked,
    {
        let mut steps: u32 = 0;
        let mut cycles: u32 = 0;
        loop
            invariant_except_break
                self@.mem.wf(),
                self@ == old(self)@.ticks_spec(steps as nat),
                old(self)@.frames_within(steps as nat) == 0,
                cycles == old(self)@.cycles_within(steps as nat),
                old(self)@.position() + cycles == self@.position(),
                4 * steps <= cycles,
            ensures
                self@.mem.wf(),
                steps >= 1,
                self@ == old(self)@.ticks_spec(steps as nat),
                old(self)@.frames_within((steps - 1) as nat) == 0,
                old(self)@.frames_within(steps as nat) == 1,
                cycles == old(self)@.cycles_within(steps as nat),
                old(self)@.position() + cycles == 70224 + self@.position(),
                self@.position() < 24,
            decreases 70224 - self@.position(),
        {
            proof {
                old(self)@.lemma_ticks_extend(steps as nat);
            }
            let t: Tick = self.step();
            steps = steps + 1;
            cycles = cycles + t.cycles as u32;
            if t.frame {
                break ;
            }
        }
        FrameReport { steps, cycles, locked: self.cpu.locked }
    }

    /// The picture in the pixel format: red, green, blue and alpha for each
    /// of the 160 by 144 pixels, line after line.
    pub fn image(&self) -> (bytes: Vec<u8>)
        requires
            self@.mem.wf(),
        ensures
            bytes@ == image_spec(self@.mem.ppu.frame),
            bytes.len() == 92160,
    {
        let frame: &Vec<u8> = self.mmu.ppu().frame();
        let mut bytes: Vec<u8> = Vec::with_capacity(IMAGE_LEN);
        let mut i: usize = 0;
        while i < frame.len()
            invariant
                i <= frame.len(),
                frame.len() == 23040,
                bytes.len() == 4 * i,
                forall|k: int|
                    0 <= k < 4 * i ==> #[trigger] bytes@[k] == image_spec(frame@)[k],
            decreases frame.len() - i,
        {
            let v: u8 = level(frame[i]);
            bytes.push(v);
            bytes.push(v);
            bytes.push(v);
            bytes.push(0xFF);
            i = i + 1;
        }
        assert(bytes@ =~= image_spec(frame@));
        bytes
    }
}

} // verus!
