//! The memory subsystem: the 16-bit address space and what answers at each
//! address.
//!
//! | range       | what answers                                   |
//! |-------------|------------------------------------------------|
//! | 0000-7FFF   | the cartridge's ROM, through its controller    |
//! | 8000-9FFF   | video RAM                                      |
//! | A000-BFFF   | the cartridge's RAM                            |
//! | C000-DFFF   | work RAM                                       |
//! | E000-FDFF   | a mirror of work RAM                           |
//! | FE00-FE9F   | object attribute memory                        |
//! | FEA0-FEFF   | nothing: reads give 0xFF, writes are dropped   |
//! | FF00-FF7F   | the registers of the joypad, the serial port,  |
//! |             | the timer, the interrupt controller and the    |
//! |             | pixel-processing unit                          |
//! | FF80-FFFE   | high RAM                                       |
//! | FFFF        | the interrupt enable register                  |
//!
//! Every address belongs to exactly one row, so every access is answered.
//! Reading never changes anything.

use vstd::prelude::*;
use crate::alu::wrap16;
use crate::cartridge::{zeros, zeros_spec, Cartridge, CartridgeView};
use crate::interrupts::{has_bit, lemma_bit_update, Interrupt, Interrupts};
use crate::joypad::{Joypad, KeypadKey};
use crate::ppu::{Events, Ppu, PpuView};
use crate::registers::{high, high_byte, join, low, low_byte, pair};
use crate::timer::Timer;

verus! {

/// The size of the work RAM.
pub const WRAM_LEN: usize = 0x2000;

/// The size of the high RAM.
pub const HRAM_LEN: usize = 0x7F;

/// The number of bytes that a transfer into the object attribute memory
/// copies.
pub const DMA_LEN: u16 = 160;

/// The memory subsystem as the contracts see it.
pub struct MmuView {
    /// The cartridge in the slot, if there is one.
    pub cart: Option<CartridgeView>,
    pub ppu: PpuView,
    pub wram: Seq<u8>,
    pub hram: Seq<u8>,
    pub timer: Timer,
    pub interrupts: Interrupts,
    pub joypad: Joypad,
    /// The serial data register.
    pub serial_data: u8,
    /// The serial control register.
    pub serial_control: u8,
}

impl MmuView {
    /// The parts are well formed and the memories have their sizes.
    pub open spec fn wf(self) -> bool {
        &&& (self.cart matches Some(c) ==> c.wf())
        &&& self.ppu.wf()
        &&& self.wram.len() == 0x2000
        &&& self.hram.len() == 0x7F
    }

    /// Whether an address lies in memory that keeps what is written to it
    /// and answers from nowhere else: video RAM, work RAM and its mirror,
    /// object attribute memory and high RAM.
    pub open spec fn is_ram(addr: u16) -> bool {
        0x8000 <= addr < 0xA000 || 0xC000 <= addr < 0xFEA0 || 0xFF80 <= addr < 0xFFFF
    }

    /// What a register in FF00-FF7F reads as. The divider reads the upper
    /// byte of the system counter. Bits that a register does not hold read
    /// as set, and so does an address without a register.
    pub open spec fn read_io_spec(self, addr: u16) -> u8 {
        if addr == 0xFF00 {
            self.joypad.read_spec()
        } else if addr == 0xFF01 {
            self.serial_data
        } else if addr == 0xFF02 {
            (self.serial_control / 128 * 128 + 0x7E + self.serial_control % 2) as u8
        } else if addr == 0xFF04 {
            self.timer.divider_spec()
        } else if addr == 0xFF05 {
            self.timer.counter
        } else if addr == 0xFF06 {
            self.timer.reload
        } else if addr == 0xFF07 {
            self.timer.read_control_spec()
        } else if addr == 0xFF0F {
            self.interrupts.read_request_spec()
        } else if 0xFF40 <= addr <= 0xFF4B {
            self.ppu.video.lcd.read_spec(addr)
        } else {
            0xFF
        }
    }

    /// The byte that answers at an address.
    #[verifier::opaque]
    pub open spec fn read_spec(self, addr: u16) -> u8 {
        if addr < 0x8000 || 0xA000 <= addr < 0xC000 {
            match self.cart {
                Some(c) => c.read_spec(addr),
                None => 0xFF,
            }
        } else if addr < 0xA000 {
            self.ppu.read_vram_spec(addr)
        } else if addr < 0xE000 {
            self.wram[addr - 0xC000]
        } else if addr < 0xFE00 {
            self.wram[addr - 0xE000]
        } else if addr < 0xFEA0 {
            self.ppu.read_oam_spec(addr)
        } else if addr < 0xFF00 {
            0xFF
        } else if addr < 0xFF80 {
            self.read_io_spec(addr)
        } else if addr < 0xFFFF {
            self.hram[addr - 0xFF80]
        } else {
            self.interrupts.enable
        }
    }

    /// The 160 bytes that a transfer from page `page` copies into the object
    /// attribute memory: what answers at `page * 256` and after.
    pub open spec fn dma_source(self, page: u8) -> Seq<u8> {
        Seq::new(160, |i: int| self.read_spec((page * 256 + i) as u16))
    }

    /// The subsystem after a write to a register in FF00-FF7F. A write to
    /// the divider clears the system counter whatever the value; one to the
    /// joypad register selects its columns; one to FF46 copies a page into
    /// the object attribute memory; the current line cannot be written; a
    /// write to an address without a register is dropped.
    pub open spec fn write_io_spec(self, addr: u16, v: u8) -> MmuView {
        if addr == 0xFF00 {
            MmuView { joypad: self.joypad.write_spec(v), ..self }
        } else if addr == 0xFF01 {
            MmuView { serial_data: v, ..self }
        } else if addr == 0xFF02 {
            MmuView { serial_control: v, ..self }
        } else if addr == 0xFF04 {
            MmuView { timer: self.timer.reset_divider_spec(), ..self }
        } else if addr == 0xFF05 {
            MmuView { timer: self.timer.write_counter_spec(v), ..self }
        } else if addr == 0xFF06 {
            MmuView { timer: Timer { reload: v, ..self.timer }, ..self }
        } else if addr == 0xFF07 {
            MmuView { timer: Timer { control: v, ..self.timer }, ..self }
        } else if addr == 0xFF0F {
            MmuView { interrupts: Interrupts { request: v % 32, ..self.interrupts }, ..self }
        } else if addr == 0xFF46 {
            MmuView { ppu: self.ppu.load_oam_spec(self.dma_source(v)), ..self }
        } else if 0xFF40 <= addr <= 0xFF4B {
            MmuView { ppu: self.ppu.write_register_spec(addr, v), ..self }
        } else {
            self
        }
    }

    /// The subsystem after a write of `v` to `addr`. A write into the
    /// cartridge's ranges is handed to its controller and is a command
    /// there, never a change of the ROM.
    #[verifier::opaque]
    pub open spec fn write_spec(self, addr: u16, v: u8) -> MmuView {
        if addr < 0x8000 || 0xA000 <= addr < 0xC000 {
            match self.cart {
                Some(c) => MmuView { cart: Some(c.write_spec(addr, v)), ..self },
                None => self,
            }
        } else if addr < 0xA000 {
            MmuView { ppu: self.ppu.write_vram_spec(addr, v), ..self }
        } else if addr < 0xE000 {
            MmuView { wram: self.wram.update(addr - 0xC000, v), ..self }
        } else if addr < 0xFE00 {
            MmuView { wram: self.wram.update(addr - 0xE000, v), ..self }
        } else if addr < 0xFEA0 {
            MmuView { ppu: self.ppu.write_oam_spec(addr, v), ..self }
        } else if addr < 0xFF00 {
            self
        } else if addr < 0xFF80 {
            self.write_io_spec(addr, v)
        } else if addr < 0xFFFF {
            MmuView { hram: self.hram.update(addr - 0xFF80, v), ..self }
        } else {
            MmuView { interrupts: Interrupts { enable: v, ..self.interrupts }, ..self }
        }
    }

    /// The 16-bit value at an address: the low byte there, the high byte at
    /// the address after it.
    pub open spec fn read_word_spec(self, addr: u16) -> u16 {
        pair(self.read_spec(wrap16(addr + 1)), self.read_spec(addr))
    }

    /// The subsystem after a write of a 16-bit value: the low byte first,
    /// then the high byte at the address after it.
    pub open spec fn write_word_spec(self, addr: u16, v: u16) -> MmuView {
        self.write_spec(addr, low(v)).write_spec(wrap16(addr + 1), high(v))
    }

    /// The subsystem `n` cycles later: the timer and the pixel-processing
    /// unit have advanced, and what they reported has been requested of the
    /// interrupt controller.
    pub open spec fn advance_spec(self, n: nat) -> MmuView {
        let events = self.ppu.events_within(n);
        MmuView {
            timer: self.timer.advance_spec(n),
            ppu: self.ppu.advance_spec(n),
            interrupts: self.interrupts.raise_if_spec(
                self.timer.fires_within(n),
                Interrupt::Timer,
            ).raise_if_spec(events.vblank, Interrupt::VBlank).raise_if_spec(
                events.status,
                Interrupt::LcdStat,
            ),
            ..self
        }
    }

    /// The subsystem after a key was pressed: the key is held, and the
    /// joypad interrupt is requested where the press pulls a row low.
    pub open spec fn key_down_spec(self, key: KeypadKey) -> MmuView {
        MmuView {
            joypad: self.joypad.with_key(key, true),
            interrupts: self.interrupts.raise_if_spec(
                self.joypad.press_fires(key),
                Interrupt::Joypad,
            ),
            ..self
        }
    }

    /// The subsystem after a key was released.
    pub open spec fn key_up_spec(self, key: KeypadKey) -> MmuView {
        MmuView { joypad: self.joypad.with_key(key, false), ..self }
    }

    /// Whether `bytes` can be put back as the kept contents of the
    /// external RAM of the cartridge in the slot.
    pub open spec fn restores(self, bytes: Seq<u8>) -> bool {
        self.cart matches Some(c) && c.restores(bytes)
    }

    /// The subsystem with the kept contents of the external RAM put back,
    /// where they can be.
    pub open spec fn restore_spec(self, bytes: Seq<u8>) -> MmuView {
        match self.cart {
            Some(c) => MmuView { cart: Some(c.restore_spec(bytes)), ..self },
            None => self,
        }
    }

    /// What is to be kept when the cartridge leaves the slot.
    pub open spec fn save_spec(self) -> Option<Seq<u8>> {
        match self.cart {
            Some(c) => c.save_spec(),
            None => None,
        }
    }

    /// The subsystem with a cartridge in the slot.
    pub open spec fn insert_spec(self, cart: CartridgeView) -> MmuView {
        MmuView { cart: Some(cart), ..self }
    }

    /// The subsystem at power-on, without a cartridge.
    pub open spec fn power_on() -> MmuView {
        MmuView {
            cart: None,
            ppu: PpuView::power_on(),
            wram: zeros_spec(0x2000),
            hram: zeros_spec(0x7F),
            timer: Timer::power_on(),
            interrupts: Interrupts::power_on(),
            joypad: Joypad::power_on(),
            serial_data: 0,
            serial_control: 0,
        }
    }

    /// A write keeps the subsystem well formed.
    pub proof fn lemma_write_wf(self, addr: u16, v: u8)
        requires
            self.wf(),
        ensures
            self.write_spec(addr, v).wf(),
    {
        reveal(MmuView::read_spec);
        reveal(MmuView::write_spec);
        if addr < 0x8000 || 0xA000 <= addr < 0xC000 {
            if let Some(c) = self.cart {
                crate::cartridge::lemma_write_keeps_rom(c, addr, v);
            }
        }
    }

    /// After a write to the divider's address the divider reads zero,
    /// whatever was written.
    pub proof fn lemma_divider_write_reads_zero(self, v: u8)
        ensures
            self.write_spec(0xFF04, v).read_spec(0xFF04) == 0,
    {
        reveal(MmuView::read_spec);
        reveal(MmuView::write_spec);
    }

    /// A byte written into RAM is read back from the same address, and a
    /// write into work RAM shows in its mirror.
    pub proof fn lemma_ram_write_read(self, addr: u16, v: u8)
        requires
            self.wf(),
            MmuView::is_ram(addr),
        ensures
            self.write_spec(addr, v).read_spec(addr) == v,
            0xC000 <= addr < 0xDE00 ==> self.write_spec(addr, v).read_spec((addr + 0x2000) as u16)
                == v,
    {
        reveal(MmuView::read_spec);
        reveal(MmuView::write_spec);
    }

    /// A write into RAM changes what answers at no other address, but for
    /// the mirror of work RAM.
    pub proof fn lemma_ram_write_elsewhere(self, addr: u16, v: u8, other: u16)
        requires
            self.wf(),
            MmuView::is_ram(addr),
            other != addr,
            !(0xC000 <= addr < 0xFE00 && 0xC000 <= other < 0xFE00 && (addr - other) % 0x2000 == 0),
        ensures
            self.write_spec(addr, v).read_spec(other) == self.read_spec(other),
    {
        reveal(MmuView::read_spec);
        reveal(MmuView::write_spec);
    }

    /// With a cartridge that has no controller in the slot, a write into
    /// the ROM range changes nothing at all, so every later read of the ROM
    /// gives what it gave before.
    pub proof fn lemma_rom_only_write(self, addr: u16, v: u8, at: u16)
        requires
            self.cart matches Some(c) && c.mapper == crate::cartridge::Mapper::RomOnly,
            addr < 0x8000,
        ensures
            self.write_spec(addr, v) == self,
            self.write_spec(addr, v).read_spec(at) == self.read_spec(at),
    {
        reveal(MmuView::read_spec);
        reveal(MmuView::write_spec);
    }

    /// An overflow of the timer's counter as the registers show it: when
    /// the counter holds 255 and the next cycle steps it, the counter
    /// register reads zero after that cycle, and after one more cycle it
    /// reads the reload value and the timer's request bit is set.
    pub proof fn lemma_timer_overflow(self)
        requires
            self.timer.counter == 255,
            !self.timer.overflowed,
            crate::timer::enabled_spec(self.timer.control),
            (self.timer.system + 1) % (crate::timer::period_spec(self.timer.control) as int) == 0,
        ensures
            self.advance_spec(1).read_spec(0xFF05) == 0,
            self.advance_spec(1).interrupts.request == self.interrupts.raise_if_spec(
                self.ppu.events_within(1).vblank,
                Interrupt::VBlank,
            ).raise_if_spec(self.ppu.events_within(1).status, Interrupt::LcdStat).request,
            self.advance_spec(1).advance_spec(1).read_spec(0xFF05) == self.timer.reload,
            has_bit(self.advance_spec(1).advance_spec(1).interrupts.request, 2),
    {
        reveal(MmuView::read_spec);
        reveal_with_fuel(Timer::advance_spec, 3);
        reveal_with_fuel(Timer::fires_within, 3);
        self.timer.lemma_overflow_reloads();
        let one = self.advance_spec(1);
        let raised = one.interrupts.raise_if_spec(true, Interrupt::Timer);
        lemma_bit_update(one.interrupts.request, 2, 0);
        lemma_bit_update(raised.request, 0, 2);
        let second = raised.raise_if_spec(one.ppu.events_within(1).vblank, Interrupt::VBlank);
        lemma_bit_update(second.request, 1, 2);
    }

    /// The place in the frame: the current line and the cycle within it.
    pub open spec fn place(self) -> (u8, u16) {
        (self.ppu.video.lcd.line, self.ppu.video.lcd.dot)
    }

    /// No write moves the place in the frame.
    pub proof fn lemma_write_keeps_place(self, addr: u16, v: u8)
        ensures
            self.write_spec(addr, v).place() == self.place(),
    {
        reveal(MmuView::write_spec);
    }

    /// A write of a page number to FF46 copies the page into the object
    /// attribute memory: each of its 160 bytes then reads as what answered
    /// at the same place of the page before.
    pub proof fn lemma_transfer_copies(self, page: u8, i: u16)
        requires
            self.wf(),
            i < 160,
        ensures
            self.write_spec(0xFF46, page).read_spec((0xFE00 + i) as u16) == self.read_spec(
                (page * 256 + i) as u16,
            ),
            self.write_spec(0xFF46, page).wf(),
    {
        reveal(MmuView::write_spec);
        let after = self.write_spec(0xFF46, page);
        assert(after.ppu.video.oam == self.dma_source(page));
        assert(after.read_spec((0xFE00 + i) as u16) == after.ppu.video.oam[i as int]) by {
            reveal(MmuView::read_spec);
        }
    }

    /// The unusable range reads 0xFF and drops writes.
    pub proof fn lemma_unusable(self, addr: u16, v: u8)
        requires
            0xFEA0 <= addr < 0xFF00,
        ensures
            self.read_spec(addr) == 0xFF,
            self.write_spec(addr, v) == self,
    {
        reveal(MmuView::read_spec);
        reveal(MmuView::write_spec);
    }
}

/// The memory subsystem.
pub struct Mmu {
    cart: Option<Cartridge>,
    ppu: Ppu,
    wram: Vec<u8>,
    hram: Vec<u8>,
    timer: Timer,
    interrupts: Interrupts,
    joypad: Joypad,
    serial_data: u8,
    serial_control: u8,
}

impl View for Mmu {
    type V = MmuView;

    closed spec fn view(&self) -> MmuView {
        MmuView {
            cart: match self.cart {
                Some(c) => Some(c@),
                None => None,
            },
            ppu: self.ppu@,
            wram: self.wram@,
            hram: self.hram@,
            timer: self.timer,
            interrupts: self.interrupts,
            joypad: self.joypad,
            serial_data: self.serial_data,
            serial_control: self.serial_control,
        }
    }
}

impl Mmu {
    /// The subsystem at power-on, without a cartridge.
    pub fn new() -> (m: Mmu)
        ensures
            m@ == MmuView::power_on(),
            m@.wf(),
    {
        Mmu {
            cart: None,
            ppu: Ppu::new(),
            wram: zeros(WRAM_LEN),
            hram: zeros(HRAM_LEN),
            timer: Timer::new(),
            interrupts: Interrupts::new(),
            joypad: Joypad::new(),
            serial_data: 0,
            serial_control: 0,
        }
    }

    /// Puts a cartridge into the slot, in place of the one that was there.
    pub fn insert(&mut self, cart: Cartridge)
        requires
            old(self)@.wf(),
            cart@.wf(),
        ensures
            final(self)@ == old(self)@.insert_spec(cart@),
            final(self)@.wf(),
    {
        self.cart = Some(cart);
    }

    /// Puts the kept contents of the external RAM back into the cartridge
    /// in the slot and says whether that could be done.
    pub fn restore_ram(&mut self, bytes: Vec<u8>) -> (done: bool)
        requires
            old(self)@.wf(),
        ensures
            done == old(self)@.restores(bytes@),
            final(self)@ == old(self)@.restore_spec(bytes@),
            final(self)@.wf(),
    {
        let slot: Option<Cartridge> = self.cart.take();
        match slot {
            Some(mut c) => {
                let done: bool = c.restore_ram(bytes);
                self.cart = Some(c);
                done
            },
            None => false,
        }
    }

    /// The pixel-processing unit.
    pub fn ppu(&self) -> (p: &Ppu)
        ensures
            p@ == self@.ppu,
    {
        &self.ppu
    }

    /// The cartridge in the slot.
    pub fn cartridge(&self) -> (c: Option<&Cartridge>)
        ensures
            match c {
                Some(c) => self@.cart == Some(c@),
                None => self@.cart is None,
            },
    {
        self.cart.as_ref()
    }

    /// The state of the interrupt controller.
    pub fn interrupts(&self) -> (i: Interrupts)
        ensures
            i == self@.interrupts,
    {
        self.interrupts
    }

    /// Replaces the state of the interrupt controller.
    pub fn set_interrupts(&mut self, i: Interrupts)
        ensures
            final(self)@ == (MmuView { interrupts: i, ..old(self)@ }),
    {
        self.interrupts = i;
    }

    /// The state of the timer.
    pub fn timer(&self) -> (t: Timer)
        ensures
            t == self@.timer,
    {
        self.timer
    }

    /// The state of the joypad.
    pub fn joypad(&self) -> (j: Joypad)
        ensures
            j == self@.joypad,
    {
        self.joypad
    }

    /// Reads a register in FF00-FF7F.
    fn read_io(&self, addr: u16) -> (v: u8)
        requires
            self@.wf(),
        ensures
            v == self@.read_io_spec(addr),
    {
        if addr == 0xFF00 {
            self.joypad.read()
        } else if addr == 0xFF01 {
            self.serial_data
        } else if addr == 0xFF02 {
            self.serial_control / 128 * 128 + 0x7E + self.serial_control % 2
        } else if addr == 0xFF04 {
            self.timer.divider()
        } else if addr == 0xFF05 {
            self.timer.counter
        } else if addr == 0xFF06 {
            self.timer.reload
        } else if addr == 0xFF07 {
            self.timer.read_control()
        } else if addr == 0xFF0F {
            self.interrupts.read_request()
        } else if 0xFF40 <= addr && addr <= 0xFF4B {
            self.ppu.read_register(addr)
        } else {
            0xFF
        }
    }

    /// Reads the byte at an address.
    pub fn rb(&self, addr: u16) -> (v: u8)
        requires
            self@.wf(),
        ensures
            v == self@.read_spec(addr),
    {
        proof {
            reveal(MmuView::read_spec);
        }
        if addr < 0x8000 || (0xA000 <= addr && addr < 0xC000) {
            match &self.cart {
                Some(c) => c.read(addr),
                None => 0xFF,
            }
        } else if addr < 0xA000 {
            self.ppu.read_vram(addr)
        } else if addr < 0xE000 {
            self.wram[addr as usize - 0xC000]
        } else if addr < 0xFE00 {
            self.wram[addr as usize - 0xE000]
        } else if addr < 0xFEA0 {
            self.ppu.read_oam(addr)
        } else if addr < 0xFF00 {
            0xFF
        } else if addr < 0xFF80 {
            self.read_io(addr)
        } else if addr < 0xFFFF {
            self.hram[addr as usize - 0xFF80]
        } else {
            self.interrupts.enable
        }
    }

    /// Copies a page into the object attribute memory.
    fn dma(&mut self, page: u8)
        requires
            old(self)@.wf(),
        ensures
            final(self)@ == (MmuView {
                ppu: old(self)@.ppu.load_oam_spec(old(self)@.dma_source(page)),
                ..old(self)@
            }),
            final(self)@.wf(),
    {
        let base: u16 = page as u16 * 256;
        let mut bytes: Vec<u8> = Vec::with_capacity(DMA_LEN as usize);
        let mut i: u16 = 0;
        while i < DMA_LEN
            invariant
                i <= DMA_LEN,
                base == page * 256,
                self@.wf(),
                bytes.len() == i,
                forall|k: int|
                    0 <= k < i ==> bytes@[k] == self@.read_spec((page * 256 + k) as u16),
            decreases DMA_LEN - i,
        {
            bytes.push(self.rb(base + i));
            i = i + 1;
        }
        assert(bytes@ =~= self@.dma_source(page));
        self.ppu.load_oam(bytes);
    }

    /// Serves a write to a register in FF00-FF7F.
    #[verifier::rlimit(60)]
    fn write_io(&mut self, addr: u16, v: u8)
        requires
            old(self)@.wf(),
        ensures
            final(self)@ == old(self)@.write_io_spec(addr, v),
            final(self)@.wf(),
    {
        if addr == 0xFF00 {
            self.joypad.write(v);
        } else if addr == 0xFF01 {
            self.serial_data = v;
        } else if addr == 0xFF02 {
            self.serial_control = v;
        } else if addr == 0xFF04 {
            self.timer.reset_divider();
        } else if addr == 0xFF05 {
            self.timer.write_counter(v);
        } else if addr == 0xFF06 {
            self.timer.reload = v;
        } else if addr == 0xFF07 {
            self.timer.control = v;
        } else if addr == 0xFF0F {
            self.interrupts.request = v % 32;
        } else if addr == 0xFF46 {
            self.dma(v);
        } else if 0xFF40 <= addr && addr <= 0xFF4B {
            self.ppu.write_register(addr, v);
        }
    }

    /// Writes a byte to an address.
    #[verifier::rlimit(60)]
    pub fn wb(&mut self, addr: u16, v: u8)
        requires
            old(self)@.wf(),
        ensures
            final(self)@ == old(self)@.write_spec(addr, v),
            final(self)@.wf(),
    {
        proof {
            reveal(MmuView::write_spec);
        }
        if addr < 0x8000 || (0xA000 <= addr && addr < 0xC000) {
            let slot: Option<Cartridge> = self.cart.take();
            match slot {
                Some(mut c) => {
                    c.write(addr, v);
                    self.cart = Some(c);
                },
                None => {},
            }
        } else if addr < 0xA000 {
            self.ppu.write_vram(addr, v);
        } else if addr < 0xE000 {
            self.wram.set(addr as usize - 0xC000, v);
        } else if addr < 0xFE00 {
            self.wram.set(addr as usize - 0xE000, v);
        } else if addr < 0xFEA0 {
            self.ppu.write_oam(addr, v);
        } else if addr < 0xFF00 {
        } else if addr < 0xFF80 {
            self.write_io(addr, v);
        } else if addr < 0xFFFF {
            self.hram.set(addr as usize - 0xFF80, v);
        } else {
            self.interrupts.enable = v;
        }
    }

    /// Reads the 16-bit value at an address, low byte first.
    pub fn rw(&self, addr: u16) -> (v: u16)
        requires
            self@.wf(),
        ensures
            v == self@.read_word_spec(addr),
    {
        let lo: u8 = self.rb(addr);
        let next: u16 = if addr == 0xFFFF { 0 } else { addr + 1 };
        let hi: u8 = self.rb(next);
        join(hi, lo)
    }

    /// Writes a 16-bit value to an address, low byte first.
    pub fn ww(&mut self, addr: u16, v: u16)
        requires
            old(self)@.wf(),
        ensures
            final(self)@ == old(self)@.write_word_spec(addr, v),
            final(self)@.wf(),
    {
        self.wb(addr, low_byte(v));
        let next: u16 = if addr == 0xFFFF { 0 } else { addr + 1 };
        self.wb(next, high_byte(v));
    }

    /// Advances the timer and the pixel-processing unit by `n` cycles,
    /// requests the interrupts that they report, and says whether a frame
    /// ended.
    pub fn advance(&mut self, n: u8) -> (frame: bool)
        requires
            old(self)@.wf(),
        ensures
            final(self)@ == old(self)@.advance_spec(n as nat),
            frame == old(self)@.ppu.events_within(n as nat).frame,
            final(self)@.wf(),
    {
        let fired: bool = self.timer.advance(n);
        let events: Events = self.ppu.advance(n);
        self.interrupts.raise_if(fired, Interrupt::Timer);
        self.interrupts.raise_if(events.vblank, Interrupt::VBlank);
        self.interrupts.raise_if(events.status, Interrupt::LcdStat);
        events.frame
    }

    /// Presses a key.
    pub fn key_down(&mut self, key: KeypadKey)
        ensures
            final(self)@ == old(self)@.key_down_spec(key),
            old(self)@.wf() ==> final(self)@.wf(),
    {
        let fired: bool = self.joypad.press(key);
        self.interrupts.raise_if(fired, Interrupt::Joypad);
    }

    /// Releases a key.
    pub fn key_up(&mut self, key: KeypadKey)
        ensures
            final(self)@ == old(self)@.key_up_spec(key),
            old(self)@.wf() ==> final(self)@.wf(),
    {
        self.joypad.release(key);
    }
}

} // verus!
