//! The cartridge: the image of its ROM, its external RAM and the controller
//! that maps banks of both into the address space.
//!
//! Two kinds of cartridge are known. One without a controller maps its first
//! two banks and takes no commands. One with the first bank controller takes
//! writes into the ROM range as commands: they enable the RAM, select banks
//! and choose the banking mode. A selected bank is reduced modulo the number
//! of banks that the image holds.

use vstd::prelude::*;

verus! {

/// The size of a ROM bank.
pub const ROM_BANK: usize = 0x4000;

/// The size of a RAM bank.
pub const RAM_BANK: usize = 0x2000;

/// The least length of an image: the header ends at 0x014F.
pub const HEADER_END: usize = 0x150;

/// Where the title starts in the header.
pub const TITLE_AT: usize = 0x134;

/// The length of the title.
pub const TITLE_LEN: usize = 16;

/// Where the header holds the code of the controller.
pub const MAPPER_AT: usize = 0x147;

/// Where the header holds the code of the ROM size.
pub const ROM_SIZE_AT: usize = 0x148;

/// Where the header holds the code of the RAM size.
pub const RAM_SIZE_AT: usize = 0x149;

/// Why an image was not accepted.
#[derive(Clone, Copy, Debug, PartialEq, Eq)]
pub enum RomLoadError {
    /// The source of the image could not be read. The loader that reads the
    /// source reports this; parsing an image never does.
    Unreadable,
    /// The image is too short to hold a header, or its length is not the
    /// one that its ROM size code declares.
    Truncated,
    /// The header names a controller that is not known; the code is given.
    UnknownMapper(u8),
}

/// The kind of controller on a cartridge.
#[derive(Clone, Copy, Debug, PartialEq, Eq)]
pub enum Mapper {
    /// No controller: 32 KiB of ROM mapped as they are.
    RomOnly,
    /// The first bank controller.
    Mbc1,
}

/// The controller that a header code names: 0 for none, 1 to 3 for the first
/// bank controller (alone, with RAM, with RAM and battery).
pub open spec fn mapper_of(code: u8) -> Option<Mapper> {
    if code == 0 {
        Some(Mapper::RomOnly)
    } else if 1 <= code <= 3 {
        Some(Mapper::Mbc1)
    } else {
        None
    }
}

/// The length of the image that a ROM size code declares: 32 KiB doubled
/// `code` times, for codes up to 8.
pub open spec fn rom_len_spec(code: u8) -> int {
    if code == 0 {
        0x8000
    } else if code == 1 {
        0x1_0000
    } else if code == 2 {
        0x2_0000
    } else if code == 3 {
        0x4_0000
    } else if code == 4 {
        0x8_0000
    } else if code == 5 {
        0x10_0000
    } else if code == 6 {
        0x20_0000
    } else if code == 7 {
        0x40_0000
    } else {
        0x80_0000
    }
}

/// The length of the external RAM that a RAM size code declares: 8 KiB for
/// code 2, 32 KiB for 3, 128 KiB for 4, 64 KiB for 5, none otherwise.
pub open spec fn ram_len_spec(code: u8) -> int {
    if code == 2 {
        0x2000
    } else if code == 3 {
        0x8000
    } else if code == 4 {
        0x2_0000
    } else if code == 5 {
        0x1_0000
    } else {
        0
    }
}

/// `n` zero bytes.
pub open spec fn zeros_spec(n: int) -> Seq<u8> {
    Seq::new(n as nat, |i: int| 0u8)
}

/// A cartridge as the contracts see it.
pub struct CartridgeView {
    /// The image.
    pub rom: Seq<u8>,
    /// The external RAM.
    pub ram: Seq<u8>,
    /// The controller.
    pub mapper: Mapper,
    /// The ROM size code of the header.
    pub rom_code: u8,
    /// The RAM size code of the header.
    pub ram_code: u8,
    /// The selected ROM bank: the low five bits of the bank number, never 0.
    pub rom_bank: u8,
    /// The selected RAM bank, which in large images gives the upper two bits
    /// of the ROM bank number.
    pub ram_bank: u8,
    /// The banking mode: when set, the RAM bank register also applies to the
    /// RAM and to the lower half of the ROM range.
    pub banking: bool,
    /// Whether the external RAM is enabled.
    pub ram_enabled: bool,
}

impl CartridgeView {
    /// The controller and the size codes are those of the header, the image
    /// and the RAM have the lengths that the header declares, and the bank
    /// registers are in range.
    pub open spec fn wf(self) -> bool {
        &&& mapper_of(self.rom[0x147]) == Some(self.mapper)
        &&& self.rom_code == self.rom[0x148]
        &&& self.ram_code == self.rom[0x149]
        &&& self.rom_code <= 8
        &&& self.rom.len() == rom_len_spec(self.rom_code)
        &&& self.ram.len() == ram_len_spec(self.ram_code)
        &&& 1 <= self.rom_bank < 32
        &&& self.ram_bank < 4
    }

    /// The number of ROM banks in the image.
    pub open spec fn rom_banks(self) -> int {
        self.rom.len() as int / 0x4000
    }

    /// The number of RAM banks on the cartridge.
    pub open spec fn ram_banks(self) -> int {
        self.ram.len() as int / 0x2000
    }

    /// The bank that the lower half of the ROM range shows.
    pub open spec fn low_bank(self) -> int {
        if self.mapper == Mapper::Mbc1 && self.banking {
            (self.ram_bank * 32) % self.rom_banks()
        } else {
            0
        }
    }

    /// The bank that the upper half of the ROM range shows. Without a
    /// controller it is bank 1.
    pub open spec fn high_bank(self) -> int {
        if self.mapper == Mapper::Mbc1 {
            (self.ram_bank * 32 + self.rom_bank) % self.rom_banks()
        } else {
            1
        }
    }

    /// The RAM bank that the RAM range shows.
    pub open spec fn shown_ram_bank(self) -> int {
        if self.banking {
            self.ram_bank as int % self.ram_banks()
        } else {
            0
        }
    }

    /// Whether the RAM range reaches the external RAM.
    pub open spec fn ram_open(self) -> bool {
        self.mapper == Mapper::Mbc1 && self.ram_enabled && self.ram.len() > 0
    }

    /// The byte that the cartridge shows at `addr`: ROM in 0000-7FFF, RAM in
    /// A000-BFFF where it is enabled, 0xFF anywhere else.
    pub open spec fn read_spec(self, addr: u16) -> u8 {
        if addr < 0x4000 {
            self.rom[self.low_bank() * 0x4000 + addr]
        } else if addr < 0x8000 {
            self.rom[self.high_bank() * 0x4000 + (addr - 0x4000)]
        } else if 0xA000 <= addr < 0xC000 && self.ram_open() {
            self.ram[self.shown_ram_bank() * 0x2000 + (addr - 0xA000)]
        } else {
            0xFF
        }
    }

    /// The cartridge after a write of `v` to `addr`. A cartridge without a
    /// controller ignores every write. The first bank controller takes a
    /// write below 0x2000 as enabling the RAM (low nibble 0xA) or disabling
    /// it, one below 0x4000 as the ROM bank (five bits, 0 taken as 1), one
    /// below 0x6000 as the RAM bank (two bits), one below 0x8000 as the
    /// banking mode (one bit), and one into A000-BFFF as data for the RAM
    /// where that is enabled.
    pub open spec fn write_spec(self, addr: u16, v: u8) -> CartridgeView {
        if self.mapper == Mapper::RomOnly {
            self
        } else if addr < 0x2000 {
            CartridgeView { ram_enabled: v % 16 == 0x0A, ..self }
        } else if addr < 0x4000 {
            CartridgeView { rom_bank: if v % 32 == 0 { 1 } else { v % 32 }, ..self }
        } else if addr < 0x6000 {
            CartridgeView { ram_bank: v % 4, ..self }
        } else if addr < 0x8000 {
            CartridgeView { banking: v % 2 == 1, ..self }
        } else if 0xA000 <= addr < 0xC000 && self.ram_open() {
            CartridgeView {
                ram: self.ram.update(self.shown_ram_bank() * 0x2000 + (addr - 0xA000), v),
                ..self
            }
        } else {
            self
        }
    }

    /// The title in the header: sixteen bytes from 0x0134.
    pub open spec fn title_spec(self) -> Seq<u8> {
        self.rom.subrange(0x134, 0x144)
    }

    /// The checksum of the image as the header gives it: the bytes at
    /// 0x014E and 0x014F, high byte first. With the title it tells one
    /// cartridge from another.
    pub open spec fn checksum_spec(self) -> u16 {
        (self.rom[0x14E] * 256 + self.rom[0x14F]) as u16
    }

    /// Whether a battery keeps the external RAM while the console is off:
    /// controller code 3, and RAM to keep.
    pub open spec fn battery(self) -> bool {
        self.rom[0x147] == 3 && self.ram.len() > 0
    }

    /// Whether `bytes` can be the kept contents of the external RAM: the
    /// cartridge has a battery and the length is that of its RAM.
    pub open spec fn restores(self, bytes: Seq<u8>) -> bool {
        self.battery() && bytes.len() == self.ram.len()
    }

    /// The cartridge with the kept contents of its external RAM put back,
    /// where they can be; else the cartridge as it is.
    pub open spec fn restore_spec(self, bytes: Seq<u8>) -> CartridgeView {
        if self.restores(bytes) {
            CartridgeView { ram: bytes, ..self }
        } else {
            self
        }
    }

    /// What is to be kept of the cartridge when it leaves the slot: the
    /// contents of its external RAM, if a battery keeps them.
    pub open spec fn save_spec(self) -> Option<Seq<u8>> {
        if self.battery() {
            Some(self.ram)
        } else {
            None
        }
    }

    /// What was kept of a cartridge and is put back into a cartridge of the
    /// same image is what the RAM held: keeping and restoring loses
    /// nothing.
    pub proof fn lemma_save_restore(self, fresh: CartridgeView)
        requires
            self.wf(),
            fresh.wf(),
            fresh.rom == self.rom,
            self.battery(),
        ensures
            fresh.restore_spec(self.save_spec()->0).ram == self.ram,
            fresh.restore_spec(self.save_spec()->0).wf(),
    {
    }
}

/// A copy of a vector of bytes.
pub fn copy_bytes(v: &Vec<u8>) -> (c: Vec<u8>)
    ensures
        c@ == v@,
{
    let mut c: Vec<u8> = Vec::with_capacity(v.len());
    let mut i: usize = 0;
    while i < v.len()
        invariant
            i <= v.len(),
            c@ == v@.subrange(0, i as int),
        decreases v.len() - i,
    {
        c.push(v[i]);
        i = i + 1;
        assert(c@ =~= v@.subrange(0, i as int));
    }
    assert(c@ =~= v@);
    c
}

/// What loading an image gives. An image shorter than a header is
/// truncated; then a controller code that is not known is reported; then
/// an image whose length is not the one that its ROM size code declares is
/// truncated. Any other image is accepted, with its RAM zeroed, ROM bank 1
/// selected and the RAM disabled.
pub open spec fn load_spec(bytes: Seq<u8>) -> Result<CartridgeView, RomLoadError> {
    if bytes.len() < 0x150 {
        Err(RomLoadError::Truncated)
    } else if mapper_of(bytes[0x147]) is None {
        Err(RomLoadError::UnknownMapper(bytes[0x147]))
    } else if bytes[0x148] > 8 || bytes.len() != rom_len_spec(bytes[0x148]) {
        Err(RomLoadError::Truncated)
    } else {
        Ok(
            CartridgeView {
                rom: bytes,
                ram: zeros_spec(ram_len_spec(bytes[0x149])),
                mapper: mapper_of(bytes[0x147])->0,
                rom_code: bytes[0x148],
                ram_code: bytes[0x149],
                rom_bank: 1,
                ram_bank: 0,
                banking: false,
                ram_enabled: false,
            },
        )
    }
}

/// A cartridge without a controller takes no commands: a write to any
/// address leaves every byte that it shows as it was.
pub proof fn lemma_rom_only_ignores_writes(c: CartridgeView, addr: u16, v: u8, at: u16)
    requires
        c.mapper == Mapper::RomOnly,
    ensures
        c.write_spec(addr, v) == c,
        c.write_spec(addr, v).read_spec(at) == c.read_spec(at),
{
}

/// An image that is accepted gives a well-formed cartridge. Where its
/// controller code is 0, the cartridge has no controller: it shows the
/// first 32 KiB of the image as they are, and a write to any address leaves
/// every byte that it shows as it was.
pub proof fn lemma_loaded_rom_only(bytes: Seq<u8>, addr: u16, v: u8, at: u16)
    requires
        load_spec(bytes) is Ok,
    ensures
        load_spec(bytes)->Ok_0.wf(),
        bytes[0x147] == 0 ==> {
            let c = load_spec(bytes)->Ok_0;
            &&& c.mapper == Mapper::RomOnly
            &&& c.write_spec(addr, v) == c
            &&& c.write_spec(addr, v).read_spec(at) == c.read_spec(at)
            &&& (at < 0x8000 ==> c.read_spec(at) == bytes[at as int])
        },
{
}

/// No write changes the image: commands move the window, never the bytes.
pub proof fn lemma_write_keeps_rom(c: CartridgeView, addr: u16, v: u8)
    ensures
        c.write_spec(addr, v).rom == c.rom,
        c.write_spec(addr, v).mapper == c.mapper,
        c.wf() ==> c.write_spec(addr, v).wf(),
{
    if c.wf() && 0xA000 <= addr < 0xC000 && c.ram_open() {
        lemma_ram_index(c, addr);
    }
}

/// Selecting ROM bank 0 on the first bank controller selects bank 1.
pub proof fn lemma_bank_zero_is_one(c: CartridgeView, v: u8)
    requires
        c.mapper == Mapper::Mbc1,
        v % 32 == 0,
    ensures
        c.write_spec(0x2000, v) == c.write_spec(0x2000, 1),
{
}

/// With the RAM enabled, a byte written into the RAM range is read back
/// from the same address.
pub proof fn lemma_ram_write_read(c: CartridgeView, addr: u16, v: u8)
    requires
        c.wf(),
        c.ram_open(),
        0xA000 <= addr < 0xC000,
    ensures
        c.write_spec(addr, v).read_spec(addr) == v,
{
    lemma_ram_index(c, addr);
}

/// The indices that the read and write functions form lie inside the image
/// and the RAM.
proof fn lemma_rom_index(c: CartridgeView, addr: u16)
    requires
        c.wf(),
        addr < 0x8000,
    ensures
        c.rom_banks() >= 2,
        0 <= c.low_bank() < c.rom_banks(),
        0 <= c.high_bank() < c.rom_banks(),
        addr < 0x4000 ==> 0 <= c.low_bank() * 0x4000 + addr < c.rom.len(),
        addr >= 0x4000 ==> 0 <= c.high_bank() * 0x4000 + (addr - 0x4000) < c.rom.len(),
{
    let n = c.rom_banks();
    assert(n >= 2 && n * 0x4000 == c.rom.len());
    let lo = (c.ram_bank * 32) % n;
    let hi = (c.ram_bank * 32 + c.rom_bank) % n;
    assert(0 <= lo < n && 0 <= hi < n) by (nonlinear_arith)
        requires
            n >= 2,
            lo == (c.ram_bank * 32) % n,
            hi == (c.ram_bank * 32 + c.rom_bank) % n,
    ;
}

/// The index that a RAM access forms lies inside the RAM.
proof fn lemma_ram_index(c: CartridgeView, addr: u16)
    requires
        c.wf(),
        c.ram.len() > 0,
        0xA000 <= addr < 0xC000,
    ensures
        c.ram_banks() >= 1,
        0 <= c.shown_ram_bank() < c.ram_banks(),
        0 <= c.shown_ram_bank() * 0x2000 + (addr - 0xA000) < c.ram.len(),
{
    let n = c.ram_banks();
    assert(n >= 1 && n * 0x2000 == c.ram.len());
    let b = c.ram_bank as int % n;
    assert(0 <= b < n) by (nonlinear_arith)
        requires
            n >= 1,
            b == c.ram_bank as int % n,
    ;
}

/// The length that a ROM size code declares, if the code is known.
pub fn rom_len(code: u8) -> (n: Option<usize>)
    ensures
        code <= 8 ==> n == Some(rom_len_spec(code) as usize),
        code > 8 ==> n is None,
{
    if code == 0 {
        Some(0x8000)
    } else if code == 1 {
        Some(0x1_0000)
    } else if code == 2 {
        Some(0x2_0000)
    } else if code == 3 {
        Some(0x4_0000)
    } else if code == 4 {
        Some(0x8_0000)
    } else if code == 5 {
        Some(0x10_0000)
    } else if code == 6 {
        Some(0x20_0000)
    } else if code == 7 {
        Some(0x40_0000)
    } else if code == 8 {
        Some(0x80_0000)
    } else {
        None
    }
}

/// The length of the RAM that a RAM size code declares.
pub fn ram_len(code: u8) -> (n: usize)
    ensures
        n == ram_len_spec(code),
{
    if code == 2 {
        0x2000
    } else if code == 3 {
        0x8000
    } else if code == 4 {
        0x2_0000
    } else if code == 5 {
        0x1_0000
    } else {
        0
    }
}

/// The controller that a header code names.
pub fn mapper_for(code: u8) -> (m: Option<Mapper>)
    ensures
        m == mapper_of(code),
{
    if code == 0 {
        Some(Mapper::RomOnly)
    } else if code <= 3 {
        Some(Mapper::Mbc1)
    } else {
        None
    }
}

/// A vector of `n` zero bytes.
pub fn zeros(n: usize) -> (v: Vec<u8>)
    ensures
        v@ == zeros_spec(n as int),
{
    let mut v: Vec<u8> = Vec::with_capacity(n);
    while v.len() < n
        invariant
            v.len() <= n,
            forall|i: int| 0 <= i < v.len() ==> v[i] == 0u8,
        decreases n - v.len(),
    {
        v.push(0u8);
    }
    assert(v@ =~= zeros_spec(n as int));
    v
}

/// A cartridge.
pub struct Cartridge {
    rom: Vec<u8>,
    ram: Vec<u8>,
    mapper: Mapper,
    rom_code: u8,
    ram_code: u8,
    rom_bank: u8,
    ram_bank: u8,
    banking: bool,
    ram_enabled: bool,
}

impl View for Cartridge {
    type V = CartridgeView;

    closed spec fn view(&self) -> CartridgeView {
        CartridgeView {
            rom: self.rom@,
            ram: self.ram@,
            mapper: self.mapper,
            rom_code: self.rom_code,
            ram_code: self.ram_code,
            rom_bank: self.rom_bank,
            ram_bank: self.ram_bank,
            banking: self.banking,
            ram_enabled: self.ram_enabled,
        }
    }
}

impl Cartridge {
    /// Parses an image and builds the cartridge.
    pub fn load(bytes: Vec<u8>) -> (r: Result<Cartridge, RomLoadError>)
        ensures
            match r {
                Ok(c) => load_spec(bytes@) == Ok::<CartridgeView, RomLoadError>(c@) && c@.wf(),
                Err(e) => load_spec(bytes@) == Err::<CartridgeView, RomLoadError>(e),
            },
    {
        if bytes.len() < HEADER_END {
            return Err(RomLoadError::Truncated);
        }
        let code: u8 = bytes[MAPPER_AT];
        let rom_code: u8 = bytes[ROM_SIZE_AT];
        let ram_code: u8 = bytes[RAM_SIZE_AT];
        let mapper: Mapper = match mapper_for(code) {
            Some(m) => m,
            None => {
                return Err(RomLoadError::UnknownMapper(code));
            },
        };
        match rom_len(rom_code) {
            Some(n) => {
                if bytes.len() != n {
                    return Err(RomLoadError::Truncated);
                }
            },
            None => {
                return Err(RomLoadError::Truncated);
            },
        }
        let ram: Vec<u8> = zeros(ram_len(ram_code));
        Ok(
            Cartridge {
                rom: bytes,
                ram,
                mapper,
                rom_code,
                ram_code,
                rom_bank: 1,
                ram_bank: 0,
                banking: false,
                ram_enabled: false,
            },
        )
    }

    /// The controller of the cartridge.
    pub fn mapper(&self) -> (m: Mapper)
        ensures
            m == self@.mapper,
    {
        self.mapper
    }

    /// The controller code of the header.
    pub fn mapper_code(&self) -> (c: u8)
        requires
            self@.wf(),
        ensures
            c == self@.rom[0x147],
            mapper_of(c) == Some(self@.mapper),
    {
        self.rom[MAPPER_AT]
    }

    /// The checksum of the image as the header gives it.
    pub fn checksum(&self) -> (c: u16)
        requires
            self@.wf(),
        ensures
            c == self@.checksum_spec(),
    {
        self.rom[0x14E] as u16 * 256 + self.rom[0x14F] as u16
    }

    /// Whether a battery keeps the external RAM.
    pub fn has_battery(&self) -> (b: bool)
        requires
            self@.wf(),
        ensures
            b == self@.battery(),
    {
        self.rom[MAPPER_AT] == 3 && self.ram.len() > 0
    }

    /// What is to be kept of the cartridge when it leaves the slot.
    pub fn save_ram(&self) -> (kept: Option<Vec<u8>>)
        requires
            self@.wf(),
        ensures
            match kept {
                Some(bytes) => self@.save_spec() == Some(bytes@),
                None => self@.save_spec() is None,
            },
    {
        if self.has_battery() {
            Some(copy_bytes(&self.ram))
        } else {
            None
        }
    }

    /// Puts the kept contents of the external RAM back and says whether
    /// that could be done.
    pub fn restore_ram(&mut self, bytes: Vec<u8>) -> (done: bool)
        requires
            old(self)@.wf(),
        ensures
            done == old(self)@.restores(bytes@),
            final(self)@ == old(self)@.restore_spec(bytes@),
            final(self)@.wf(),
    {
        if self.has_battery() && bytes.len() == self.ram.len() {
            self.ram = bytes;
            true
        } else {
            false
        }
    }

    /// The ROM size code of the header.
    pub fn rom_size_code(&self) -> (c: u8)
        ensures
            c == self@.rom_code,
    {
        self.rom_code
    }

    /// The RAM size code of the header.
    pub fn ram_size_code(&self) -> (c: u8)
        ensures
            c == self@.ram_code,
    {
        self.ram_code
    }

    /// The title in the header.
    pub fn title(&self) -> (t: Vec<u8>)
        requires
            self@.wf(),
        ensures
            t@ == self@.title_spec(),
    {
        let mut t: Vec<u8> = Vec::with_capacity(TITLE_LEN);
        let mut i: usize = 0;
        while i < TITLE_LEN
            invariant
                i <= TITLE_LEN,
                self.rom.len() >= 0x8000,
                t@ == self.rom@.subrange(0x134, 0x134 + i as int),
            decreases TITLE_LEN - i,
        {
            t.push(self.rom[TITLE_AT + i]);
            i = i + 1;
            assert(t@ =~= self.rom@.subrange(0x134, 0x134 + i as int));
        }
        t
    }

    /// Reads the byte that the cartridge shows at `addr`.
    pub fn read(&self, addr: u16) -> (v: u8)
        requires
            self@.wf(),
        ensures
            v == self@.read_spec(addr),
    {
        let is_mbc1: bool = match self.mapper {
            Mapper::Mbc1 => true,
            Mapper::RomOnly => false,
        };
        if addr < 0x8000 {
            proof {
                lemma_rom_index(self@, addr);
            }
            let banks: usize = self.rom.len() / ROM_BANK;
            let upper: usize = self.ram_bank as usize * 32;
            if addr < 0x4000 {
                let bank: usize = if is_mbc1 && self.banking { upper % banks } else { 0 };
                self.rom[bank * ROM_BANK + addr as usize]
            } else {
                let bank: usize = if is_mbc1 {
                    (upper + self.rom_bank as usize) % banks
                } else {
                    1
                };
                self.rom[bank * ROM_BANK + (addr as usize - 0x4000)]
            }
        } else if 0xA000 <= addr && addr < 0xC000 && is_mbc1 && self.ram_enabled
            && self.ram.len() > 0 {
            proof {
                lemma_ram_index(self@, addr);
            }
            let banks: usize = self.ram.len() / RAM_BANK;
            let bank: usize = if self.banking { self.ram_bank as usize % banks } else { 0 };
            self.ram[bank * RAM_BANK + (addr as usize - 0xA000)]
        } else {
            0xFF
        }
    }

    /// Serves a write of `v` to `addr`.
    pub fn write(&mut self, addr: u16, v: u8)
        requires
            old(self)@.wf(),
        ensures
            final(self)@ == old(self)@.write_spec(addr, v),
            final(self)@.wf(),
    {
        match self.mapper {
            Mapper::RomOnly => {},
            Mapper::Mbc1 => {
                if addr < 0x2000 {
                    self.ram_enabled = v % 16 == 0x0A;
                } else if addr < 0x4000 {
                    self.rom_bank = if v % 32 == 0 { 1 } else { v % 32 };
                } else if addr < 0x6000 {
                    self.ram_bank = v % 4;
                } else if addr < 0x8000 {
                    self.banking = v % 2 == 1;
                } else if 0xA000 <= addr && addr < 0xC000 && self.ram_enabled && self.ram.len()
                    > 0 {
                    proof {
                        lemma_ram_index(self@, addr);
                    }
                    let banks: usize = self.ram.len() / RAM_BANK;
                    let bank: usize = if self.banking {
                        self.ram_bank as usize % banks
                    } else {
                        0
                    };
                    self.ram.set(bank * RAM_BANK + (addr as usize - 0xA000), v);
                }
            },
        }
    }
}

} // verus!
