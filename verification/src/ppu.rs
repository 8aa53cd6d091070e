//! The pixel-processing unit: a scanline state machine that draws the
//! picture from tile and sprite memory.
//!
//! A line lasts 456 cycles and a frame 154 lines, so a frame lasts 70,224
//! cycles whatever else happens. Each of the first 144 lines passes through
//! the object scan (80 cycles), the pixel transfer (172 cycles, 11 more for
//! each sprite on the line and 6 more where the window shows) and the
//! horizontal blank for what is left. The last ten lines are the vertical
//! blank. A line is drawn into the frame at the moment its pixel transfer
//! starts; nothing else changes the frame.

use vstd::prelude::*;
use crate::alu::{bit_is_set, signed};
use crate::cartridge::{zeros, zeros_spec};
use crate::interrupts::has_bit;

verus! {

/// The width of the picture in pixels.
pub const WIDTH: usize = 160;

/// The height of the picture in pixels.
pub const HEIGHT: usize = 144;

/// The number of pixels in the picture.
pub const PIXELS: usize = 23040;

/// The size of the video RAM.
pub const VRAM_LEN: usize = 0x2000;

/// The size of the object attribute memory.
pub const OAM_LEN: usize = 0xA0;

/// The cycles of a line.
pub const LINE_CYCLES: u16 = 456;

/// The lines of a frame.
pub const FRAME_LINES: u8 = 154;

/// The cycles of a frame: 154 lines of 456 cycles.
pub const FRAME_CYCLES: u32 = 70224;

/// The cycles of the object scan.
pub const SCAN_CYCLES: u16 = 80;

/// The most sprites that a line shows.
pub const LINE_SPRITES: usize = 10;

/// The mode of the unit, numbered as the status register shows it.
#[derive(Clone, Copy, Debug, PartialEq, Eq, Structural)]
pub enum Mode {
    /// Mode 0: the rest of a line after its pixels were drawn.
    HBlank,
    /// Mode 1: the ten lines after the picture.
    VBlank,
    /// Mode 2: the sprites of the line are looked up.
    OamScan,
    /// Mode 3: the pixels of the line are drawn.
    Transfer,
}

impl Mode {
    /// The number of the mode.
    pub open spec fn number(self) -> u8 {
        match self {
            Mode::HBlank => 0,
            Mode::VBlank => 1,
            Mode::OamScan => 2,
            Mode::Transfer => 3,
        }
    }

    /// The number of the mode.
    pub fn bits(self) -> (n: u8)
        ensures
            n == self.number(),
    {
        match self {
            Mode::HBlank => 0,
            Mode::VBlank => 1,
            Mode::OamScan => 2,
            Mode::Transfer => 3,
        }
    }
}

/// The mode at a point of the frame, given the length of the line's pixel
/// transfer.
pub open spec fn mode_at(line: int, dot: int, transfer: int) -> Mode {
    if line >= 144 {
        Mode::VBlank
    } else if dot < 80 {
        Mode::OamScan
    } else if dot < 80 + transfer {
        Mode::Transfer
    } else {
        Mode::HBlank
    }
}

/// The registers of the unit and its place in the frame.
#[derive(Clone, Copy, Debug, PartialEq, Eq)]
pub struct Lcd {
    /// The control register. Bit 7 turns the display on, bit 6 selects the
    /// window's tile map, bit 5 shows the window, bit 4 selects the tile
    /// data, bit 3 selects the background's tile map, bit 2 makes sprites
    /// 16 lines high, bit 1 shows sprites, bit 0 shows the background.
    pub control: u8,
    /// The status register as written; bits 6 to 3 choose what requests the
    /// status interrupt.
    pub status: u8,
    pub scroll_y: u8,
    pub scroll_x: u8,
    /// The current line, 0 to 153.
    pub line: u8,
    /// The cycle within the line, 0 to 455.
    pub dot: u16,
    /// The line that the status register compares the current line with.
    pub compare: u8,
    pub background_palette: u8,
    pub object_palette_0: u8,
    pub object_palette_1: u8,
    pub window_y: u8,
    pub window_x: u8,
    /// The current mode.
    pub mode: Mode,
    /// The length of the pixel transfer of the line that was last drawn.
    pub transfer: u16,
}

/// What a cycle of the unit reports.
#[derive(Clone, Copy, Debug, PartialEq, Eq)]
pub struct Events {
    /// The last line of the frame ended.
    pub frame: bool,
    /// The vertical blank began: the V-Blank interrupt is requested.
    pub vblank: bool,
    /// A condition chosen in the status register came true: the status
    /// interrupt is requested.
    pub status: bool,
}

impl Events {
    /// No event.
    pub open spec fn none() -> Events {
        Events { frame: false, vblank: false, status: false }
    }

    /// The events of either.
    pub open spec fn or(self, other: Events) -> Events {
        Events {
            frame: self.frame || other.frame,
            vblank: self.vblank || other.vblank,
            status: self.status || other.status,
        }
    }
}

impl Lcd {
    /// The registers as the start-up program leaves them, at the start of a
    /// frame.
    pub open spec fn power_on() -> Lcd {
        Lcd {
            control: 0x91,
            status: 0,
            scroll_y: 0,
            scroll_x: 0,
            line: 0,
            dot: 0,
            compare: 0,
            background_palette: 0xFC,
            object_palette_0: 0xFF,
            object_palette_1: 0xFF,
            window_y: 0,
            window_x: 0,
            mode: Mode::OamScan,
            transfer: 172,
        }
    }

    /// The place in the frame is in range and the mode is the one that
    /// belongs to it.
    pub open spec fn wf(self) -> bool {
        &&& self.line < 154
        &&& self.dot < 456
        &&& 172 <= self.transfer <= 289
        &&& self.mode == mode_at(self.line as int, self.dot as int, self.transfer as int)
    }

    /// The number of cycles since the frame began.
    pub open spec fn position(self) -> int {
        self.line * 456 + self.dot
    }

    /// The line that the next cycle is in.
    pub open spec fn next_line(self) -> u8 {
        if self.dot + 1 < 456 {
            self.line
        } else if self.line + 1 < 154 {
            (self.line + 1) as u8
        } else {
            0
        }
    }

    /// The cycle within its line that the next cycle is.
    pub open spec fn next_dot(self) -> u16 {
        if self.dot + 1 < 456 { (self.dot + 1) as u16 } else { 0 }
    }

    /// What the status register reads as: bit 7 set, bits 6 to 3 as written,
    /// bit 2 set while the current line is the compared one, the mode in
    /// bits 1 and 0.
    pub open spec fn read_status_spec(self) -> u8 {
        (128 + self.status / 8 % 16 * 8 + (if self.line == self.compare { 4int } else { 0 })
            + self.mode.number()) as u8
    }

    /// What a register of the unit reads as, by its address. The current
    /// line reads at FF44; an address that is not a register of the unit
    /// reads 0xFF.
    pub open spec fn read_spec(self, addr: u16) -> u8 {
        if addr == 0xFF40 {
            self.control
        } else if addr == 0xFF41 {
            self.read_status_spec()
        } else if addr == 0xFF42 {
            self.scroll_y
        } else if addr == 0xFF43 {
            self.scroll_x
        } else if addr == 0xFF44 {
            self.line
        } else if addr == 0xFF45 {
            self.compare
        } else if addr == 0xFF47 {
            self.background_palette
        } else if addr == 0xFF48 {
            self.object_palette_0
        } else if addr == 0xFF49 {
            self.object_palette_1
        } else if addr == 0xFF4A {
            self.window_y
        } else if addr == 0xFF4B {
            self.window_x
        } else {
            0xFF
        }
    }

    /// The registers after a write. The current line cannot be written; a
    /// write to it, or to an address that is not a register of the unit,
    /// changes nothing.
    pub open spec fn write_spec(self, addr: u16, v: u8) -> Lcd {
        if addr == 0xFF40 {
            Lcd { control: v, ..self }
        } else if addr == 0xFF41 {
            Lcd { status: v, ..self }
        } else if addr == 0xFF42 {
            Lcd { scroll_y: v, ..self }
        } else if addr == 0xFF43 {
            Lcd { scroll_x: v, ..self }
        } else if addr == 0xFF45 {
            Lcd { compare: v, ..self }
        } else if addr == 0xFF47 {
            Lcd { background_palette: v, ..self }
        } else if addr == 0xFF48 {
            Lcd { object_palette_0: v, ..self }
        } else if addr == 0xFF49 {
            Lcd { object_palette_1: v, ..self }
        } else if addr == 0xFF4A {
            Lcd { window_y: v, ..self }
        } else if addr == 0xFF4B {
            Lcd { window_x: v, ..self }
        } else {
            self
        }
    }
}

/// The shade that a palette gives a colour: the two bits of the palette at
/// twice the colour's number.
pub open spec fn shade_spec(palette: u8, color: u8) -> u8 {
    if color == 0 {
        palette % 4
    } else if color == 1 {
        palette / 4 % 4
    } else if color == 2 {
        palette / 16 % 4
    } else {
        palette / 64 % 4
    }
}

/// What the picture is drawn from: the registers, the video RAM and the
/// object attribute memory.
pub struct Video {
    pub lcd: Lcd,
    pub vram: Seq<u8>,
    pub oam: Seq<u8>,
}

impl Video {
    /// The colour of a pixel of a tile row: bit `7 - col` of the row's
    /// second byte gives the upper bit, that of its first byte the lower.
    pub open spec fn tile_color(self, tile: int, row: int, col: int) -> u8 {
        let lo = self.vram[tile + row * 2];
        let hi = self.vram[tile + row * 2 + 1];
        let n = (7 - col) as u8;
        ((if has_bit(hi, n) { 2int } else { 0 }) + (if has_bit(lo, n) { 1int } else { 0 })) as u8
    }

    /// Where the data of a background tile starts in the video RAM. With bit
    /// 4 of the control register set, tiles are numbered from the start;
    /// without it the number is signed and counts from 0x1000.
    pub open spec fn tile_start(self, index: u8) -> int {
        if has_bit(self.lcd.control, 4) {
            index * 16
        } else {
            0x1000 + signed(index) * 16
        }
    }

    /// The colour at a point of a 256 by 256 tile map.
    pub open spec fn map_color(self, map: int, px: int, py: int) -> u8 {
        let index = self.vram[map + py / 8 * 32 + px / 8];
        self.tile_color(self.tile_start(index), py % 8, px % 8)
    }

    /// Where a tile map starts in the video RAM.
    pub open spec fn map_start(second: bool) -> int {
        if second { 0x1C00 } else { 0x1800 }
    }

    /// Whether the window reaches a line.
    pub open spec fn window_on_line(self, line: int) -> bool {
        has_bit(self.lcd.control, 5) && line >= self.lcd.window_y && self.lcd.window_x <= 166
    }

    /// Whether the window covers a pixel.
    pub open spec fn window_shows(self, line: int, x: int) -> bool {
        self.window_on_line(line) && x + 7 >= self.lcd.window_x
    }

    /// The colour of the background layer at a pixel: 0 where the background
    /// is switched off, the window where it covers the pixel, else the
    /// scrolled background.
    pub open spec fn background_color(self, line: int, x: int) -> u8 {
        if !has_bit(self.lcd.control, 0) {
            0
        } else if self.window_shows(line, x) {
            self.map_color(
                Video::map_start(has_bit(self.lcd.control, 6)),
                x + 7 - self.lcd.window_x,
                line - self.lcd.window_y,
            )
        } else {
            self.map_color(
                Video::map_start(has_bit(self.lcd.control, 3)),
                (x + self.lcd.scroll_x) % 256,
                (line + self.lcd.scroll_y) % 256,
            )
        }
    }

    /// The height of a sprite.
    pub open spec fn sprite_height(self) -> int {
        if has_bit(self.lcd.control, 2) { 16 } else { 8 }
    }

    /// Whether sprite `i` reaches a line: its Y position is that of its top
    /// line plus 16.
    pub open spec fn sprite_covers(self, i: int, line: int) -> bool {
        self.oam[4 * i] <= line + 16 < self.oam[4 * i] + self.sprite_height()
    }

    /// The sprites of a line among the first `n`: those that reach the line,
    /// in the order of the object attribute memory, up to ten. None where
    /// sprites are switched off.
    pub open spec fn line_sprites(self, line: int, n: int) -> Seq<u8>
        decreases n,
    {
        if n <= 0 || !has_bit(self.lcd.control, 1) {
            Seq::empty()
        } else {
            let before = self.line_sprites(line, n - 1);
            if self.sprite_covers(n - 1, line) && before.len() < 10 {
                before.push((n - 1) as u8)
            } else {
                before
            }
        }
    }

    /// The colour of sprite `i` at a pixel of a line that it reaches: 0
    /// where the sprite does not cover the pixel or is transparent there.
    /// Its X position is that of its left column plus 8; bit 5 of its
    /// attributes mirrors it left to right, bit 6 top to bottom; a sprite 16
    /// lines high takes an even tile and the one after it.
    pub open spec fn sprite_color(self, i: int, line: int, x: int) -> u8 {
        let sx = self.oam[4 * i + 1];
        if !(sx <= x + 8 < sx + 8) {
            0
        } else {
            let attr = self.oam[4 * i + 3];
            let col = x + 8 - sx;
            let row = line + 16 - self.oam[4 * i];
            let c = if has_bit(attr, 5) { 7 - col } else { col };
            let r = if has_bit(attr, 6) { self.sprite_height() - 1 - row } else { row };
            let tile = if has_bit(self.lcd.control, 2) {
                self.oam[4 * i + 2] - self.oam[4 * i + 2] % 2
            } else {
                self.oam[4 * i + 2] as int
            };
            self.tile_color(tile * 16, r, c)
        }
    }

    /// The sprite in front at a pixel, among the first `k` of the line's
    /// sprites: of those that are not transparent there, the one furthest
    /// left, and of two at the same place the earlier one.
    pub open spec fn front_sprite(self, line: int, x: int, sprites: Seq<u8>, k: int) -> Option<u8>
        decreases k,
    {
        if k <= 0 {
            None
        } else {
            let before = self.front_sprite(line, x, sprites, k - 1);
            let i = sprites[k - 1];
            if self.sprite_color(i as int, line, x) == 0 {
                before
            } else {
                match before {
                    None => Some(i),
                    Some(p) => if self.oam[4 * i + 1] < self.oam[4 * p + 1] {
                        Some(i)
                    } else {
                        before
                    },
                }
            }
        }
    }

    /// The shade of a pixel. With the display off it is 0. Else the sprite
    /// in front gives it, through the palette that bit 4 of its attributes
    /// selects, unless bit 7 of its attributes puts it behind a background
    /// that is not of colour 0; where no sprite gives it, the background
    /// does.
    pub open spec fn pixel(self, line: int, x: int) -> u8 {
        if !has_bit(self.lcd.control, 7) {
            0
        } else {
            let bg = self.background_color(line, x);
            let sprites = self.line_sprites(line, 40);
            match self.front_sprite(line, x, sprites, sprites.len() as int) {
                None => shade_spec(self.lcd.background_palette, bg),
                Some(i) => {
                    let attr = self.oam[4 * i + 3];
                    if has_bit(attr, 7) && bg != 0 {
                        shade_spec(self.lcd.background_palette, bg)
                    } else {
                        shade_spec(
                            if has_bit(attr, 4) {
                                self.lcd.object_palette_1
                            } else {
                                self.lcd.object_palette_0
                            },
                            self.sprite_color(i as int, line, x),
                        )
                    }
                },
            }
        }
    }

    /// The length of the pixel transfer of a line.
    pub open spec fn transfer_len(self, line: int) -> u16 {
        (172 + 11 * self.line_sprites(line, 40).len() + (if self.window_on_line(line) {
            6int
        } else {
            0
        })) as u16
    }

    /// The sprites of a line are at most ten, each is one of the first `n`
    /// and reaches the line.
    pub proof fn lemma_line_sprites(self, line: int, n: int)
        requires
            n <= 40,
        ensures
            self.line_sprites(line, n).len() <= 10,
            self.line_sprites(line, n).len() <= n || n < 0,
            forall|k: int|
                0 <= k < self.line_sprites(line, n).len() ==> (#[trigger] self.line_sprites(
                    line,
                    n,
                )[k]) < n && self.sprite_covers(self.line_sprites(line, n)[k] as int, line),
            172 <= 172 + 11 * self.line_sprites(line, n).len() + 6 <= 289,
        decreases n,
    {
        if n > 0 && has_bit(self.lcd.control, 1) {
            self.lemma_line_sprites(line, n - 1);
        }
    }
}

/// The unit as the contracts see it.
pub struct PpuView {
    /// What the picture is drawn from.
    pub video: Video,
    /// The picture: a shade, 0 to 3, for each pixel, line after line.
    pub frame: Seq<u8>,
}

impl PpuView {
    /// The memories have their sizes and the registers are well formed.
    pub open spec fn wf(self) -> bool {
        &&& self.video.lcd.wf()
        &&& self.video.vram.len() == 0x2000
        &&& self.video.oam.len() == 0xA0
        &&& self.frame.len() == 23040
    }

    /// The frame with one line drawn anew.
    pub open spec fn drawn(self, line: int) -> Seq<u8> {
        Seq::new(
            23040,
            |i: int|
                if i / 160 == line {
                    self.video.pixel(line, i % 160)
                } else {
                    self.frame[i]
                },
        )
    }

    /// Whether the next cycle starts the pixel transfer of a line.
    pub open spec fn draws_next(self) -> bool {
        self.video.lcd.next_line() < 144 && self.video.lcd.next_dot() == 80
    }

    /// The unit one cycle later. The place in the frame moves on by one
    /// cycle. Where that starts the pixel transfer of a line, the length of
    /// the transfer is fixed and the line is drawn.
    pub open spec fn tick_spec(self) -> PpuView {
        let lcd = self.video.lcd;
        let line = lcd.next_line();
        let dot = lcd.next_dot();
        if self.draws_next() {
            PpuView {
                video: Video {
                    lcd: Lcd {
                        line,
                        dot,
                        mode: Mode::Transfer,
                        transfer: self.video.transfer_len(line as int),
                        ..lcd
                    },
                    ..self.video
                },
                frame: self.drawn(line as int),
            }
        } else {
            PpuView {
                video: Video {
                    lcd: Lcd {
                        line,
                        dot,
                        mode: mode_at(line as int, dot as int, lcd.transfer as int),
                        ..lcd
                    },
                    ..self.video
                },
                ..self
            }
        }
    }

    /// What the next cycle reports. The frame ends with the last cycle of
    /// line 153. The vertical blank begins with the first cycle of line 144.
    /// The status interrupt is requested on entering the horizontal blank,
    /// the vertical blank or the object scan where bit 3, 4 or 5 of the
    /// status register asks for it, and at the start of the compared line
    /// where bit 6 does.
    pub open spec fn tick_events(self) -> Events {
        let lcd = self.video.lcd;
        let next = self.tick_spec().video.lcd;
        Events {
            frame: lcd.line == 153 && lcd.dot == 455,
            vblank: next.line == 144 && next.dot == 0,
            status: (next.mode != lcd.mode && (next.mode == Mode::HBlank && has_bit(lcd.status, 3)
                || next.mode == Mode::VBlank && has_bit(lcd.status, 4) || next.mode
                == Mode::OamScan && has_bit(lcd.status, 5))) || (next.dot == 0 && next.line
                == lcd.compare && has_bit(lcd.status, 6)),
        }
    }

    /// The unit `n` cycles later.
    pub open spec fn advance_spec(self, n: nat) -> PpuView
        decreases n,
    {
        if n == 0 {
            self
        } else {
            self.tick_spec().advance_spec((n - 1) as nat)
        }
    }

    /// What the next `n` cycles report, taken together.
    pub open spec fn events_within(self, n: nat) -> Events
        decreases n,
    {
        if n == 0 {
            Events::none()
        } else {
            self.tick_events().or(self.tick_spec().events_within((n - 1) as nat))
        }
    }

    /// The number of frames that end within the next `n` cycles.
    pub open spec fn frames_within(self, n: nat) -> nat
        decreases n,
    {
        if n == 0 {
            0
        } else {
            (if self.tick_events().frame { 1nat } else { 0 }) + self.tick_spec().frames_within(
                (n - 1) as nat,
            )
        }
    }

    /// The byte that the video RAM shows at `addr` (8000-9FFF).
    pub open spec fn read_vram_spec(self, addr: u16) -> u8 {
        self.video.vram[addr - 0x8000]
    }

    /// The byte that the object attribute memory shows at `addr`
    /// (FE00-FE9F).
    pub open spec fn read_oam_spec(self, addr: u16) -> u8 {
        self.video.oam[addr - 0xFE00]
    }

    /// The unit after a write into the video RAM.
    pub open spec fn write_vram_spec(self, addr: u16, v: u8) -> PpuView {
        PpuView {
            video: Video { vram: self.video.vram.update(addr - 0x8000, v), ..self.video },
            ..self
        }
    }

    /// The unit after a write into the object attribute memory.
    pub open spec fn write_oam_spec(self, addr: u16, v: u8) -> PpuView {
        PpuView {
            video: Video { oam: self.video.oam.update(addr - 0xFE00, v), ..self.video },
            ..self
        }
    }

    /// The unit with the object attribute memory replaced.
    pub open spec fn load_oam_spec(self, bytes: Seq<u8>) -> PpuView {
        PpuView { video: Video { oam: bytes, ..self.video }, ..self }
    }

    /// The unit after a write to one of its registers.
    pub open spec fn write_register_spec(self, addr: u16, v: u8) -> PpuView {
        PpuView { video: Video { lcd: self.video.lcd.write_spec(addr, v), ..self.video }, ..self }
    }

    /// A cycle keeps the unit well formed, moves its place in the frame on
    /// by one modulo the length of a frame, and leaves the frame as it is
    /// unless it starts a pixel transfer.
    pub proof fn lemma_tick(self)
        requires
            self.wf(),
        ensures
            self.tick_spec().wf(),
            self.tick_spec().video.lcd.position() == (self.video.lcd.position() + 1) % 70224,
            self.tick_events().frame <==> self.video.lcd.position() == 70223,
            self.tick_spec().video.vram == self.video.vram,
            self.tick_spec().video.oam == self.video.oam,
            !self.draws_next() ==> self.tick_spec().frame == self.frame,
            self.tick_spec().video.lcd.mode == Mode::Transfer && self.video.lcd.mode
                != Mode::Transfer <==> self.draws_next(),
    {
        let lcd = self.video.lcd;
        if self.draws_next() {
            self.video.lemma_line_sprites(lcd.next_line() as int, 40);
        }
    }

    /// A frame always lasts 70,224 cycles: within any `n` cycles, the
    /// number of frames that end is the number of multiples of 70,224 that
    /// the cycle count since the start of the frame passes, whatever the
    /// registers and memories hold.
    pub proof fn lemma_frame_length(self, n: nat)
        requires
            self.wf(),
        ensures
            self.advance_spec(n).wf(),
            self.frames_within(n) == (self.video.lcd.position() + n) / 70224,
            self.advance_spec(n).video.lcd.position() == (self.video.lcd.position() + n) % 70224,
        decreases n,
    {
        if n > 0 {
            self.lemma_tick();
            self.tick_spec().lemma_frame_length((n - 1) as nat);
        }
    }

    /// From the start of a frame, the frame ends with cycle 70,224 and not
    /// before, and the unit is then at the start of the next frame.
    pub proof fn lemma_full_frame(self)
        requires
            self.wf(),
            self.video.lcd.position() == 0,
        ensures
            forall|n: nat| n < 70224 ==> #[trigger] self.frames_within(n) == 0,
            self.frames_within(70224) == 1,
            self.advance_spec(70224).video.lcd.position() == 0,
    {
        self.lemma_frame_length(70224);
        assert forall|n: nat| n < 70224 implies #[trigger] self.frames_within(n) == 0 by {
            self.lemma_frame_length(n);
        }
    }

    /// The unit at power-on: the registers as the start-up program leaves
    /// them, the memories and the picture cleared.
    pub open spec fn power_on() -> PpuView {
        PpuView {
            video: Video {
                lcd: Lcd::power_on(),
                vram: zeros_spec(0x2000),
                oam: zeros_spec(0xA0),
            },
            frame: zeros_spec(23040),
        }
    }

    /// The cycles that are left of the frame.
    pub open spec fn cycles_left(self) -> int {
        70224 - self.video.lcd.position()
    }

    /// During the vertical blank the picture is complete and stays as it
    /// is: from line 144 on, no cycle before the end of the frame changes
    /// the frame.
    pub proof fn lemma_vblank_keeps_frame(self, n: nat)
        requires
            self.wf(),
            self.video.lcd.line >= 144,
            n <= self.cycles_left(),
        ensures
            self.advance_spec(n).frame == self.frame,
        decreases n,
    {
        if n > 0 {
            self.lemma_tick();
            if n > 1 {
                self.tick_spec().lemma_vblank_keeps_frame((n - 1) as nat);
            } else {
                assert(self.tick_spec().advance_spec(0) == self.tick_spec());
            }
        }
    }

    /// A line of the picture is drawn once in a frame, when its pixel
    /// transfer starts at cycle 80 of the line: the cycle that reaches that
    /// place gives every pixel of the line the shade that the registers and
    /// memories then call for, and leaves every other line as it was.
    pub proof fn lemma_line_is_drawn(self, x: int, other: int)
        requires
            self.wf(),
            self.draws_next(),
            0 <= x < 160,
            0 <= other < 23040,
            other / 160 != self.video.lcd.next_line(),
        ensures
            self.tick_spec().frame[self.video.lcd.next_line() * 160 + x] == self.video.pixel(
                self.video.lcd.next_line() as int,
                x,
            ),
            self.tick_spec().frame[other] == self.frame[other],
            self.tick_spec().video.lcd.dot == 80,
    {
    }
}

/// The shade that a palette gives a colour.
pub fn shade(palette: u8, color: u8) -> (s: u8)
    ensures
        s == shade_spec(palette, color),
        s < 4,
{
    if color == 0 {
        palette % 4
    } else if color == 1 {
        palette / 4 % 4
    } else if color == 2 {
        palette / 16 % 4
    } else {
        palette / 64 % 4
    }
}

/// The pixel-processing unit.
pub struct Ppu {
    lcd: Lcd,
    vram: Vec<u8>,
    oam: Vec<u8>,
    frame: Vec<u8>,
}

impl View for Ppu {
    type V = PpuView;

    closed spec fn view(&self) -> PpuView {
        PpuView {
            video: Video { lcd: self.lcd, vram: self.vram@, oam: self.oam@ },
            frame: self.frame@,
        }
    }
}

impl Ppu {
    /// The unit at power-on.
    pub fn new() -> (p: Ppu)
        ensures
            p@ == PpuView::power_on(),
            p@.wf(),
    {
        Ppu {
            lcd: Lcd {
                control: 0x91,
                status: 0,
                scroll_y: 0,
                scroll_x: 0,
                line: 0,
                dot: 0,
                compare: 0,
                background_palette: 0xFC,
                object_palette_0: 0xFF,
                object_palette_1: 0xFF,
                window_y: 0,
                window_x: 0,
                mode: Mode::OamScan,
                transfer: 172,
            },
            vram: zeros(VRAM_LEN),
            oam: zeros(OAM_LEN),
            frame: zeros(PIXELS),
        }
    }

    /// The picture: a shade, 0 to 3, for each pixel, line after line.
    pub fn frame(&self) -> (f: &Vec<u8>)
        ensures
            f@ == self@.frame,
    {
        &self.frame
    }

    /// The registers and the place in the frame.
    pub fn lcd(&self) -> (l: Lcd)
        ensures
            l == self@.video.lcd,
    {
        self.lcd
    }

    /// Reads the status register.
    pub fn read_status(&self) -> (v: u8)
        ensures
            v == self@.video.lcd.read_status_spec(),
    {
        let matched: u8 = if self.lcd.line == self.lcd.compare { 4 } else { 0 };
        128 + self.lcd.status / 8 % 16 * 8 + matched + self.lcd.mode.bits()
    }

    /// Reads a register of the unit.
    pub fn read_register(&self, addr: u16) -> (v: u8)
        ensures
            v == self@.video.lcd.read_spec(addr),
    {
        if addr == 0xFF40 {
            self.lcd.control
        } else if addr == 0xFF41 {
            self.read_status()
        } else if addr == 0xFF42 {
            self.lcd.scroll_y
        } else if addr == 0xFF43 {
            self.lcd.scroll_x
        } else if addr == 0xFF44 {
            self.lcd.line
        } else if addr == 0xFF45 {
            self.lcd.compare
        } else if addr == 0xFF47 {
            self.lcd.background_palette
        } else if addr == 0xFF48 {
            self.lcd.object_palette_0
        } else if addr == 0xFF49 {
            self.lcd.object_palette_1
        } else if addr == 0xFF4A {
            self.lcd.window_y
        } else if addr == 0xFF4B {
            self.lcd.window_x
        } else {
            0xFF
        }
    }

    /// Serves a write to a register of the unit.
    pub fn write_register(&mut self, addr: u16, v: u8)
        requires
            old(self)@.wf(),
        ensures
            final(self)@ == old(self)@.write_register_spec(addr, v),
            final(self)@.wf(),
    {
        if addr == 0xFF40 {
            self.lcd.control = v;
        } else if addr == 0xFF41 {
            self.lcd.status = v;
        } else if addr == 0xFF42 {
            self.lcd.scroll_y = v;
        } else if addr == 0xFF43 {
            self.lcd.scroll_x = v;
        } else if addr == 0xFF45 {
            self.lcd.compare = v;
        } else if addr == 0xFF47 {
            self.lcd.background_palette = v;
        } else if addr == 0xFF48 {
            self.lcd.object_palette_0 = v;
        } else if addr == 0xFF49 {
            self.lcd.object_palette_1 = v;
        } else if addr == 0xFF4A {
            self.lcd.window_y = v;
        } else if addr == 0xFF4B {
            self.lcd.window_x = v;
        }
    }

    /// Reads a byte of the video RAM.
    pub fn read_vram(&self, addr: u16) -> (v: u8)
        requires
            self@.wf(),
            0x8000 <= addr < 0xA000,
        ensures
            v == self@.read_vram_spec(addr),
    {
        self.vram[addr as usize - 0x8000]
    }

    /// Writes a byte of the video RAM.
    pub fn write_vram(&mut self, addr: u16, v: u8)
        requires
            old(self)@.wf(),
            0x8000 <= addr < 0xA000,
        ensures
            final(self)@ == old(self)@.write_vram_spec(addr, v),
            final(self)@.wf(),
    {
        self.vram.set(addr as usize - 0x8000, v);
    }

    /// Reads a byte of the object attribute memory.
    pub fn read_oam(&self, addr: u16) -> (v: u8)
        requires
            self@.wf(),
            0xFE00 <= addr < 0xFEA0,
        ensures
            v == self@.read_oam_spec(addr),
    {
        self.oam[addr as usize - 0xFE00]
    }

    /// Writes a byte of the object attribute memory.
    pub fn write_oam(&mut self, addr: u16, v: u8)
        requires
            old(self)@.wf(),
            0xFE00 <= addr < 0xFEA0,
        ensures
            final(self)@ == old(self)@.write_oam_spec(addr, v),
            final(self)@.wf(),
    {
        self.oam.set(addr as usize - 0xFE00, v);
    }

    /// Replaces the object attribute memory.
    pub fn load_oam(&mut self, bytes: Vec<u8>)
        requires
            old(self)@.wf(),
            bytes.len() == 0xA0,
        ensures
            final(self)@ == old(self)@.load_oam_spec(bytes@),
            final(self)@.wf(),
    {
        self.oam = bytes;
    }

    /// The colour of a pixel of a tile row.
    fn tile_color(&self, tile: usize, row: usize, col: u8) -> (c: u8)
        requires
            self@.wf(),
            tile + row * 2 + 1 < 0x2000,
            col < 8,
        ensures
            c == self@.video.tile_color(tile as int, row as int, col as int),
            c < 4,
    {
        let lo: u8 = self.vram[tile + row * 2];
        let hi: u8 = self.vram[tile + row * 2 + 1];
        let n: u8 = 7 - col;
        let mut c: u8 = 0;
        if bit_is_set(n, hi) {
            c = c + 2;
        }
        if bit_is_set(n, lo) {
            c = c + 1;
        }
        c
    }

    /// Where the data of a background tile starts.
    fn tile_start(&self, index: u8) -> (t: usize)
        ensures
            t == self@.video.tile_start(index),
            t + 15 < 0x2000,
    {
        if bit_is_set(4, self.lcd.control) {
            index as usize * 16
        } else if index < 128 {
            0x1000 + index as usize * 16
        } else {
            0x1000 - (256 - index as usize) * 16
        }
    }

    /// The colour at a point of a tile map.
    fn map_color(&self, second: bool, px: usize, py: usize) -> (c: u8)
        requires
            self@.wf(),
            px < 256,
            py < 256,
        ensures
            c == self@.video.map_color(Video::map_start(second), px as int, py as int),
            c < 4,
    {
        let map: usize = if second { 0x1C00 } else { 0x1800 };
        let index: u8 = self.vram[map + py / 8 * 32 + px / 8];
        let start: usize = self.tile_start(index);
        self.tile_color(start, py % 8, (px % 8) as u8)
    }

    /// Whether the window reaches a line.
    fn window_on_line(&self, line: u8) -> (b: bool)
        ensures
            b == self@.video.window_on_line(line as int),
    {
        bit_is_set(5, self.lcd.control) && line >= self.lcd.window_y && self.lcd.window_x <= 166
    }

    /// The colour of the background layer at a pixel.
    fn background_color(&self, line: u8, x: u8) -> (c: u8)
        requires
            self@.wf(),
            line < 144,
            x < 160,
        ensures
            c == self@.video.background_color(line as int, x as int),
            c < 4,
    {
        if !bit_is_set(0, self.lcd.control) {
            0
        } else if self.window_on_line(line) && x as u16 + 7 >= self.lcd.window_x as u16 {
            self.map_color(
                bit_is_set(6, self.lcd.control),
                x as usize + 7 - self.lcd.window_x as usize,
                (line - self.lcd.window_y) as usize,
            )
        } else {
            self.map_color(
                bit_is_set(3, self.lcd.control),
                (x as usize + self.lcd.scroll_x as usize) % 256,
                (line as usize + self.lcd.scroll_y as usize) % 256,
            )
        }
    }

    /// The sprites of a line.
    fn line_sprites(&self, line: u8) -> (s: Vec<u8>)
        requires
            self@.wf(),
            line < 144,
        ensures
            s@ == self@.video.line_sprites(line as int, 40),
            s.len() <= 10,
    {
        let mut s: Vec<u8> = Vec::new();
        proof {
            self@.video.lemma_line_sprites(line as int, 40);
        }
        if !bit_is_set(1, self.lcd.control) {
            return s;
        }
        let height: u16 = if bit_is_set(2, self.lcd.control) { 16 } else { 8 };
        let mut i: u8 = 0;
        while i < 40
            invariant
                i <= 40,
                self@.wf(),
                line < 144,
                has_bit(self.lcd.control, 1),
                height == self@.video.sprite_height(),
                s@ == self@.video.line_sprites(line as int, i as int),
                s.len() <= 10,
            decreases 40 - i,
        {
            let y: u16 = self.oam[4 * i as usize] as u16;
            let reach: u16 = line as u16 + 16;
            if y <= reach && reach < y + height && s.len() < LINE_SPRITES {
                s.push(i);
            }
            i = i + 1;
        }
        s
    }

    /// The colour of a sprite at a pixel of a line that it reaches.
    fn sprite_color(&self, i: u8, line: u8, x: u8) -> (c: u8)
        requires
            self@.wf(),
            i < 40,
            line < 144,
            x < 160,
            self@.video.sprite_covers(i as int, line as int),
        ensures
            c == self@.video.sprite_color(i as int, line as int, x as int),
            c < 4,
    {
        let at: usize = 4 * i as usize;
        let sx: u16 = self.oam[at + 1] as u16;
        let px: u16 = x as u16 + 8;
        if !(sx <= px && px < sx + 8) {
            return 0;
        }
        let attr: u8 = self.oam[at + 3];
        let tall: bool = bit_is_set(2, self.lcd.control);
        let height: u16 = if tall { 16 } else { 8 };
        let col: u8 = (px - sx) as u8;
        let row: u16 = line as u16 + 16 - self.oam[at] as u16;
        let c: u8 = if bit_is_set(5, attr) { 7 - col } else { col };
        let r: u16 = if bit_is_set(6, attr) { height - 1 - row } else { row };
        let number: u8 = self.oam[at + 2];
        let tile: u8 = if tall { number - number % 2 } else { number };
        self.tile_color(tile as usize * 16, r as usize, c)
    }

    /// The sprite in front at a pixel.
    fn front_sprite(&self, line: u8, x: u8, sprites: &Vec<u8>) -> (f: Option<u8>)
        requires
            self@.wf(),
            line < 144,
            x < 160,
            sprites@ == self@.video.line_sprites(line as int, 40),
        ensures
            f == self@.video.front_sprite(
                line as int,
                x as int,
                sprites@,
                sprites@.len() as int,
            ),
            f matches Some(i) ==> i < 40 && self@.video.sprite_covers(i as int, line as int),
    {
        proof {
            self@.video.lemma_line_sprites(line as int, 40);
        }
        let mut best: Option<u8> = None;
        let mut k: usize = 0;
        while k < sprites.len()
            invariant
                k <= sprites.len(),
                self@.wf(),
                line < 144,
                x < 160,
                forall|j: int|
                    0 <= j < sprites.len() ==> (#[trigger] sprites@[j]) < 40
                        && self@.video.sprite_covers(sprites@[j] as int, line as int),
                best == self@.video.front_sprite(line as int, x as int, sprites@, k as int),
                best matches Some(i) ==> i < 40 && self@.video.sprite_covers(
                    i as int,
                    line as int,
                ),
            decreases sprites.len() - k,
        {
            let i: u8 = sprites[k];
            if self.sprite_color(i, line, x) != 0 {
                match best {
                    None => {
                        best = Some(i);
                    },
                    Some(p) => {
                        if self.oam[4 * i as usize + 1] < self.oam[4 * p as usize + 1] {
                            best = Some(i);
                        }
                    },
                }
            }
            k = k + 1;
        }
        best
    }

    /// The shade of a pixel.
    fn pixel(&self, line: u8, x: u8, sprites: &Vec<u8>) -> (s: u8)
        requires
            self@.wf(),
            line < 144,
            x < 160,
            sprites@ == self@.video.line_sprites(line as int, 40),
        ensures
            s == self@.video.pixel(line as int, x as int),
            s < 4,
    {
        if !bit_is_set(7, self.lcd.control) {
            return 0;
        }
        let bg: u8 = self.background_color(line, x);
        match self.front_sprite(line, x, sprites) {
            None => shade(self.lcd.background_palette, bg),
            Some(i) => {
                let attr: u8 = self.oam[4 * i as usize + 3];
                if bit_is_set(7, attr) && bg != 0 {
                    shade(self.lcd.background_palette, bg)
                } else {
                    let palette: u8 = if bit_is_set(4, attr) {
                        self.lcd.object_palette_1
                    } else {
                        self.lcd.object_palette_0
                    };
                    shade(palette, self.sprite_color(i, line, x))
                }
            },
        }
    }

    /// Draws a line into the frame and says how many sprites it shows.
    fn draw_line(&mut self, line: u8) -> (count: usize)
        requires
            old(self)@.wf(),
            line < 144,
        ensures
            final(self)@.frame == old(self)@.drawn(line as int),
            final(self)@.video == old(self)@.video,
            count == old(self)@.video.line_sprites(line as int, 40).len(),
            count <= 10,
    {
        let sprites: Vec<u8> = self.line_sprites(line);
        let ghost start = self@;
        let mut x: u8 = 0;
        while x < 160
            invariant
                x <= 160,
                line < 144,
                start.wf(),
                self@.video == start.video,
                self.frame.len() == 23040,
                sprites@ == start.video.line_sprites(line as int, 40),
                forall|i: int|
                    0 <= i < 23040 ==> #[trigger] self.frame@[i] == (if i / 160 == line && i % 160
                        < x {
                        start.video.pixel(line as int, i % 160)
                    } else {
                        start.frame[i]
                    }),
            decreases 160 - x,
        {
            let p: u8 = self.pixel(line, x, &sprites);
            self.frame.set(line as usize * 160 + x as usize, p);
            x = x + 1;
        }
        assert(self.frame@ =~= start.drawn(line as int));
        sprites.len()
    }

    /// Advances the unit by one cycle and says what the cycle reports.
    pub fn tick(&mut self) -> (e: Events)
        requires
            old(self)@.wf(),
        ensures
            final(self)@ == old(self)@.tick_spec(),
            e == old(self)@.tick_events(),
            final(self)@.wf(),
    {
        proof {
            self@.lemma_tick();
        }
        let before: Lcd = self.lcd;
        let wraps: bool = before.dot == LINE_CYCLES - 1;
        let dot: u16 = if wraps { 0 } else { before.dot + 1 };
        let line: u8 = if !wraps {
            before.line
        } else if before.line == FRAME_LINES - 1 {
            0
        } else {
            before.line + 1
        };
        let mut transfer: u16 = before.transfer;
        let mode: Mode = if line < 144 && dot == SCAN_CYCLES {
            let count: usize = self.draw_line(line);
            let window: u16 = if self.window_on_line(line) { 6 } else { 0 };
            transfer = 172 + 11 * count as u16 + window;
            Mode::Transfer
        } else if line >= 144 {
            Mode::VBlank
        } else if dot < SCAN_CYCLES {
            Mode::OamScan
        } else if dot < SCAN_CYCLES + transfer {
            Mode::Transfer
        } else {
            Mode::HBlank
        };
        let entered: bool = match mode {
            Mode::HBlank => !(before.mode == Mode::HBlank) && bit_is_set(3, before.status),
            Mode::VBlank => !(before.mode == Mode::VBlank) && bit_is_set(4, before.status),
            Mode::OamScan => !(before.mode == Mode::OamScan) && bit_is_set(5, before.status),
            Mode::Transfer => false,
        };
        let matched: bool = dot == 0 && line == before.compare && bit_is_set(6, before.status);
        self.lcd.line = line;
        self.lcd.dot = dot;
        self.lcd.mode = mode;
        self.lcd.transfer = transfer;
        Events {
            frame: before.line == FRAME_LINES - 1 && wraps,
            vblank: line == 144 && dot == 0,
            status: entered || matched,
        }
    }

    /// Advances the unit by `n` cycles and says what they report.
    pub fn advance(&mut self, n: u8) -> (e: Events)
        requires
            old(self)@.wf(),
        ensures
            final(self)@ == old(self)@.advance_spec(n as nat),
            e == old(self)@.events_within(n as nat),
            final(self)@.wf(),
    {
        let mut e: Events = Events { frame: false, vblank: false, status: false };
        let mut left: u8 = n;
        while left > 0
            invariant
                self@.wf(),
                self@.advance_spec(left as nat) == old(self)@.advance_spec(n as nat),
                e.or(self@.events_within(left as nat)) == old(self)@.events_within(n as nat),
            decreases left,
        {
            let t: Events = self.tick();
            e = Events {
                frame: e.frame || t.frame,
                vblank: e.vblank || t.vblank,
                status: e.status || t.status,
            };
            left = left - 1;
        }
        e
    }
}

} // verus!
