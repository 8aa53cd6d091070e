//! What a front end needs of the console: the picture as an RGB image at a
//! chosen scale, and the state of the controls with what each key does to
//! it.
//!
//! Drawing and reading keys are the front end's business. It hands every
//! key to [`App::on_key`] or [`App::on_arrow`], calls [`App::on_tick`] once
//! per tick for the picture and [`App::release`] after the frame has run.

use vstd::prelude::*;
use crate::gameboy::{image_spec, Gameboy};
use crate::joypad::KeypadKey;
use crate::machine::Machine;

verus! {

/// The largest scale of the picture.
pub const MAX_SCALE: u32 = 4;

/// The time between two ticks, in milliseconds.
pub const TICK_MILLIS: u64 = 5;

/// An RGB image: three bytes for each pixel, line after line.
#[derive(Clone, Debug, PartialEq, Eq)]
pub struct Picture {
    pub width: u32,
    pub height: u32,
    pub rgb: Vec<u8>,
}

/// What the front end has to do after a key, beyond what the key did to
/// the controls and the console.
#[derive(Clone, Copy, Debug, PartialEq, Eq)]
pub enum KeyAction {
    /// Nothing.
    Nothing,
    /// Build the images anew: the image protocol has changed.
    ResetImages,
}

/// A way in which a terminal shows images.
#[derive(Clone, Copy, Debug, PartialEq, Eq)]
pub enum ImageProtocol {
    Halfblocks,
    Sixel,
    Kitty,
    Iterm2,
}

/// The protocol that follows another when the front end goes through them:
/// half blocks, sixel, kitty, iterm2, and half blocks again.
pub open spec fn next_protocol_spec(p: ImageProtocol) -> ImageProtocol {
    match p {
        ImageProtocol::Halfblocks => ImageProtocol::Sixel,
        ImageProtocol::Sixel => ImageProtocol::Kitty,
        ImageProtocol::Kitty => ImageProtocol::Iterm2,
        ImageProtocol::Iterm2 => ImageProtocol::Halfblocks,
    }
}

/// Calls `ratatui_image::picker::ProtocolType::next`, which gives for each
/// of the four protocols the one after it, in the order half blocks, sixel,
/// kitty, iterm2, and after the last the first.
#[verifier::external_body]
fn next_protocol(p: ImageProtocol) -> (n: ImageProtocol)
    ensures
        n == next_protocol_spec(p),
{
    let outside = match p {
        ImageProtocol::Halfblocks => ratatui_image::picker::ProtocolType::Halfblocks,
        ImageProtocol::Sixel => ratatui_image::picker::ProtocolType::Sixel,
        ImageProtocol::Kitty => ratatui_image::picker::ProtocolType::Kitty,
        ImageProtocol::Iterm2 => ratatui_image::picker::ProtocolType::Iterm2,
    };
    match outside.next() {
        ratatui_image::picker::ProtocolType::Halfblocks => ImageProtocol::Halfblocks,
        ratatui_image::picker::ProtocolType::Sixel => ImageProtocol::Sixel,
        ratatui_image::picker::ProtocolType::Kitty => ImageProtocol::Kitty,
        ratatui_image::picker::ProtocolType::Iterm2 => ImageProtocol::Iterm2,
    }
}

/// The state of the controls.
#[derive(Clone, Copy, Debug, PartialEq, Eq)]
pub struct Controls {
    /// The front end is to stop.
    pub should_quit: bool,
    /// The scale of the picture, 1 to 4.
    pub scale: u32,
    /// The key that was pressed since the last tick and is still held.
    pub last_key: Option<KeypadKey>,
    /// The share of the width that the picture takes, in percent.
    pub split_percent: u16,
    /// Where the picture is placed, in columns and rows.
    pub image_static_offset: (u16, u16),
    /// The image protocol through which the picture is shown.
    pub protocol: ImageProtocol,
}

/// The key of the console that a character stands for: `a` and `b` for the
/// buttons A and B, `z` for Select, `x` for Start, in either case.
pub open spec fn key_of(c: char) -> Option<KeypadKey> {
    if c == 'a' || c == 'A' {
        Some(KeypadKey::A)
    } else if c == 'b' || c == 'B' {
        Some(KeypadKey::B)
    } else if c == 'z' || c == 'Z' {
        Some(KeypadKey::Select)
    } else if c == 'x' || c == 'X' {
        Some(KeypadKey::Start)
    } else {
        None
    }
}

impl Controls {
    /// The controls at the start: scale 1, the picture on two fifths of the
    /// width, placed at the origin, shown through the protocol that the
    /// terminal was found to speak.
    pub open spec fn initial(protocol: ImageProtocol) -> Controls {
        Controls {
            should_quit: false,
            scale: 1,
            last_key: None,
            split_percent: 40,
            image_static_offset: (0, 0),
            protocol,
        }
    }

    /// The scale is between 1 and 4 and the share is at most 100 percent.
    pub open spec fn wf(self) -> bool {
        1 <= self.scale <= 4 && self.split_percent <= 100
    }

    /// Whether a key can be taken: moving the picture right or down needs
    /// room in the offset.
    pub open spec fn accepts(self, c: char) -> bool {
        (c == 'j' ==> self.image_static_offset.1 < 0xFFFF) && (c == 'l'
            ==> self.image_static_offset.0 < 0xFFFF)
    }

    /// The controls after a key. `q` stops the front end. `i` takes the next
    /// image protocol. `o` raises the scale and goes back to 1 after 4. `H`
    /// and `L` move the split by ten percent while that stays within 0 and
    /// 100. `h`, `j`, `k` and `l` move the picture left, down, up and right
    /// by one, not beyond the origin.
    /// A key of the console is remembered as held. Any other key changes
    /// nothing.
    pub open spec fn on_key_spec(self, c: char) -> Controls {
        let (x, y) = self.image_static_offset;
        if c == 'q' {
            Controls { should_quit: true, ..self }
        } else if c == 'i' {
            Controls { protocol: next_protocol_spec(self.protocol), ..self }
        } else if c == 'o' {
            Controls { scale: if self.scale >= 4 { 1 } else { (self.scale + 1) as u32 }, ..self }
        } else if c == 'H' {
            Controls {
                split_percent: if self.split_percent >= 10 {
                    (self.split_percent - 10) as u16
                } else {
                    self.split_percent
                },
                ..self
            }
        } else if c == 'L' {
            Controls {
                split_percent: if self.split_percent <= 90 {
                    (self.split_percent + 10) as u16
                } else {
                    self.split_percent
                },
                ..self
            }
        } else if c == 'h' {
            Controls { image_static_offset: (if x > 0 { (x - 1) as u16 } else { x }, y), ..self }
        } else if c == 'j' {
            Controls { image_static_offset: (x, (y + 1) as u16), ..self }
        } else if c == 'k' {
            Controls { image_static_offset: (x, if y > 0 { (y - 1) as u16 } else { y }), ..self }
        } else if c == 'l' {
            Controls { image_static_offset: ((x + 1) as u16, y), ..self }
        } else if key_of(c) is Some {
            Controls { last_key: key_of(c), ..self }
        } else {
            self
        }
    }

    /// What the front end has to do after a key: after `i` it builds its
    /// images anew.
    pub open spec fn action_spec(c: char) -> KeyAction {
        if c == 'i' {
            KeyAction::ResetImages
        } else {
            KeyAction::Nothing
        }
    }

    /// No key takes the controls out of their ranges.
    pub proof fn lemma_on_key_keeps_wf(self, c: char)
        requires
            self.wf(),
        ensures
            self.on_key_spec(c).wf(),
    {
    }

    /// Four presses of `o` go through every scale and come back, and four
    /// presses of `i` through every image protocol.
    pub proof fn lemma_scale_cycles(self)
        requires
            self.wf(),
        ensures
            self.on_key_spec('o').on_key_spec('o').on_key_spec('o').on_key_spec('o') == self,
            self.on_key_spec('i').on_key_spec('i').on_key_spec('i').on_key_spec('i') == self,
    {
    }
}

/// The picture without its alpha bytes: of every four bytes the first
/// three.
pub open spec fn rgb_spec(rgba: Seq<u8>) -> Seq<u8> {
    Seq::new((rgba.len() / 4 * 3) as nat, |i: int| rgba[i / 3 * 4 + i % 3])
}

/// What the outside image library makes of an RGB image of `width` by
/// `height` pixels when it resizes it to `nwidth` by `nheight` with its
/// nearest-neighbour filter.
pub uninterp spec fn resized(
    rgb: Seq<u8>,
    width: u32,
    height: u32,
    nwidth: u32,
    nheight: u32,
) -> Seq<u8>;

/// What the front end shows of a frame at a scale: the frame in the pixel
/// format without its alpha bytes, resized by the scale where that is more
/// than 1.
pub open spec fn picture_spec(frame: Seq<u8>, scale: u32) -> Seq<u8> {
    let rgb = rgb_spec(image_spec(frame));
    if scale > 1 {
        resized(rgb, 160, 144, (160 * scale) as u32, (144 * scale) as u32)
    } else {
        rgb
    }
}

/// Calls `image::imageops::resize` with `FilterType::Nearest` on an RGB
/// image held in an `image::ImageBuffer`. The library's source shows that
/// the result depends on nothing but the pixels and the four sizes, and
/// that it has the new width and height, so three bytes for each of its
/// pixels; what its pixels are is left to the name [`resized`]. The
/// library stops the program where a buffer length leaves `usize`, which
/// the requirement on the sizes rules out.
#[verifier::external_body]
fn resize_nearest(rgb: Vec<u8>, width: u32, height: u32, nwidth: u32, nheight: u32) -> (out: Vec<
    u8,
>)
    requires
        width > 0,
        height > 0,
        rgb.len() == 3 * width * height,
        4 * width * nheight <= usize::MAX,
        4 * nwidth * nheight <= usize::MAX,
    ensures
        out@ == resized(rgb@, width, height, nwidth, nheight),
        out.len() == 3 * nwidth * nheight,
{
    let buffer: image::ImageBuffer<image::Rgb<u8>, Vec<u8>> = image::ImageBuffer::from_raw(
        width,
        height,
        rgb,
    ).unwrap();
    image::imageops::resize(&buffer, nwidth, nheight, image::imageops::FilterType::Nearest)
        .into_raw()
}

/// Drops the alpha byte of every pixel.
pub fn strip_alpha(rgba: &Vec<u8>) -> (rgb: Vec<u8>)
    requires
        rgba.len() % 4 == 0,
    ensures
        rgb@ == rgb_spec(rgba@),
        rgb.len() == rgba.len() / 4 * 3,
{
    let pixels: usize = rgba.len() / 4;
    let mut rgb: Vec<u8> = Vec::with_capacity(pixels * 3);
    let mut i: usize = 0;
    while i < pixels
        invariant
            i <= pixels,
            pixels == rgba.len() / 4,
            rgb.len() == 3 * i,
            forall|k: int| 0 <= k < 3 * i ==> #[trigger] rgb@[k] == rgba@[k / 3 * 4 + k % 3],
        decreases pixels - i,
    {
        rgb.push(rgba[4 * i]);
        rgb.push(rgba[4 * i + 1]);
        rgb.push(rgba[4 * i + 2]);
        i = i + 1;
    }
    assert(rgb@ =~= rgb_spec(rgba@));
    rgb
}

/// Whether a picture at a scale fits the machine: its width fits 32 bits
/// and four values for each of its pixels can be counted.
pub open spec fn scale_fits(scale: u32) -> bool {
    160 * scale <= u32::MAX && 4 * (160 * scale) * (144 * scale) <= usize::MAX
}

/// The picture of the console as an RGB image at a scale: 160 by 144
/// pixels times the scale, and 160 by 144 pixels for a scale of 0 as for
/// a scale of 1.
pub fn get_image(gameboy: &Gameboy, scale: u32) -> (p: Picture)
    requires
        gameboy@.mem.wf(),
        scale > 1 ==> scale_fits(scale),
    ensures
        p.width == (if scale > 1 { 160 * scale } else { 160 }),
        p.height == (if scale > 1 { 144 * scale } else { 144 }),
        p.rgb@ == picture_spec(gameboy@.mem.ppu.frame, scale),
        p.rgb.len() == 3 * p.width * p.height,
{
    let rgba: Vec<u8> = gameboy.image();
    let rgb: Vec<u8> = strip_alpha(&rgba);
    if scale > 1 {
        let width: u32 = 160 * scale;
        let height: u32 = 144 * scale;
        assert(4 * 160 * height <= 4 * width * height && 3 * width * height <= 4 * width * height)
            by (nonlinear_arith)
            requires
                width >= 160,
                height >= 0,
        ;
        Picture { width, height, rgb: resize_nearest(rgb, 160, 144, width, height) }
    } else {
        Picture { width: 160, height: 144, rgb }
    }
}

/// The controls of a front end.
pub struct App {
    controls: Controls,
}

impl View for App {
    type V = Controls;

    closed spec fn view(&self) -> Controls {
        self.controls
    }
}

impl App {
    /// The controls at the start, for a terminal that speaks `protocol`.
    pub fn new(protocol: ImageProtocol) -> (app: App)
        ensures
            app@ == Controls::initial(protocol),
            app@.wf(),
    {
        App {
            controls: Controls {
                should_quit: false,
                scale: 1,
                last_key: None,
                split_percent: 40,
                image_static_offset: (0, 0),
                protocol,
            },
        }
    }

    /// The state of the controls.
    pub fn controls(&self) -> (c: Controls)
        ensures
            c == self@,
    {
        self.controls
    }

    /// Whether a key can be taken.
    pub fn accepts(&self, c: char) -> (b: bool)
        ensures
            b == self@.accepts(c),
    {
        !(c == 'j' && self.controls.image_static_offset.1 == 0xFFFF) && !(c == 'l'
            && self.controls.image_static_offset.0 == 0xFFFF)
    }

    /// Takes a key: changes the controls, presses the key of the console
    /// that the character stands for, and says what is left for the front
    /// end to do.
    pub fn on_key(&mut self, c: char, gameboy: &mut Gameboy) -> (action: KeyAction)
        requires
            old(self)@.wf(),
            old(self)@.accepts(c),
        ensures
            final(self)@ == old(self)@.on_key_spec(c),
            final(self)@.wf(),
            action == Controls::action_spec(c),
            final(gameboy)@ == (match key_of(c) {
                Some(key) => Machine { mem: old(gameboy)@.mem.key_down_spec(key), ..old(gameboy)@ },
                None => old(gameboy)@,
            }),
            old(gameboy)@.mem.wf() ==> final(gameboy)@.mem.wf(),
    {
        let mut action: KeyAction = KeyAction::Nothing;
        if c == 'q' {
            self.controls.should_quit = true;
        } else if c == 'i' {
            self.controls.protocol = next_protocol(self.controls.protocol);
            action = KeyAction::ResetImages;
        } else if c == 'o' {
            if self.controls.scale >= MAX_SCALE {
                self.controls.scale = 1;
            } else {
                self.controls.scale = self.controls.scale + 1;
            }
        } else if c == 'H' {
            if self.controls.split_percent >= 10 {
                self.controls.split_percent = self.controls.split_percent - 10;
            }
        } else if c == 'L' {
            if self.controls.split_percent <= 90 {
                self.controls.split_percent = self.controls.split_percent + 10;
            }
        } else if c == 'h' {
            if self.controls.image_static_offset.0 > 0 {
                self.controls.image_static_offset.0 = self.controls.image_static_offset.0 - 1;
            }
        } else if c == 'j' {
            self.controls.image_static_offset.1 = self.controls.image_static_offset.1 + 1;
        } else if c == 'k' {
            if self.controls.image_static_offset.1 > 0 {
                self.controls.image_static_offset.1 = self.controls.image_static_offset.1 - 1;
            }
        } else if c == 'l' {
            self.controls.image_static_offset.0 = self.controls.image_static_offset.0 + 1;
        } else if c == 'a' || c == 'A' {
            gameboy.keydown(KeypadKey::A);
            self.controls.last_key = Some(KeypadKey::A);
        } else if c == 'b' || c == 'B' {
            gameboy.keydown(KeypadKey::B);
            self.controls.last_key = Some(KeypadKey::B);
        } else if c == 'z' || c == 'Z' {
            gameboy.keydown(KeypadKey::Select);
            self.controls.last_key = Some(KeypadKey::Select);
        } else if c == 'x' || c == 'X' {
            gameboy.keydown(KeypadKey::Start);
            self.controls.last_key = Some(KeypadKey::Start);
        }
        action
    }

    /// Takes an arrow key: presses the direction on the console and
    /// remembers it as held.
    pub fn on_arrow(&mut self, key: KeypadKey, gameboy: &mut Gameboy)
        ensures
            final(self)@ == (Controls { last_key: Some(key), ..old(self)@ }),
            final(gameboy)@ == (Machine {
                mem: old(gameboy)@.mem.key_down_spec(key),
                ..old(gameboy)@
            }),
            old(gameboy)@.mem.wf() ==> final(gameboy)@.mem.wf(),
    {
        gameboy.keydown(key);
        self.controls.last_key = Some(key);
    }

    /// The picture to show at this tick, at the scale of the controls.
    pub fn on_tick(&self, gameboy: &Gameboy) -> (p: Picture)
        requires
            self@.wf(),
            gameboy@.mem.wf(),
        ensures
            p.width == 160 * self@.scale,
            p.height == 144 * self@.scale,
            p.rgb@ == picture_spec(gameboy@.mem.ppu.frame, self@.scale),
            p.rgb.len() == 3 * p.width * p.height,
    {
        assert(scale_fits(self.controls.scale)) by (nonlinear_arith)
            requires
                1 <= self.controls.scale <= 4,
                usize::MAX >= 0xFFFF_FFFF,
        ;
        get_image(gameboy, self.controls.scale)
    }

    /// Releases the key that was held since the last tick, if there is
    /// one.
    pub fn release(&mut self, gameboy: &mut Gameboy)
        ensures
            final(self)@ == (Controls { last_key: None, ..old(self)@ }),
            final(gameboy)@ == (match old(self)@.last_key {
                Some(key) => Machine { mem: old(gameboy)@.mem.key_up_spec(key), ..old(gameboy)@ },
                None => old(gameboy)@,
            }),
            old(gameboy)@.mem.wf() ==> final(gameboy)@.mem.wf(),
    {
        match self.controls.last_key {
            Some(key) => {
                gameboy.keyup(key);
            },
            None => {},
        }
        self.controls.last_key = None;
    }
}

} // verus!
