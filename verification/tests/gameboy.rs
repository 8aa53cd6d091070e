use lr35902::gameboy::{level, Gameboy};
use lr35902::joypad::KeypadKey;
use lr35902::screen::{get_image, strip_alpha, App, Controls, ImageProtocol, KeyAction};

fn image_with(program: &[u8]) -> Vec<u8> {
    let mut rom = vec![0u8; 0x8000];
    rom[0x100] = 0xC3;
    rom[0x101] = 0x50;
    rom[0x102] = 0x01;
    for (i, b) in program.iter().enumerate() {
        rom[0x150 + i] = *b;
    }
    rom
}

fn console_with(program: &[u8]) -> Gameboy {
    let mut gb = Gameboy::new();
    assert!(gb.load_rom(image_with(program)).is_ok());
    gb
}

fn position(gb: &Gameboy) -> u32 {
    let lcd = gb.mmu().ppu().lcd();
    lcd.line as u32 * 456 + lcd.dot as u32
}

#[test]
fn a_frame_of_no_operations_takes_70224_cycles() {
    let mut gb = console_with(&[0x18, 0xFE]);
    let mut rom = image_with(&[]);
    rom[0x100] = 0x00;
    rom[0x101] = 0x00;
    rom[0x102] = 0x00;
    for b in rom[0x150..].iter_mut() {
        *b = 0x00;
    }
    assert!(gb.load_rom(rom).is_ok());
    for n in 1..=2u16 {
        let report = gb.frame();
        assert_eq!(report.cycles, 70224);
        assert_eq!(report.steps, 17556);
        assert!(!report.locked);
        assert_eq!(position(&gb), 0);
        assert_eq!(gb.cpu().r.pc, 0x0100 + n * 17556);
    }
    // the third frame runs into the cartridge's RAM range, which reads
    // 0xFF: one restart of 16 cycles takes the place of four steps
    let report = gb.frame();
    assert_eq!(report.cycles, 70224);
    assert_eq!(report.steps, 17553);
    assert_eq!(position(&gb), 0);
}

#[test]
fn frames_end_70224_cycles_apart_whatever_runs() {
    // a loop of instructions of different lengths: PUSH BC; POP BC; INC (HL); CALL; JR
    let mut gb = console_with(&[
        0x21, 0x00, 0xC0, 0xC5, 0xC1, 0x34, 0xCD, 0x5C, 0x01, 0x18, 0xF8, 0x00, 0xC9,
    ]);
    let mut total: u64 = 0;
    let mut start = position(&gb) as u64;
    for n in 1..=5u64 {
        let report = gb.frame();
        total += report.cycles as u64;
        let end = position(&gb) as u64;
        assert!(end < 24);
        assert_eq!(start + report.cycles as u64, 70224 + end);
        assert_eq!(total, n * 70224 + end);
        start = end;
    }
    assert!(gb.read(0xC000) != 0);
}

#[test]
fn frame_counts_the_cycles_of_every_step() {
    let mut a = console_with(&[0x3C, 0xC5, 0xC1, 0x18, 0xFB]);
    let mut b = console_with(&[0x3C, 0xC5, 0xC1, 0x18, 0xFB]);
    let report = a.frame();
    let mut cycles: u32 = 0;
    let mut steps: u32 = 0;
    loop {
        let t = b.step();
        cycles += t.cycles as u32;
        steps += 1;
        if t.frame {
            break;
        }
    }
    assert_eq!(report.cycles, cycles);
    assert_eq!(report.steps, steps);
    assert_eq!(a.cpu(), b.cpu());
    assert_eq!(position(&a), position(&b));
    assert_eq!(a.image(), b.image());
}

#[test]
fn a_locked_processor_lets_frames_pass() {
    let mut gb = console_with(&[0xDD]);
    let first = gb.frame();
    assert!(first.locked);
    assert_eq!(first.steps, 1 + (70224 - 16) / 4);
    assert!(gb.is_locked());
    assert_eq!(gb.cpu().r.pc, 0x0150);
    let second = gb.frame();
    assert!(second.locked);
    assert_eq!(first.cycles + second.cycles, 2 * 70224 + position(&gb));
    assert_eq!(gb.cpu().r.pc, 0x0150);
}

#[test]
fn step_advances_timer_and_picture_by_its_cycles() {
    let mut gb = console_with(&[0x00]);
    let t = gb.step();
    assert_eq!(t.cycles, 16);
    assert!(!t.frame);
    assert_eq!(position(&gb), 16);
    assert_eq!(gb.mmu().timer().system, 16);
    let t = gb.step();
    assert_eq!(t.cycles, 4);
    assert_eq!(position(&gb), 20);
    assert_eq!(gb.mmu().timer().system, 20);
}

#[test]
fn timer_interrupt_reaches_the_processor() {
    // LD A,4; LDH (0xFF),A; LD A,5; LDH (0x07),A; LD A,0xFF; LDH (0x05),A; XOR A; LDH (0x0F),A; EI; JR -2
    let mut rom = image_with(&[
        0x3E, 0x04, 0xE0, 0xFF, 0x3E, 0x05, 0xE0, 0x07, 0x3E, 0xFF, 0xE0, 0x05, 0xAF, 0xE0, 0x0F,
        0xFB, 0x18, 0xFE,
    ]);
    rom[0x50] = 0x3C;
    rom[0x51] = 0x18;
    rom[0x52] = 0xFE;
    let mut gb = Gameboy::new();
    assert!(gb.load_rom(rom).is_ok());
    let mut served = false;
    for _ in 0..200 {
        gb.step();
        if gb.cpu().r.pc == 0x0050 {
            served = true;
            break;
        }
    }
    assert!(served);
    assert_eq!(gb.cpu().r.sp, 0xFFFC);
    assert_eq!(gb.read(0xFF0F) & 0x04, 0x00);
    assert!(!gb.mmu().interrupts().master);
}

#[test]
fn picture_format_is_rgba() {
    let gb = Gameboy::new();
    assert_eq!(gb.width(), 160);
    assert_eq!(gb.height(), 144);
    let image = gb.image();
    assert_eq!(image.len(), 160 * 144 * 4);
    assert!(image.iter().all(|b| *b == 0xFF));
    assert_eq!(level(0), 0xFF);
    assert_eq!(level(1), 0xAA);
    assert_eq!(level(2), 0x55);
    assert_eq!(level(3), 0x00);
}

#[test]
fn picture_shows_what_was_drawn() {
    let mut gb = console_with(&[0x18, 0xFE]);
    gb.write(0xFF47, 0xE4);
    gb.write(0x8000, 0x80);
    gb.write(0x8002, 0x00);
    gb.write(0x8003, 0x40);
    gb.write(0x8004, 0x20);
    gb.write(0x8005, 0x20);
    gb.frame();
    let image = gb.image();
    let at = |x: usize, y: usize| -> [u8; 4] {
        let i = (y * 160 + x) * 4;
        [image[i], image[i + 1], image[i + 2], image[i + 3]]
    };
    assert_eq!(at(0, 0), [0xAA, 0xAA, 0xAA, 0xFF]);
    assert_eq!(at(1, 0), [0xFF, 0xFF, 0xFF, 0xFF]);
    assert_eq!(at(1, 1), [0x55, 0x55, 0x55, 0xFF]);
    assert_eq!(at(2, 2), [0x00, 0x00, 0x00, 0xFF]);
    assert_eq!(at(8, 0), [0xAA, 0xAA, 0xAA, 0xFF]);
    assert_eq!(at(159, 143), [0xFF, 0xFF, 0xFF, 0xFF]);
}

#[test]
fn keys_reach_the_joypad_register_at_once() {
    let mut gb = console_with(&[0x18, 0xFE]);
    gb.write(0xFF0F, 0x00);
    gb.write(0xFF00, 0x20);
    gb.keydown(KeypadKey::Up);
    assert_eq!(gb.read(0xFF00), 0xEB);
    assert_eq!(gb.read(0xFF0F) & 0x10, 0x10);
    gb.keyup(KeypadKey::Up);
    assert_eq!(gb.read(0xFF00), 0xEF);
}

#[test]
fn alpha_is_stripped() {
    let rgba: Vec<u8> = vec![1, 2, 3, 4, 5, 6, 7, 8, 9, 10, 11, 12];
    assert_eq!(strip_alpha(&rgba), vec![1, 2, 3, 5, 6, 7, 9, 10, 11]);
    assert_eq!(strip_alpha(&Vec::new()), Vec::<u8>::new());
}

#[test]
fn picture_at_scale_one_is_the_frame_in_rgb() {
    let mut gb = console_with(&[0x18, 0xFE]);
    gb.write(0xFF47, 0xE4);
    gb.write(0x8000, 0x80);
    gb.frame();
    for scale in [0u32, 1] {
        let p = get_image(&gb, scale);
        assert_eq!(p.width, 160);
        assert_eq!(p.height, 144);
        assert_eq!(p.rgb.len(), 160 * 144 * 3);
        assert_eq!(p.rgb[0..6], [0xAA, 0xAA, 0xAA, 0xFF, 0xFF, 0xFF]);
        assert_eq!(p.rgb, strip_alpha(&gb.image()));
    }
}

#[test]
fn picture_is_resized_by_the_scale() {
    let mut gb = console_with(&[0x18, 0xFE]);
    gb.write(0xFF47, 0xE4);
    gb.write(0x8000, 0x80);
    gb.write(0x8003, 0x40);
    gb.frame();
    let plain = get_image(&gb, 1);
    for scale in [2u32, 3, 4] {
        let p = get_image(&gb, scale);
        assert_eq!(p.width, 160 * scale);
        assert_eq!(p.height, 144 * scale);
        assert_eq!(p.rgb.len() as u32, 3 * 160 * scale * 144 * scale);
        assert_ne!(p.rgb, plain.rgb);
        let s = scale as usize;
        for y in 0..144 * s {
            for x in 0..160 * s {
                let from = ((y / s) * 160 + x / s) * 3;
                let to = (y * 160 * s + x) * 3;
                assert_eq!(p.rgb[to..to + 3], plain.rgb[from..from + 3]);
            }
        }
    }
}

#[test]
fn controls_start_at_scale_one() {
    let app = App::new(ImageProtocol::Kitty);
    let c = app.controls();
    assert!(!c.should_quit);
    assert_eq!(c.scale, 1);
    assert_eq!(c.last_key, None);
    assert_eq!(c.split_percent, 40);
    assert_eq!(c.image_static_offset, (0, 0));
    assert_eq!(c.protocol, ImageProtocol::Kitty);
}

#[test]
fn quit_and_protocol_keys() {
    let mut gb = Gameboy::new();
    let mut app = App::new(ImageProtocol::Halfblocks);
    let mut seen = Vec::new();
    for _ in 0..5 {
        assert_eq!(app.on_key('i', &mut gb), KeyAction::ResetImages);
        seen.push(app.controls().protocol);
    }
    assert_eq!(
        seen,
        vec![
            ImageProtocol::Sixel,
            ImageProtocol::Kitty,
            ImageProtocol::Iterm2,
            ImageProtocol::Halfblocks,
            ImageProtocol::Sixel,
        ]
    );
    app = App::new(ImageProtocol::Halfblocks);
    assert_eq!(app.on_key('q', &mut gb), KeyAction::Nothing);
    assert!(app.controls().should_quit);
    assert_eq!(app.on_key('?', &mut gb), KeyAction::Nothing);
    assert_eq!(app.on_key('Q', &mut gb), KeyAction::Nothing);
    assert_eq!(app.controls(), Controls { should_quit: true, ..App::new(ImageProtocol::Halfblocks).controls() });
}

#[test]
fn scale_key_cycles_through_four_scales() {
    let mut gb = Gameboy::new();
    let mut app = App::new(ImageProtocol::Halfblocks);
    let mut seen = Vec::new();
    for _ in 0..9 {
        app.on_key('o', &mut gb);
        seen.push(app.controls().scale);
    }
    assert_eq!(seen, vec![2, 3, 4, 1, 2, 3, 4, 1, 2]);
}

#[test]
fn split_keys_stay_within_bounds() {
    let mut gb = Gameboy::new();
    let mut app = App::new(ImageProtocol::Halfblocks);
    app.on_key('H', &mut gb);
    assert_eq!(app.controls().split_percent, 30);
    for _ in 0..10 {
        app.on_key('H', &mut gb);
    }
    assert_eq!(app.controls().split_percent, 0);
    app.on_key('L', &mut gb);
    assert_eq!(app.controls().split_percent, 10);
    for _ in 0..20 {
        app.on_key('L', &mut gb);
    }
    assert_eq!(app.controls().split_percent, 100);
    app.on_key('H', &mut gb);
    assert_eq!(app.controls().split_percent, 90);
}

#[test]
fn offset_keys_move_the_picture() {
    let mut gb = Gameboy::new();
    let mut app = App::new(ImageProtocol::Halfblocks);
    app.on_key('h', &mut gb);
    app.on_key('k', &mut gb);
    assert_eq!(app.controls().image_static_offset, (0, 0));
    app.on_key('l', &mut gb);
    app.on_key('l', &mut gb);
    app.on_key('j', &mut gb);
    assert_eq!(app.controls().image_static_offset, (2, 1));
    app.on_key('h', &mut gb);
    app.on_key('k', &mut gb);
    assert_eq!(app.controls().image_static_offset, (1, 0));
    assert!(app.accepts('j') && app.accepts('l') && app.accepts('q'));
}

#[test]
fn console_keys_are_pressed_and_remembered() {
    for (c, key, value) in [
        ('a', KeypadKey::A, 0xDEu8),
        ('A', KeypadKey::A, 0xDE),
        ('b', KeypadKey::B, 0xDD),
        ('B', KeypadKey::B, 0xDD),
        ('z', KeypadKey::Select, 0xDB),
        ('Z', KeypadKey::Select, 0xDB),
        ('x', KeypadKey::Start, 0xD7),
        ('X', KeypadKey::Start, 0xD7),
    ] {
        let mut gb = Gameboy::new();
        let mut app = App::new(ImageProtocol::Halfblocks);
        gb.write(0xFF00, 0x10);
        assert_eq!(app.on_key(c, &mut gb), KeyAction::Nothing);
        assert_eq!(app.controls().last_key, Some(key));
        assert_eq!(gb.read(0xFF00), value);
        app.release(&mut gb);
        assert_eq!(app.controls().last_key, None);
        assert_eq!(gb.read(0xFF00), 0xDF);
        app.release(&mut gb);
        assert_eq!(gb.read(0xFF00), 0xDF);
    }
}

#[test]
fn arrow_keys_press_directions() {
    for (key, value) in [
        (KeypadKey::Right, 0xEEu8),
        (KeypadKey::Left, 0xED),
        (KeypadKey::Up, 0xEB),
        (KeypadKey::Down, 0xE7),
    ] {
        let mut gb = Gameboy::new();
        let mut app = App::new(ImageProtocol::Halfblocks);
        gb.write(0xFF00, 0x20);
        app.on_arrow(key, &mut gb);
        assert_eq!(app.controls().last_key, Some(key));
        assert_eq!(gb.read(0xFF00), value);
        app.release(&mut gb);
        assert_eq!(gb.read(0xFF00), 0xEF);
    }
}

#[test]
fn tick_gives_the_picture_at_the_scale_of_the_controls() {
    let mut gb = console_with(&[0x18, 0xFE]);
    gb.write(0x8000, 0xFF);
    gb.frame();
    let mut app = App::new(ImageProtocol::Halfblocks);
    let p = app.on_tick(&gb);
    assert_eq!((p.width, p.height), (160, 144));
    assert_eq!(p, get_image(&gb, 1));
    app.on_key('o', &mut gb);
    let p = app.on_tick(&gb);
    assert_eq!((p.width, p.height), (320, 288));
    assert_eq!(p.rgb.len(), 320 * 288 * 3);
    assert_eq!(p, get_image(&gb, 2));
    assert_eq!(p.rgb[0..3], [0x00, 0x00, 0x00]);
    assert_eq!(p.rgb[3 * 16..3 * 16 + 3], [0x00, 0x00, 0x00]);
    assert_eq!(p.rgb[3 * 320 * 2..3 * 320 * 2 + 3], [0xFF, 0xFF, 0xFF]);
}
