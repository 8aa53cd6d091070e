use lr35902::ppu::{shade, Mode, Ppu};

fn run(ppu: &mut Ppu, cycles: u32) {
    for _ in 0..cycles {
        ppu.tick();
    }
}

fn pixel(ppu: &Ppu, x: usize, y: usize) -> u8 {
    ppu.frame()[y * 160 + x]
}

/// Writes a row of a tile: the low bit planes first.
fn tile_row(ppu: &mut Ppu, tile: u16, row: u16, lo: u8, hi: u8) {
    ppu.write_vram(0x8000 + tile * 16 + row * 2, lo);
    ppu.write_vram(0x8000 + tile * 16 + row * 2 + 1, hi);
}

fn sprite(ppu: &mut Ppu, index: u16, y: u8, x: u8, tile: u8, attr: u8) {
    ppu.write_oam(0xFE00 + index * 4, y);
    ppu.write_oam(0xFE00 + index * 4 + 1, x);
    ppu.write_oam(0xFE00 + index * 4 + 2, tile);
    ppu.write_oam(0xFE00 + index * 4 + 3, attr);
}

#[test]
fn a_frame_lasts_70224_cycles() {
    let mut ppu = Ppu::new();
    for _ in 0..3 {
        let mut cycles: u32 = 0;
        loop {
            cycles += 1;
            if ppu.tick().frame {
                break;
            }
        }
        assert_eq!(cycles, 70224);
        assert_eq!(ppu.lcd().line, 0);
        assert_eq!(ppu.lcd().dot, 0);
    }
}

#[test]
fn a_frame_lasts_70224_cycles_with_sprites_and_window() {
    let mut ppu = Ppu::new();
    ppu.write_register(0xFF40, 0xB3);
    ppu.write_register(0xFF4B, 7);
    for i in 0..40u16 {
        sprite(&mut ppu, i, 16 + (i as u8) * 3, 8 + i as u8, 1, 0);
    }
    run(&mut ppu, 12345);
    let mut cycles: u32 = 12345;
    loop {
        cycles += 1;
        if ppu.tick().frame {
            break;
        }
    }
    assert_eq!(cycles, 70224);
    let mut again: u32 = 0;
    loop {
        again += 1;
        if ppu.advance(1).frame {
            break;
        }
    }
    assert_eq!(again, 70224);
}

#[test]
fn a_line_lasts_456_cycles() {
    let mut ppu = Ppu::new();
    for line in 0..154u32 {
        assert_eq!(ppu.lcd().line as u32, line);
        assert_eq!(ppu.read_register(0xFF44) as u32, line);
        run(&mut ppu, 455);
        assert_eq!(ppu.lcd().line as u32, line);
        assert_eq!(ppu.lcd().dot, 455);
        run(&mut ppu, 1);
    }
    assert_eq!(ppu.lcd().line, 0);
}

#[test]
fn modes_follow_the_timing_of_a_line() {
    let mut ppu = Ppu::new();
    assert_eq!(ppu.lcd().mode, Mode::OamScan);
    run(&mut ppu, 79);
    assert_eq!(ppu.lcd().mode, Mode::OamScan);
    run(&mut ppu, 1);
    assert_eq!(ppu.lcd().mode, Mode::Transfer);
    run(&mut ppu, 171);
    assert_eq!(ppu.lcd().mode, Mode::Transfer);
    run(&mut ppu, 1);
    assert_eq!(ppu.lcd().mode, Mode::HBlank);
    run(&mut ppu, 203);
    assert_eq!(ppu.lcd().mode, Mode::HBlank);
    run(&mut ppu, 1);
    assert_eq!(ppu.lcd().mode, Mode::OamScan);
    assert_eq!(ppu.lcd().line, 1);
    run(&mut ppu, 143 * 456);
    assert_eq!(ppu.lcd().line, 144);
    assert_eq!(ppu.lcd().mode, Mode::VBlank);
    run(&mut ppu, 10 * 456 - 1);
    assert_eq!(ppu.lcd().mode, Mode::VBlank);
    assert_eq!(ppu.lcd().line, 153);
    run(&mut ppu, 1);
    assert_eq!(ppu.lcd().mode, Mode::OamScan);
    assert_eq!(Mode::HBlank.bits(), 0);
    assert_eq!(Mode::VBlank.bits(), 1);
    assert_eq!(Mode::OamScan.bits(), 2);
    assert_eq!(Mode::Transfer.bits(), 3);
}

#[test]
fn vertical_blank_begins_after_144_lines() {
    let mut ppu = Ppu::new();
    let mut cycles: u32 = 0;
    loop {
        cycles += 1;
        let e = ppu.tick();
        assert!(!e.frame);
        if e.vblank {
            break;
        }
    }
    assert_eq!(cycles, 144 * 456);
    let mut more: u32 = 0;
    loop {
        more += 1;
        let e = ppu.tick();
        assert!(!e.vblank);
        if e.frame {
            break;
        }
    }
    assert_eq!(more, 10 * 456);
}

#[test]
fn sprites_and_window_lengthen_the_transfer() {
    let mut ppu = Ppu::new();
    ppu.write_register(0xFF40, 0x93);
    sprite(&mut ppu, 0, 16, 8, 0, 0);
    sprite(&mut ppu, 1, 16, 20, 0, 0);
    run(&mut ppu, 80);
    assert_eq!(ppu.lcd().transfer, 172 + 22);
    run(&mut ppu, 172 + 21);
    assert_eq!(ppu.lcd().mode, Mode::Transfer);
    run(&mut ppu, 1);
    assert_eq!(ppu.lcd().mode, Mode::HBlank);
    run(&mut ppu, 456 - 80 - 194);
    ppu.write_register(0xFF40, 0xB3);
    ppu.write_register(0xFF4A, 1);
    ppu.write_register(0xFF4B, 50);
    sprite(&mut ppu, 0, 0, 0, 0, 0);
    sprite(&mut ppu, 1, 0, 0, 0, 0);
    run(&mut ppu, 80);
    assert_eq!(ppu.lcd().line, 1);
    assert_eq!(ppu.lcd().transfer, 172 + 6);
}

#[test]
fn the_frame_changes_only_when_a_transfer_starts() {
    let mut ppu = Ppu::new();
    tile_row(&mut ppu, 0, 0, 0xFF, 0x00);
    tile_row(&mut ppu, 0, 1, 0xFF, 0x00);
    run(&mut ppu, 79);
    assert!(ppu.frame().iter().all(|p| *p == 0));
    run(&mut ppu, 1);
    assert!(ppu.frame()[0..160].iter().all(|p| *p == 3));
    assert!(ppu.frame()[160..].iter().all(|p| *p == 0));
    let drawn = ppu.frame().clone();
    tile_row(&mut ppu, 0, 0, 0x00, 0x00);
    run(&mut ppu, 455);
    assert_eq!(*ppu.frame(), drawn);
    run(&mut ppu, 1);
    assert!(ppu.frame()[160..320].iter().all(|p| *p == 3));
    assert!(ppu.frame()[0..160].iter().all(|p| *p == 3));
}

#[test]
fn background_pixels_come_from_tiles() {
    let mut ppu = Ppu::new();
    ppu.write_register(0xFF47, 0xE4);
    tile_row(&mut ppu, 0, 0, 0x80, 0x00);
    tile_row(&mut ppu, 1, 0, 0xFF, 0xFF);
    tile_row(&mut ppu, 2, 0, 0x00, 0x0F);
    ppu.write_vram(0x9801, 1);
    ppu.write_vram(0x9802, 2);
    run(&mut ppu, 80);
    assert_eq!(pixel(&ppu, 0, 0), 1);
    assert_eq!(pixel(&ppu, 1, 0), 0);
    assert_eq!(pixel(&ppu, 7, 0), 0);
    assert_eq!(pixel(&ppu, 8, 0), 3);
    assert_eq!(pixel(&ppu, 15, 0), 3);
    assert_eq!(pixel(&ppu, 16, 0), 0);
    assert_eq!(pixel(&ppu, 19, 0), 0);
    assert_eq!(pixel(&ppu, 20, 0), 2);
    assert_eq!(pixel(&ppu, 23, 0), 2);
    assert_eq!(pixel(&ppu, 24, 0), 1);
}

#[test]
fn palette_maps_colours_to_shades() {
    assert_eq!(shade(0xE4, 0), 0);
    assert_eq!(shade(0xE4, 1), 1);
    assert_eq!(shade(0xE4, 2), 2);
    assert_eq!(shade(0xE4, 3), 3);
    assert_eq!(shade(0x1B, 0), 3);
    assert_eq!(shade(0x1B, 1), 2);
    assert_eq!(shade(0x1B, 2), 1);
    assert_eq!(shade(0x1B, 3), 0);
    assert_eq!(shade(0xFC, 1), 3);
}

#[test]
fn background_scrolls_and_wraps() {
    let mut ppu = Ppu::new();
    ppu.write_register(0xFF47, 0xE4);
    tile_row(&mut ppu, 0, 0, 0x80, 0x00);
    tile_row(&mut ppu, 1, 3, 0xFF, 0xFF);
    ppu.write_vram(0x9800 + 31 * 32 + 31, 1);
    ppu.write_register(0xFF43, 1);
    run(&mut ppu, 80);
    assert_eq!(pixel(&ppu, 0, 0), 0);
    assert_eq!(pixel(&ppu, 7, 0), 1);
    run(&mut ppu, 456 - 80);
    ppu.write_register(0xFF43, 250);
    ppu.write_register(0xFF42, 250);
    run(&mut ppu, 80);
    assert_eq!(pixel(&ppu, 0, 1), 3);
    assert_eq!(pixel(&ppu, 5, 1), 3);
    assert_eq!(pixel(&ppu, 6, 1), 0);
}

#[test]
fn signed_tile_numbers() {
    let mut ppu = Ppu::new();
    ppu.write_register(0xFF40, 0x81);
    ppu.write_register(0xFF47, 0xE4);
    ppu.write_vram(0x9000, 0xFF);
    ppu.write_vram(0x8800, 0xFF);
    ppu.write_vram(0x8801, 0xFF);
    ppu.write_vram(0x9801, 0x80);
    run(&mut ppu, 80);
    assert_eq!(pixel(&ppu, 0, 0), 1);
    assert_eq!(pixel(&ppu, 8, 0), 3);
}

#[test]
fn second_tile_map() {
    let mut ppu = Ppu::new();
    ppu.write_register(0xFF40, 0x99);
    ppu.write_register(0xFF47, 0xE4);
    tile_row(&mut ppu, 1, 0, 0xFF, 0x00);
    ppu.write_vram(0x9C00, 1);
    run(&mut ppu, 80);
    assert_eq!(pixel(&ppu, 0, 0), 1);
    assert_eq!(pixel(&ppu, 8, 0), 0);
}

#[test]
fn window_covers_the_background() {
    let mut ppu = Ppu::new();
    ppu.write_register(0xFF40, 0xF1);
    ppu.write_register(0xFF47, 0xE4);
    tile_row(&mut ppu, 0, 0, 0x80, 0x00);
    tile_row(&mut ppu, 1, 0, 0xFF, 0xFF);
    ppu.write_vram(0x9C00, 1);
    ppu.write_register(0xFF4B, 87);
    ppu.write_register(0xFF4A, 0);
    run(&mut ppu, 80);
    assert_eq!(pixel(&ppu, 72, 0), 1);
    assert_eq!(pixel(&ppu, 79, 0), 0);
    assert_eq!(pixel(&ppu, 80, 0), 3);
    assert_eq!(pixel(&ppu, 87, 0), 3);
    assert_eq!(pixel(&ppu, 88, 0), 1);
    assert_eq!(ppu.lcd().transfer, 178);
}

#[test]
fn window_starts_at_its_line() {
    let mut ppu = Ppu::new();
    ppu.write_register(0xFF40, 0xF1);
    ppu.write_register(0xFF47, 0xE4);
    tile_row(&mut ppu, 1, 0, 0xFF, 0xFF);
    ppu.write_vram(0x9C00, 1);
    ppu.write_register(0xFF4B, 7);
    ppu.write_register(0xFF4A, 1);
    run(&mut ppu, 456 + 80);
    assert_eq!(pixel(&ppu, 0, 0), 0);
    assert_eq!(pixel(&ppu, 0, 1), 3);
    assert_eq!(pixel(&ppu, 7, 1), 3);
    assert_eq!(pixel(&ppu, 8, 1), 0);
}

#[test]
fn background_switched_off_is_colour_zero() {
    let mut ppu = Ppu::new();
    ppu.write_register(0xFF40, 0x90);
    ppu.write_register(0xFF47, 0xE5);
    tile_row(&mut ppu, 0, 0, 0xFF, 0xFF);
    run(&mut ppu, 80);
    assert_eq!(pixel(&ppu, 0, 0), 1);
    assert_eq!(pixel(&ppu, 100, 0), 1);
}

#[test]
fn display_switched_off_is_blank() {
    let mut ppu = Ppu::new();
    tile_row(&mut ppu, 0, 0, 0xFF, 0xFF);
    run(&mut ppu, 80);
    assert_eq!(pixel(&ppu, 0, 0), 3);
    ppu.write_register(0xFF40, 0x11);
    run(&mut ppu, 70224);
    assert!(ppu.frame().iter().all(|p| *p == 0));
}

#[test]
fn sprites_are_drawn_over_the_background() {
    let mut ppu = Ppu::new();
    ppu.write_register(0xFF40, 0x93);
    ppu.write_register(0xFF48, 0xE4);
    tile_row(&mut ppu, 2, 0, 0x80, 0x80);
    tile_row(&mut ppu, 2, 7, 0x01, 0x00);
    sprite(&mut ppu, 0, 16, 8, 2, 0);
    run(&mut ppu, 80);
    assert_eq!(pixel(&ppu, 0, 0), 3);
    assert_eq!(pixel(&ppu, 1, 0), 0);
    run(&mut ppu, 7 * 456);
    assert_eq!(pixel(&ppu, 7, 7), 1);
    assert_eq!(pixel(&ppu, 0, 7), 0);
    run(&mut ppu, 456);
    assert_eq!(pixel(&ppu, 0, 8), 0);
    assert_eq!(pixel(&ppu, 7, 8), 0);
}

#[test]
fn sprites_partly_off_the_screen() {
    let mut ppu = Ppu::new();
    ppu.write_register(0xFF40, 0x93);
    ppu.write_register(0xFF48, 0xE4);
    tile_row(&mut ppu, 2, 0, 0xFF, 0xFF);
    tile_row(&mut ppu, 2, 4, 0x0F, 0x00);
    sprite(&mut ppu, 0, 12, 4, 2, 0);
    sprite(&mut ppu, 1, 16, 164, 2, 0);
    sprite(&mut ppu, 2, 16, 0, 2, 0);
    sprite(&mut ppu, 3, 16, 168, 2, 0);
    run(&mut ppu, 80);
    assert_eq!(pixel(&ppu, 0, 0), 1);
    assert_eq!(pixel(&ppu, 3, 0), 1);
    assert_eq!(pixel(&ppu, 4, 0), 0);
    assert_eq!(pixel(&ppu, 155, 0), 0);
    assert_eq!(pixel(&ppu, 156, 0), 3);
    assert_eq!(pixel(&ppu, 159, 0), 3);
    assert_eq!(ppu.lcd().transfer, 172 + 44);
}

#[test]
fn sprites_can_be_mirrored() {
    let mut ppu = Ppu::new();
    ppu.write_register(0xFF40, 0x93);
    ppu.write_register(0xFF48, 0xE4);
    tile_row(&mut ppu, 2, 0, 0x80, 0x80);
    sprite(&mut ppu, 0, 16, 8, 2, 0x20);
    sprite(&mut ppu, 1, 9, 28, 2, 0x40);
    sprite(&mut ppu, 2, 9, 48, 2, 0x60);
    run(&mut ppu, 80);
    assert_eq!(pixel(&ppu, 0, 0), 0);
    assert_eq!(pixel(&ppu, 7, 0), 3);
    assert_eq!(pixel(&ppu, 20, 0), 3);
    assert_eq!(pixel(&ppu, 27, 0), 0);
    assert_eq!(pixel(&ppu, 40, 0), 0);
    assert_eq!(pixel(&ppu, 47, 0), 3);
}

#[test]
fn sprite_palettes() {
    let mut ppu = Ppu::new();
    ppu.write_register(0xFF40, 0x93);
    ppu.write_register(0xFF48, 0xE4);
    ppu.write_register(0xFF49, 0x1B);
    tile_row(&mut ppu, 2, 0, 0xFF, 0x00);
    sprite(&mut ppu, 0, 16, 8, 2, 0x00);
    sprite(&mut ppu, 1, 16, 16, 2, 0x10);
    run(&mut ppu, 80);
    assert_eq!(pixel(&ppu, 0, 0), 1);
    assert_eq!(pixel(&ppu, 8, 0), 2);
}

#[test]
fn sprite_behind_the_background() {
    let mut ppu = Ppu::new();
    ppu.write_register(0xFF40, 0x93);
    ppu.write_register(0xFF47, 0xE4);
    ppu.write_register(0xFF48, 0xE4);
    tile_row(&mut ppu, 0, 0, 0xF0, 0x00);
    tile_row(&mut ppu, 2, 0, 0xFF, 0xFF);
    sprite(&mut ppu, 0, 16, 8, 2, 0x80);
    run(&mut ppu, 80);
    assert_eq!(pixel(&ppu, 0, 0), 1);
    assert_eq!(pixel(&ppu, 3, 0), 1);
    assert_eq!(pixel(&ppu, 4, 0), 3);
    assert_eq!(pixel(&ppu, 7, 0), 3);
    assert_eq!(pixel(&ppu, 8, 0), 1);
}

#[test]
fn leftmost_sprite_is_in_front() {
    let mut ppu = Ppu::new();
    ppu.write_register(0xFF40, 0x93);
    ppu.write_register(0xFF48, 0xE4);
    tile_row(&mut ppu, 1, 0, 0xFF, 0x00);
    tile_row(&mut ppu, 2, 0, 0x00, 0xFF);
    tile_row(&mut ppu, 3, 0, 0xFF, 0xFF);
    sprite(&mut ppu, 0, 16, 12, 1, 0);
    sprite(&mut ppu, 1, 16, 8, 2, 0);
    sprite(&mut ppu, 2, 16, 12, 3, 0);
    run(&mut ppu, 80);
    assert_eq!(pixel(&ppu, 0, 0), 2);
    assert_eq!(pixel(&ppu, 4, 0), 2);
    assert_eq!(pixel(&ppu, 7, 0), 2);
    assert_eq!(pixel(&ppu, 8, 0), 1);
    assert_eq!(pixel(&ppu, 11, 0), 1);
    assert_eq!(pixel(&ppu, 12, 0), 0);
}

#[test]
fn transparent_pixels_show_the_sprite_behind() {
    let mut ppu = Ppu::new();
    ppu.write_register(0xFF40, 0x93);
    ppu.write_register(0xFF48, 0xE4);
    tile_row(&mut ppu, 1, 0, 0xF0, 0x00);
    tile_row(&mut ppu, 2, 0, 0x00, 0xFF);
    sprite(&mut ppu, 0, 16, 8, 1, 0);
    sprite(&mut ppu, 1, 16, 8, 2, 0);
    run(&mut ppu, 80);
    assert_eq!(pixel(&ppu, 0, 0), 1);
    assert_eq!(pixel(&ppu, 3, 0), 1);
    assert_eq!(pixel(&ppu, 4, 0), 2);
    assert_eq!(pixel(&ppu, 7, 0), 2);
}

#[test]
fn a_line_shows_at_most_ten_sprites() {
    let mut ppu = Ppu::new();
    ppu.write_register(0xFF40, 0x93);
    ppu.write_register(0xFF48, 0xE4);
    tile_row(&mut ppu, 2, 0, 0xFF, 0xFF);
    for i in 0..12u16 {
        sprite(&mut ppu, i, 16, 8 + 8 * i as u8, 2, 0);
    }
    run(&mut ppu, 80);
    for x in 0..80 {
        assert_eq!(pixel(&ppu, x, 0), 3);
    }
    for x in 80..160 {
        assert_eq!(pixel(&ppu, x, 0), 0);
    }
    assert_eq!(ppu.lcd().transfer, 172 + 110);
}

#[test]
fn tall_sprites_take_two_tiles() {
    let mut ppu = Ppu::new();
    ppu.write_register(0xFF40, 0x97);
    ppu.write_register(0xFF48, 0xE4);
    tile_row(&mut ppu, 4, 0, 0xFF, 0x00);
    tile_row(&mut ppu, 5, 7, 0x00, 0xFF);
    sprite(&mut ppu, 0, 16, 8, 5, 0);
    sprite(&mut ppu, 1, 16, 16, 4, 0x40);
    run(&mut ppu, 80);
    assert_eq!(pixel(&ppu, 0, 0), 1);
    assert_eq!(pixel(&ppu, 8, 0), 2);
    run(&mut ppu, 15 * 456);
    assert_eq!(pixel(&ppu, 0, 15), 2);
    assert_eq!(pixel(&ppu, 8, 15), 1);
    run(&mut ppu, 456);
    assert_eq!(pixel(&ppu, 0, 16), 0);
}

#[test]
fn sprites_switched_off_are_not_drawn() {
    let mut ppu = Ppu::new();
    ppu.write_register(0xFF40, 0x91);
    tile_row(&mut ppu, 2, 0, 0xFF, 0xFF);
    sprite(&mut ppu, 0, 16, 8, 2, 0);
    run(&mut ppu, 80);
    assert_eq!(pixel(&ppu, 0, 0), 0);
    assert_eq!(ppu.lcd().transfer, 172);
}

#[test]
fn object_memory_can_be_replaced() {
    let mut ppu = Ppu::new();
    let bytes: Vec<u8> = (0..160u32).map(|i| i as u8).collect();
    ppu.load_oam(bytes);
    for i in 0..160u16 {
        assert_eq!(ppu.read_oam(0xFE00 + i), i as u8);
    }
    ppu.write_vram(0x9FFF, 0x12);
    assert_eq!(ppu.read_vram(0x9FFF), 0x12);
    assert_eq!(ppu.read_status(), 0x86);
}
