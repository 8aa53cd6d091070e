use lr35902::interrupts::{Interrupt, Interrupts};
use lr35902::joypad::{Joypad, KeypadKey};
use lr35902::mmu::Mmu;
use lr35902::registers::{high_byte, join, low_byte, Flags, Registers};

#[test]
fn work_ram_and_its_mirror() {
    let mut mmu = Mmu::new();
    mmu.wb(0xC000, 0x12);
    assert_eq!(mmu.rb(0xC000), 0x12);
    assert_eq!(mmu.rb(0xE000), 0x12);
    mmu.wb(0xFDFF, 0x34);
    assert_eq!(mmu.rb(0xDDFF), 0x34);
    assert_eq!(mmu.rb(0xFDFF), 0x34);
    mmu.wb(0xDFFF, 0x56);
    assert_eq!(mmu.rb(0xDFFF), 0x56);
    assert_eq!(mmu.rb(0xC001), 0x00);
}

#[test]
fn unusable_range_reads_ff_and_drops_writes() {
    let mut mmu = Mmu::new();
    for addr in 0xFEA0..0xFF00u16 {
        mmu.wb(addr, 0x12);
        assert_eq!(mmu.rb(addr), 0xFF);
    }
}

#[test]
fn high_ram_and_interrupt_enable() {
    let mut mmu = Mmu::new();
    mmu.wb(0xFF80, 0x01);
    mmu.wb(0xFFFE, 0x02);
    mmu.wb(0xFFFF, 0xAB);
    assert_eq!(mmu.rb(0xFF80), 0x01);
    assert_eq!(mmu.rb(0xFFFE), 0x02);
    assert_eq!(mmu.rb(0xFFFF), 0xAB);
    assert_eq!(mmu.interrupts().enable, 0xAB);
}

#[test]
fn video_ram_and_object_memory() {
    let mut mmu = Mmu::new();
    mmu.wb(0x8000, 0x11);
    mmu.wb(0x9FFF, 0x22);
    mmu.wb(0xFE00, 0x33);
    mmu.wb(0xFE9F, 0x44);
    assert_eq!(mmu.rb(0x8000), 0x11);
    assert_eq!(mmu.rb(0x9FFF), 0x22);
    assert_eq!(mmu.rb(0xFE00), 0x33);
    assert_eq!(mmu.rb(0xFE9F), 0x44);
}

#[test]
fn words_are_little_endian() {
    let mut mmu = Mmu::new();
    mmu.ww(0xC000, 0xBEEF);
    assert_eq!(mmu.rb(0xC000), 0xEF);
    assert_eq!(mmu.rb(0xC001), 0xBE);
    assert_eq!(mmu.rw(0xC000), 0xBEEF);
    mmu.ww(0xDFFF, 0x1234);
    assert_eq!(mmu.rb(0xDFFF), 0x34);
    assert_eq!(mmu.rb(0xC000), 0x12);
    assert_eq!(mmu.rw(0xDFFF), 0x1234);
}

#[test]
fn word_access_wraps_at_the_top() {
    let mut mmu = Mmu::new();
    mmu.wb(0xFFFF, 0x1F);
    assert_eq!(mmu.rw(0xFFFF), 0xFF1F);
}

#[test]
fn request_register_reads_upper_bits_set() {
    let mut mmu = Mmu::new();
    assert_eq!(mmu.rb(0xFF0F), 0xE1);
    mmu.wb(0xFF0F, 0x00);
    assert_eq!(mmu.rb(0xFF0F), 0xE0);
    mmu.wb(0xFF0F, 0xFF);
    assert_eq!(mmu.rb(0xFF0F), 0xFF);
    assert_eq!(mmu.interrupts().request, 0x1F);
}

#[test]
fn serial_registers() {
    let mut mmu = Mmu::new();
    mmu.wb(0xFF01, 0x55);
    assert_eq!(mmu.rb(0xFF01), 0x55);
    assert_eq!(mmu.rb(0xFF02), 0x7E);
    mmu.wb(0xFF02, 0x81);
    assert_eq!(mmu.rb(0xFF02), 0xFF);
    mmu.wb(0xFF02, 0x80);
    assert_eq!(mmu.rb(0xFF02), 0xFE);
}

#[test]
fn addresses_without_a_register_read_ff() {
    let mut mmu = Mmu::new();
    for addr in [0xFF03u16, 0xFF08, 0xFF10, 0xFF26, 0xFF3F, 0xFF4C, 0xFF7F] {
        mmu.wb(addr, 0x12);
        assert_eq!(mmu.rb(addr), 0xFF);
    }
    assert_eq!(mmu.rb(0xFF46), 0xFF);
}

#[test]
fn lcd_registers_are_stored() {
    let mut mmu = Mmu::new();
    assert_eq!(mmu.rb(0xFF40), 0x91);
    assert_eq!(mmu.rb(0xFF47), 0xFC);
    for (addr, v) in [
        (0xFF40u16, 0x80u8),
        (0xFF42, 0x11),
        (0xFF43, 0x22),
        (0xFF45, 0x33),
        (0xFF47, 0xE4),
        (0xFF48, 0xD2),
        (0xFF49, 0x1B),
        (0xFF4A, 0x44),
        (0xFF4B, 0x55),
    ] {
        mmu.wb(addr, v);
        assert_eq!(mmu.rb(addr), v);
    }
}

#[test]
fn current_line_cannot_be_written() {
    let mut mmu = Mmu::new();
    mmu.advance(200);
    mmu.advance(200);
    mmu.advance(100);
    assert_eq!(mmu.rb(0xFF44), 1);
    mmu.wb(0xFF44, 0x55);
    assert_eq!(mmu.rb(0xFF44), 1);
}

#[test]
fn status_register_shows_mode_and_line_match() {
    let mut mmu = Mmu::new();
    assert_eq!(mmu.rb(0xFF41), 0x86);
    mmu.wb(0xFF41, 0xFF);
    assert_eq!(mmu.rb(0xFF41), 0xFE);
    mmu.wb(0xFF41, 0x00);
    mmu.wb(0xFF45, 0x05);
    assert_eq!(mmu.rb(0xFF41), 0x82);
    mmu.advance(80);
    assert_eq!(mmu.rb(0xFF41), 0x83);
    mmu.advance(172);
    assert_eq!(mmu.rb(0xFF41), 0x80);
}

#[test]
fn transfer_into_object_memory_copies_a_page() {
    let mut mmu = Mmu::new();
    for i in 0..0x100u16 {
        mmu.wb(0xC100 + i, (i as u8) ^ 0x5A);
    }
    mmu.wb(0xFF46, 0xC1);
    for i in 0..0xA0u16 {
        assert_eq!(mmu.rb(0xFE00 + i), (i as u8) ^ 0x5A);
    }
    mmu.wb(0xFF46, 0xFE);
    for i in 0..0xA0u16 {
        assert_eq!(mmu.rb(0xFE00 + i), (i as u8) ^ 0x5A);
    }
}

#[test]
fn joypad_register_shows_the_selected_column() {
    let mut mmu = Mmu::new();
    assert_eq!(mmu.rb(0xFF00), 0xCF);
    mmu.key_down(KeypadKey::A);
    assert_eq!(mmu.rb(0xFF00), 0xCE);
    mmu.wb(0xFF00, 0x20);
    assert_eq!(mmu.rb(0xFF00), 0xEF);
    mmu.key_down(KeypadKey::Down);
    assert_eq!(mmu.rb(0xFF00), 0xE7);
    mmu.wb(0xFF00, 0x10);
    assert_eq!(mmu.rb(0xFF00), 0xDE);
    mmu.wb(0xFF00, 0x30);
    assert_eq!(mmu.rb(0xFF00), 0xFF);
    mmu.wb(0xFF00, 0x00);
    assert_eq!(mmu.rb(0xFF00), 0xC6);
    mmu.key_up(KeypadKey::A);
    mmu.key_up(KeypadKey::Down);
    assert_eq!(mmu.rb(0xFF00), 0xCF);
}

#[test]
fn key_press_requests_the_joypad_interrupt() {
    let mut mmu = Mmu::new();
    mmu.wb(0xFF0F, 0x00);
    mmu.key_down(KeypadKey::Start);
    assert_eq!(mmu.rb(0xFF0F) & 0x10, 0x10);
    mmu.wb(0xFF0F, 0x00);
    mmu.key_down(KeypadKey::Start);
    assert_eq!(mmu.rb(0xFF0F) & 0x10, 0x00);
    mmu.key_down(KeypadKey::Down);
    assert_eq!(mmu.rb(0xFF0F) & 0x10, 0x00);
    mmu.wb(0xFF00, 0x10);
    mmu.key_down(KeypadKey::Left);
    assert_eq!(mmu.rb(0xFF0F) & 0x10, 0x00);
    mmu.key_down(KeypadKey::B);
    assert_eq!(mmu.rb(0xFF0F) & 0x10, 0x10);
}

#[test]
fn every_key_has_its_row_and_column() {
    for (key, directions, value) in [
        (KeypadKey::Right, true, 0xEEu8),
        (KeypadKey::Left, true, 0xED),
        (KeypadKey::Up, true, 0xEB),
        (KeypadKey::Down, true, 0xE7),
        (KeypadKey::A, false, 0xDE),
        (KeypadKey::B, false, 0xDD),
        (KeypadKey::Select, false, 0xDB),
        (KeypadKey::Start, false, 0xD7),
    ] {
        let mut pad = Joypad::new();
        assert!(pad.press(key));
        pad.write(if directions { 0x20 } else { 0x10 });
        assert_eq!(pad.read(), value);
        pad.write(if directions { 0x10 } else { 0x20 });
        assert_eq!(pad.read(), if directions { 0xDF } else { 0xEF });
        pad.release(key);
        pad.write(0x00);
        assert_eq!(pad.read(), 0xCF);
    }
}

#[test]
fn vertical_blank_requests_its_interrupt() {
    let mut mmu = Mmu::new();
    mmu.wb(0xFF0F, 0x00);
    let mut cycles: u32 = 0;
    let mut frame = false;
    while cycles < 65663 {
        frame = mmu.advance(1) || frame;
        cycles += 1;
    }
    assert_eq!(mmu.rb(0xFF0F) & 0x01, 0x00);
    assert_eq!(mmu.rb(0xFF44), 143);
    frame = mmu.advance(1) || frame;
    assert_eq!(mmu.rb(0xFF0F) & 0x01, 0x01);
    assert_eq!(mmu.rb(0xFF44), 144);
    assert_eq!(mmu.rb(0xFF41) & 0x03, 0x01);
    assert!(!frame);
}

#[test]
fn status_interrupt_follows_its_conditions() {
    let mut mmu = Mmu::new();
    mmu.wb(0xFF0F, 0x00);
    mmu.wb(0xFF41, 0x08);
    mmu.advance(251);
    assert_eq!(mmu.rb(0xFF0F) & 0x02, 0x00);
    mmu.advance(1);
    assert_eq!(mmu.rb(0xFF0F) & 0x02, 0x02);
    mmu.wb(0xFF0F, 0x00);
    mmu.wb(0xFF41, 0x40);
    mmu.wb(0xFF45, 0x01);
    mmu.advance(203);
    assert_eq!(mmu.rb(0xFF0F) & 0x02, 0x00);
    mmu.advance(1);
    assert_eq!(mmu.rb(0xFF0F) & 0x02, 0x02);
    assert_eq!(mmu.rb(0xFF41) & 0x04, 0x04);
    mmu.wb(0xFF0F, 0x00);
    mmu.wb(0xFF41, 0x20);
    mmu.advance(250);
    mmu.advance(205);
    assert_eq!(mmu.rb(0xFF0F) & 0x02, 0x00);
    mmu.advance(1);
    assert_eq!(mmu.rb(0xFF0F) & 0x02, 0x02);
}

#[test]
fn interrupt_lines_by_priority() {
    let mut i = Interrupts::new();
    i.enable = 0x1F;
    i.request = 0x00;
    assert_eq!(i.next(), None);
    i.raise(Interrupt::Joypad);
    assert_eq!(i.next(), Some(Interrupt::Joypad));
    i.raise(Interrupt::Serial);
    assert_eq!(i.next(), Some(Interrupt::Serial));
    i.raise(Interrupt::Timer);
    assert_eq!(i.next(), Some(Interrupt::Timer));
    i.raise(Interrupt::LcdStat);
    assert_eq!(i.next(), Some(Interrupt::LcdStat));
    i.raise(Interrupt::VBlank);
    assert_eq!(i.next(), Some(Interrupt::VBlank));
    assert_eq!(i.request, 0x1F);
    i.master = true;
    i.serve(Interrupt::VBlank);
    assert!(!i.master);
    assert_eq!(i.request, 0x1E);
    assert_eq!(i.next(), Some(Interrupt::LcdStat));
    i.enable = 0x10;
    assert_eq!(i.next(), Some(Interrupt::Joypad));
    assert!(i.is_ready(Interrupt::Joypad));
    assert!(!i.is_ready(Interrupt::Timer));
    i.enable = 0xE0;
    assert_eq!(i.next(), None);
}

#[test]
fn interrupt_vectors() {
    assert_eq!(Interrupt::VBlank.vector(), 0x40);
    assert_eq!(Interrupt::LcdStat.vector(), 0x48);
    assert_eq!(Interrupt::Timer.vector(), 0x50);
    assert_eq!(Interrupt::Serial.vector(), 0x58);
    assert_eq!(Interrupt::Joypad.vector(), 0x60);
    assert_eq!(Interrupt::Joypad.index(), 4);
    let mut i = Interrupts::new();
    i.raise_if(false, Interrupt::Timer);
    assert_eq!(i.request, 0x01);
    i.raise_if(true, Interrupt::Timer);
    assert_eq!(i.request, 0x05);
    assert_eq!(i.read_request(), 0xE5);
}

#[test]
fn register_pairs_are_high_byte_first() {
    let mut r = Registers::new();
    r.set_bc(0x1234);
    r.set_de(0x5678);
    r.set_hl(0x9ABC);
    assert_eq!((r.b, r.c), (0x12, 0x34));
    assert_eq!((r.d, r.e), (0x56, 0x78));
    assert_eq!((r.h, r.l), (0x9A, 0xBC));
    assert_eq!(r.bc(), 0x1234);
    assert_eq!(r.de(), 0x5678);
    assert_eq!(r.hl(), 0x9ABC);
    r.h = 0x01;
    assert_eq!(r.hl(), 0x01BC);
    assert_eq!(join(0xAB, 0xCD), 0xABCD);
    assert_eq!(high_byte(0xABCD), 0xAB);
    assert_eq!(low_byte(0xABCD), 0xCD);
    for i in 0..4u8 {
        r.set_pair(i, 0x1000 + i as u16);
        assert_eq!(r.get_pair(i), 0x1000 + i as u16);
    }
    assert_eq!(r.sp, 0x1003);
}

#[test]
fn flag_register_keeps_its_low_nibble_zero() {
    let mut r = Registers::new();
    for v in 0..=255u8 {
        r.set_f(v);
        assert_eq!(r.f(), v & 0xF0);
        assert_eq!(r.flags.zero, v & 0x80 != 0);
        assert_eq!(r.flags.subtract, v & 0x40 != 0);
        assert_eq!(r.flags.half_carry, v & 0x20 != 0);
        assert_eq!(r.flags.carry, v & 0x10 != 0);
    }
    r.set_af(0x12FF);
    assert_eq!(r.af(), 0x12F0);
    r.set_stack(3, 0x340F);
    assert_eq!(r.get_stack_pair(3), 0x3400);
    assert_eq!(Flags::cleared().to_byte(), 0x00);
    assert_eq!(Flags::from_byte(0xA5).to_byte(), 0xA0);
}

#[test]
fn conditions_by_number() {
    let mut r = Registers::new();
    r.set_f(0x80);
    assert!(!r.test(0) && r.test(1) && r.test(2) && !r.test(3));
    r.set_f(0x10);
    assert!(r.test(0) && !r.test(1) && !r.test(2) && r.test(3));
}
