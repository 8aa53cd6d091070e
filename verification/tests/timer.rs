use lr35902::mmu::Mmu;
use lr35902::timer::Timer;

fn run(mmu: &mut Mmu, cycles: u32) {
    let mut left = cycles;
    while left > 0 {
        let n = if left > 200 { 200 } else { left };
        mmu.advance(n as u8);
        left -= n;
    }
}

#[test]
fn divider_advances_every_256_cycles() {
    let mut t = Timer::new();
    assert_eq!(t.divider(), 0);
    for _ in 0..255 {
        t.tick();
    }
    assert_eq!(t.divider(), 0);
    t.tick();
    assert_eq!(t.divider(), 1);
    for _ in 0..256 * 255 {
        t.tick();
    }
    assert_eq!(t.divider(), 0);
}

#[test]
fn divider_runs_with_the_counter_stopped() {
    let mut mmu = Mmu::new();
    mmu.wb(0xFF07, 0x00);
    run(&mut mmu, 1000);
    assert_eq!(mmu.rb(0xFF04), 3);
    assert_eq!(mmu.rb(0xFF05), 0);
}

#[test]
fn any_write_to_the_divider_clears_it() {
    for v in [0x00u8, 0x01, 0x55, 0xFF] {
        let mut mmu = Mmu::new();
        run(&mut mmu, 5000);
        assert_eq!(mmu.rb(0xFF04), 19);
        mmu.wb(0xFF04, v);
        assert_eq!(mmu.rb(0xFF04), 0);
        run(&mut mmu, 255);
        assert_eq!(mmu.rb(0xFF04), 0);
        run(&mut mmu, 1);
        assert_eq!(mmu.rb(0xFF04), 1);
    }
}

#[test]
fn counter_overflow_reloads_one_cycle_late() {
    let mut mmu = Mmu::new();
    mmu.wb(0xFF0F, 0x00);
    mmu.wb(0xFF06, 0xF0);
    mmu.wb(0xFF07, 0x05);
    run(&mut mmu, 4095);
    assert_eq!(mmu.rb(0xFF05), 0xFF);
    assert_eq!(mmu.rb(0xFF0F) & 0x04, 0x00);
    run(&mut mmu, 1);
    assert_eq!(mmu.rb(0xFF05), 0x00);
    assert_eq!(mmu.rb(0xFF0F) & 0x04, 0x00);
    run(&mut mmu, 1);
    assert_eq!(mmu.rb(0xFF05), 0xF0);
    assert_eq!(mmu.rb(0xFF0F) & 0x04, 0x04);
    run(&mut mmu, 15);
    assert_eq!(mmu.rb(0xFF05), 0xF1);
}

#[test]
fn counter_overflows_again_from_the_reload_value() {
    let mut mmu = Mmu::new();
    mmu.wb(0xFF0F, 0x00);
    mmu.wb(0xFF06, 0xF0);
    mmu.wb(0xFF07, 0x05);
    run(&mut mmu, 4097);
    mmu.wb(0xFF0F, 0x00);
    run(&mut mmu, 16 * 16 - 2);
    assert_eq!(mmu.rb(0xFF05), 0xFF);
    run(&mut mmu, 1);
    assert_eq!(mmu.rb(0xFF05), 0x00);
    assert_eq!(mmu.rb(0xFF0F) & 0x04, 0x00);
    run(&mut mmu, 1);
    assert_eq!(mmu.rb(0xFF05), 0xF0);
    assert_eq!(mmu.rb(0xFF0F) & 0x04, 0x04);
}

#[test]
fn counter_frequencies() {
    for (control, period) in [(0x04u8, 1024u32), (0x05, 16), (0x06, 64), (0x07, 256)] {
        let mut t = Timer::new();
        t.control = control;
        assert_eq!(t.period() as u32, period);
        for _ in 0..period - 1 {
            assert!(!t.tick());
        }
        assert_eq!(t.counter, 0);
        t.tick();
        assert_eq!(t.counter, 1);
        for _ in 0..period * 9 {
            t.tick();
        }
        assert_eq!(t.counter, 10);
    }
}

#[test]
fn stopped_counter_does_not_count() {
    let mut t = Timer::new();
    t.control = 0x01;
    for _ in 0..10000 {
        assert!(!t.tick());
    }
    assert_eq!(t.counter, 0);
}

#[test]
fn writing_the_counter_gives_up_a_reload() {
    let mut t = Timer::new();
    t.control = 0x05;
    t.reload = 0x80;
    t.counter = 0xFF;
    for _ in 0..16 {
        t.tick();
    }
    assert_eq!(t.counter, 0);
    assert!(t.overflowed);
    t.write_counter(0x12);
    assert!(!t.tick());
    assert_eq!(t.counter, 0x12);
}

#[test]
fn timer_advance_is_repeated_tick() {
    let mut a = Timer::new();
    let mut b = Timer::new();
    a.control = 0x05;
    b.control = 0x05;
    a.counter = 0xFE;
    b.counter = 0xFE;
    let fired = a.advance(40);
    let mut any = false;
    for _ in 0..40 {
        any = b.tick() || any;
    }
    assert_eq!(a, b);
    assert_eq!(fired, any);
    assert!(fired);
}

#[test]
fn control_register_reads_upper_bits_set() {
    let mut mmu = Mmu::new();
    mmu.wb(0xFF07, 0x05);
    assert_eq!(mmu.rb(0xFF07), 0xFD);
    mmu.wb(0xFF07, 0xF8);
    assert_eq!(mmu.rb(0xFF07), 0xF8);
    mmu.wb(0xFF06, 0x77);
    assert_eq!(mmu.rb(0xFF06), 0x77);
}
