use gameboy::timer::Timer;

#[test]
fn timer_after_reset() {
    let t = Timer::new();
    assert_eq!(t.div, 0xAB);
    assert_eq!(t.tima, 0);
    assert_eq!(t.tma, 0);
    assert_eq!(t.tac, 0xF8);
    assert_eq!(t.running_div, 0);
    assert_eq!(t.running_counter, 0);
    assert!(!t.enabled());
    assert_eq!(t.step_size(), 256);
}

#[test]
fn tac_selects_the_step() {
    let mut t = Timer::new();
    for (tac, step, on) in [
        (0x00u8, 256u32, false),
        (0x01, 4, false),
        (0x02, 16, false),
        (0x03, 64, false),
        (0x04, 256, true),
        (0x05, 4, true),
        (0x06, 16, true),
        (0x07, 64, true),
        (0xFB, 64, false),
        (0xFD, 4, true),
    ] {
        t.tac = tac;
        assert_eq!(t.step_size(), step);
        assert_eq!(t.enabled(), on);
    }
}

#[test]
fn div_counts_every_64_cycles() {
    let mut t = Timer::new();
    assert!(!t.advance(63));
    assert_eq!((t.div, t.running_div), (0xAB, 63));
    t.advance(1);
    assert_eq!((t.div, t.running_div), (0xAC, 0));
    t.advance(200);
    assert_eq!((t.div, t.running_div), (0xAF, 8));
    t.advance(64 * 0x51 - 8);
    assert_eq!((t.div, t.running_div), (0x00, 0));
    assert_eq!(t.tima, 0);
    assert_eq!(t.running_counter, 0);
}

#[test]
fn div_wraps_on_a_large_delta() {
    let mut t = Timer::new();
    t.div = 0;
    t.running_div = 5;
    t.advance(64 * 300 + 10);
    assert_eq!(t.div, (300 % 256) as u8);
    assert_eq!(t.running_div, 15);
}

#[test]
fn tima_counts_at_its_step_while_enabled() {
    let mut t = Timer::new();
    t.tac = 0x06;
    assert!(!t.advance(15));
    assert_eq!((t.tima, t.running_counter), (0, 15));
    assert!(!t.advance(1));
    assert_eq!((t.tima, t.running_counter), (1, 0));
    assert!(!t.advance(16 * 5 + 3));
    assert_eq!((t.tima, t.running_counter), (6, 3));
}

#[test]
fn tima_reloads_from_tma_on_overflow() {
    let mut t = Timer::new();
    t.tac = 0x05;
    t.tima = 0xFF;
    t.tma = 0x23;
    assert!(t.advance(4));
    assert_eq!(t.tima, 0x23);
    assert_eq!(t.running_counter, 0);
    assert!(!t.advance(4));
    assert_eq!(t.tima, 0x24);
}

#[test]
fn tima_may_overflow_more_than_once() {
    let mut t = Timer::new();
    t.tac = 0x05;
    t.tima = 0xFE;
    t.tma = 0xFE;
    // Seven ticks: FE FF FE FF FE FF FE FF.
    assert!(t.advance(4 * 7 + 2));
    assert_eq!(t.tima, 0xFF);
    assert_eq!(t.running_counter, 2);
}

#[test]
fn a_stopped_tima_keeps_its_accumulator() {
    let mut t = Timer::new();
    t.tac = 0x05;
    t.advance(3);
    assert_eq!((t.tima, t.running_counter), (0, 3));
    t.tac = 0x01;
    assert!(!t.advance(100));
    assert_eq!((t.tima, t.running_counter), (0, 3));
    t.tac = 0x05;
    t.advance(1);
    assert_eq!((t.tima, t.running_counter), (1, 0));
}
