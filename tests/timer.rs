use gameboy::timer::{Frequency, Timer};

#[test]
fn divider_always_counts_and_wraps() {
    let mut t = Timer::new();
    assert!(!t.update(255));
    assert_eq!(t.divider, 255);
    t.divider = 0xFFFF;
    t.update(2);
    assert_eq!(t.divider, 1);
}

#[test]
fn disabled_counter_stays() {
    let mut t = Timer::new();
    t.tac = 0b011;
    assert!(!t.update(200));
    assert_eq!(t.tima, 0);
}

#[test]
fn counter_steps_per_threshold() {
    let mut t = Timer::new();
    t.tac = 0b101;
    assert!(!t.update(40));
    assert_eq!(t.tima, 2);
    assert_eq!(t.internal_cycle, 8);
    assert!(!t.update(8));
    assert_eq!(t.tima, 3);
    assert_eq!(t.internal_cycle, 0);
}

#[test]
fn counter_overflow_reloads_and_interrupts() {
    let mut t = Timer::new();
    t.tac = 0b110;
    t.tima = 0xFF;
    t.tma = 0x10;
    assert!(t.update(64));
    assert_eq!(t.tima, 0x10);
    let mut slow = Timer::new();
    slow.tac = 0b100;
    for _ in 0..4 {
        assert!(!slow.update(255));
    }
    assert_eq!(slow.tima, 0);
    slow.update(4);
    assert_eq!(slow.tima, 1);
}

#[test]
fn frequency_from_low_bits() {
    assert_eq!(Frequency::from(0), Frequency::F4096);
    assert_eq!(Frequency::from(1), Frequency::F262144);
    assert_eq!(Frequency::from(6), Frequency::F65536);
    assert_eq!(Frequency::from(0xFF), Frequency::F16384);
}
