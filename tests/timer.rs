use s32z2_irq::timer::{Timer, TimerKind};

#[test]
fn status_is_enabled_unmasked_and_reached() {
    for enabled in [false, true] {
        for masked in [false, true] {
            for counter in [0u64, 5, 9, 10, 11, u64::MAX] {
                for compare in [0u64, 10, u64::MAX] {
                    let mut t = Timer::new(TimerKind::Physical, 1000);
                    t.advance(counter);
                    t.counter_compare_set(compare);
                    t.enable(enabled);
                    t.interrupt_mask(masked);
                    assert_eq!(
                        t.interrupt_status(),
                        enabled && !masked && counter >= compare,
                        "enabled={} masked={} counter={} compare={}",
                        enabled,
                        masked,
                        counter,
                        compare
                    );
                }
            }
        }
    }
}

#[test]
fn countdown_reads_back_what_was_set() {
    for start in [0u64, 12345, u64::MAX - 10] {
        for d in [0u32, 1, 1000, 0x8000_0000, u32::MAX] {
            let mut t = Timer::new(TimerKind::Virtual, 8_000_000);
            t.advance(start);
            t.countdown_set(d);
            assert_eq!(t.countdown(), d);
            let via_countdown = t.counter_compare();
            let mut u = Timer::new(TimerKind::Virtual, 8_000_000);
            u.advance(start);
            u.counter_compare_set(u.counter().wrapping_add(d as u64));
            assert_eq!(u.counter_compare(), via_countdown);
        }
    }
}

#[test]
fn countdown_goes_negative_after_match() {
    let mut t = Timer::new(TimerKind::Virtual, 8_000_000);
    t.countdown_set(100);
    t.advance(116);
    assert_eq!(t.countdown() as i32, -16);
}

#[test]
fn countdown_set_is_compare_from_now() {
    let mut t = Timer::new(TimerKind::Physical, 8_000_000);
    t.advance(500);
    t.countdown_set(250);
    assert_eq!(t.counter_compare(), 750);
    assert_eq!(t.counter(), 500);
}

#[test]
fn delay_ms_waits_frequency_times_ms_over_1000() {
    let mut t = Timer::new(TimerKind::Physical, 8_000_000);
    t.delay_ms(1);
    assert_eq!(t.counter(), 8_000);
    assert!(!t.enabled());
    t.enable(true);
    t.delay_ms(2);
    assert_eq!(t.counter(), 24_000);
    assert_eq!(t.counter_compare(), 24_000);
    assert!(t.enabled());
}

#[test]
fn delay_us_waits_frequency_times_us_over_million() {
    let mut t = Timer::new(TimerKind::Virtual, 8_000_000);
    t.delay_us(3);
    assert_eq!(t.counter(), 24);
    t.delay_ticks(7);
    assert_eq!(t.counter(), 31);
}

#[test]
fn new_timer_reset_state() {
    let t = Timer::new(TimerKind::Virtual, 8_000_000);
    assert_eq!(t.kind(), TimerKind::Virtual);
    assert_eq!(t.frequency_hz(), 8_000_000);
    assert_eq!(t.counter(), 0);
    assert!(!t.enabled());
    assert!(!t.interrupt_masked());
    assert!(!t.interrupt_status());
}

#[test]
fn counter_wraps_at_64_bits() {
    let mut t = Timer::new(TimerKind::Physical, 1);
    t.advance(u64::MAX);
    t.advance(2);
    assert_eq!(t.counter(), 1);
}
