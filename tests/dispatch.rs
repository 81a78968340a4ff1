use s32z2_irq::dispatch::{
    classify, handle_timer_irq, irq_handler, raise_timer_line, rearm_delta, s32z2_main,
    IrqSource,
};
use s32z2_irq::gic::{Gic, Group, InterruptGroup, IDLE_PRIORITY};
use s32z2_irq::intid::IntId;
use s32z2_irq::timer::{Timer, TimerKind};

fn ready_gic(spi_count: usize) -> Gic {
    let mut gic = Gic::new(1, spi_count, 0);
    gic.setup(0).unwrap();
    gic.set_priority_mask(0xff);
    gic
}

#[test]
fn drain_loop_acknowledges_queue_plus_one() {
    let mut gic = ready_gic(8);
    let queue = [IntId::sgi(0), IntId::sgi(9), IntId::ppi(4), IntId::spi(2), IntId::spi(7)];
    for (n, id) in queue.iter().enumerate() {
        let cpu = if id.is_private() { Some(0) } else { None };
        gic.set_interrupt_priority(*id, cpu, 0x10 + n as u8).unwrap();
        gic.set_group(*id, cpu, Group::Group1NS).unwrap();
        gic.enable_interrupt(*id, cpu, true).unwrap();
        gic.set_pending(*id, cpu, true).unwrap();
    }
    let mut timer = Timer::new(TimerKind::Virtual, 8_000_000);
    let report = irq_handler(&mut gic, &mut timer);
    assert_eq!(report.acks, queue.len() + 1);
    assert_eq!(report.ends, queue.len());
    assert_eq!(report.handled, queue.to_vec());
    assert_eq!(report.timer_runs, 0);
    assert_eq!(report.sgi_runs, 0);
    assert_eq!(gic.running_priority(), IDLE_PRIORITY);
    assert_eq!(gic.get_and_acknowledge_interrupt(InterruptGroup::Group1), None);
}

#[test]
fn drain_loop_with_empty_queue() {
    let mut gic = ready_gic(0);
    let mut timer = Timer::new(TimerKind::Virtual, 8_000_000);
    let report = irq_handler(&mut gic, &mut timer);
    assert_eq!(report.acks, 1);
    assert_eq!(report.ends, 0);
    assert!(report.handled.is_empty());
}

#[test]
fn unknown_sources_are_acknowledged_and_ended() {
    let mut gic = ready_gic(4);
    let id = IntId::spi(3);
    gic.set_interrupt_priority(id, None, 0x20).unwrap();
    gic.set_group(id, None, Group::Group1NS).unwrap();
    gic.enable_interrupt(id, None, true).unwrap();
    gic.set_pending(id, None, true).unwrap();
    let mut timer = Timer::new(TimerKind::Virtual, 8_000_000);
    let report = irq_handler(&mut gic, &mut timer);
    assert_eq!(report.handled, vec![id]);
    assert_eq!(classify(id), IrqSource::Unknown);
    let st = gic.interrupt_state(id, None).unwrap();
    assert!(!st.active && !st.pending);
}

#[test]
fn classify_by_id() {
    assert_eq!(classify(IntId::ppi(11)), IrqSource::Timer);
    assert_eq!(classify(IntId::sgi(3)), IrqSource::Sgi);
    assert_eq!(classify(IntId::sgi(4)), IrqSource::Unknown);
}

#[test]
fn demo_sgi_is_dispatched_once() {
    let mut gic = Gic::new(1, 32, 0);
    let mut timer = Timer::new(TimerKind::Virtual, 8_000_000);
    assert_eq!(s32z2_main(&mut gic, &mut timer), Ok(()));
    let sgi = gic.interrupt_state(IntId::sgi(3), Some(0)).unwrap();
    assert_eq!(sgi.priority, 0x31);
    assert_eq!(sgi.group, Group::Group1NS);
    assert!(sgi.enabled && sgi.pending);
    assert_eq!(gic.get_priority_mask(), 0x80);

    let report = irq_handler(&mut gic, &mut timer);
    assert_eq!(report.handled, vec![IntId::sgi(3)]);
    assert_eq!(report.sgi_runs, 1);
    assert_eq!(report.timer_runs, 0);
    assert_eq!(report.acks, 2);
    assert_eq!(report.ends, 1);
    assert_eq!(gic.running_priority(), IDLE_PRIORITY);
    assert_eq!(gic.active_depth(), 0);
}

#[test]
fn demo_timer_fires_after_one_second_and_rearms() {
    let mut gic = Gic::new(1, 32, 0);
    let mut timer = Timer::new(TimerKind::Virtual, 8_000_000);
    s32z2_main(&mut gic, &mut timer).unwrap();
    let _ = irq_handler(&mut gic, &mut timer);
    assert_eq!(timer.counter_compare(), 8_000_000);

    timer.advance(7_999_999);
    assert!(!timer.interrupt_status());
    raise_timer_line(&mut gic, &timer);
    let idle = irq_handler(&mut gic, &mut timer);
    assert!(idle.handled.is_empty());

    timer.advance(1);
    assert!(timer.interrupt_status());
    raise_timer_line(&mut gic, &timer);
    let report = irq_handler(&mut gic, &mut timer);
    assert_eq!(report.handled, vec![IntId::ppi(11)]);
    assert_eq!(report.timer_runs, 1);
    assert!(!timer.interrupt_status());
    assert_eq!(timer.counter_compare(), 16_000_000);

    timer.advance(7_999_999);
    assert!(!timer.interrupt_status());
    timer.advance(1);
    assert!(timer.interrupt_status());
}

#[test]
fn rearm_after_overshoot_keeps_period() {
    let mut timer = Timer::new(TimerKind::Virtual, 8_000_000);
    timer.enable(true);
    timer.countdown_set(8_000_000);
    timer.advance(8_000_016);
    assert!(timer.interrupt_status());
    assert_eq!(rearm_delta(timer.countdown(), 8_000_000), 7_999_984);
    handle_timer_irq(&mut timer);
    assert_eq!(timer.counter_compare(), 16_000_000);
    assert!(!timer.interrupt_status());
}
