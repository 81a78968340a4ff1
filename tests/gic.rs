use s32z2_irq::gic::{
    Gic, GicError, Group, InterruptGroup, SecureIntGroup, SgiTarget, SgiTargetGroup, IDLE_PRIORITY,
};
use s32z2_irq::intid::IntId;

fn ready_gic(cpu_count: usize, spi_count: usize) -> Gic {
    let mut gic = Gic::new(cpu_count, spi_count, 0);
    gic.setup(0).unwrap();
    gic.set_priority_mask(0xff);
    gic
}

fn configure(gic: &mut Gic, id: IntId, cpu: Option<usize>, priority: u8) {
    gic.set_interrupt_priority(id, cpu, priority).unwrap();
    gic.set_group(id, cpu, Group::Group1NS).unwrap();
    gic.enable_interrupt(id, cpu, true).unwrap();
}

#[test]
fn private_interrupt_needs_valid_core() {
    let mut gic = Gic::new(2, 8, 0);
    let sgi = IntId::sgi(1);
    assert_eq!(gic.set_interrupt_priority(sgi, Some(0), 0x10), Ok(()));
    assert_eq!(gic.set_interrupt_priority(sgi, Some(1), 0x10), Ok(()));
    assert_eq!(
        gic.set_interrupt_priority(sgi, Some(2), 0x10),
        Err(GicError::InvalidRedistributorIndex(2))
    );
    assert_eq!(gic.set_group(sgi, None, Group::Group1NS), Err(GicError::MissingCoreIndex));
    assert_eq!(
        gic.enable_interrupt(IntId::ppi(0), Some(7), true),
        Err(GicError::InvalidRedistributorIndex(7))
    );
}

#[test]
fn shared_interrupt_ignores_core_and_checks_count() {
    let mut gic = Gic::new(1, 8, 0);
    assert_eq!(gic.set_interrupt_priority(IntId::spi(7), None, 0x20), Ok(()));
    assert_eq!(gic.set_interrupt_priority(IntId::spi(7), Some(5), 0x20), Ok(()));
    let spi8 = IntId::spi(8);
    assert_eq!(gic.set_interrupt_priority(spi8, None, 0x20), Err(GicError::InvalidGicdIntid(spi8)));
    let state = gic.interrupt_state(IntId::spi(7), None).unwrap();
    assert_eq!(state.priority, 0x20);
}

#[test]
fn send_sgi_rejects_non_sgi() {
    let mut gic = ready_gic(1, 0);
    let ppi = IntId::ppi(0);
    assert_eq!(
        gic.send_sgi(ppi, SgiTarget::All, SgiTargetGroup::CurrentGroup1),
        Err(GicError::InvalidGicCpuIntid(ppi))
    );
    assert_eq!(gic.send_sgi(IntId::sgi(15), SgiTarget::All, SgiTargetGroup::CurrentGroup1), Ok(()));
}

#[test]
fn send_sgi_reaches_listed_cores_in_matching_group() {
    let mut gic = ready_gic(3, 0);
    let sgi = IntId::sgi(2);
    for c in 0..3 {
        configure(&mut gic, sgi, Some(c), 0x40);
    }
    let list = SgiTarget::List { affinity3: 0, affinity2: 0, affinity1: 0, target_list: 0b110 };
    gic.send_sgi(sgi, list, SgiTargetGroup::CurrentGroup1).unwrap();
    assert!(!gic.interrupt_state(sgi, Some(0)).unwrap().pending);
    assert!(gic.interrupt_state(sgi, Some(1)).unwrap().pending);
    assert!(gic.interrupt_state(sgi, Some(2)).unwrap().pending);

    let other = IntId::sgi(4);
    configure(&mut gic, other, Some(1), 0x40);
    gic.send_sgi(other, SgiTarget::All, SgiTargetGroup::Group0).unwrap();
    assert!(!gic.interrupt_state(other, Some(1)).unwrap().pending);
    gic.send_sgi(other, SgiTarget::All, SgiTargetGroup::CurrentGroup1).unwrap();
    assert!(gic.interrupt_state(other, Some(1)).unwrap().pending);
    assert!(!gic.interrupt_state(other, Some(0)).unwrap().pending);
}

#[test]
fn acknowledge_takes_most_urgent_then_lowest_id() {
    let mut gic = ready_gic(1, 4);
    configure(&mut gic, IntId::spi(1), None, 0x50);
    configure(&mut gic, IntId::sgi(5), Some(0), 0x30);
    configure(&mut gic, IntId::sgi(9), Some(0), 0x30);
    for id in [IntId::spi(1), IntId::sgi(5), IntId::sgi(9)] {
        gic.set_pending(id, Some(0), true).unwrap();
    }
    let first = gic.get_and_acknowledge_interrupt(InterruptGroup::Group1);
    assert_eq!(first, Some(IntId::sgi(5)));
    assert_eq!(gic.running_priority(), 0x30);
    // equal priority does not preempt
    assert_eq!(gic.get_and_acknowledge_interrupt(InterruptGroup::Group1), None);
    gic.end_interrupt(IntId::sgi(5), InterruptGroup::Group1);
    assert_eq!(gic.running_priority(), IDLE_PRIORITY);
    assert_eq!(gic.get_and_acknowledge_interrupt(InterruptGroup::Group1), Some(IntId::sgi(9)));
    gic.end_interrupt(IntId::sgi(9), InterruptGroup::Group1);
    assert_eq!(gic.get_and_acknowledge_interrupt(InterruptGroup::Group1), Some(IntId::spi(1)));
    gic.end_interrupt(IntId::spi(1), InterruptGroup::Group1);
    assert_eq!(gic.get_and_acknowledge_interrupt(InterruptGroup::Group1), None);
}

#[test]
fn priority_mask_filters_numerically_higher() {
    let mut gic = ready_gic(1, 0);
    let sgi = IntId::sgi(0);
    configure(&mut gic, sgi, Some(0), 0x80);
    gic.set_pending(sgi, Some(0), true).unwrap();
    gic.set_priority_mask(0x80);
    assert_eq!(gic.get_priority_mask(), 0x80);
    assert_eq!(gic.get_and_acknowledge_interrupt(InterruptGroup::Group1), None);
    gic.set_priority_mask(0x81);
    assert_eq!(gic.get_and_acknowledge_interrupt(InterruptGroup::Group1), Some(sgi));
}

#[test]
fn group_mismatch_is_not_acknowledged() {
    let mut gic = ready_gic(1, 0);
    let sgi = IntId::sgi(0);
    gic.set_interrupt_priority(sgi, Some(0), 0x10).unwrap();
    gic.set_group(sgi, Some(0), Group::Secure(SecureIntGroup::Group0)).unwrap();
    gic.enable_interrupt(sgi, Some(0), true).unwrap();
    gic.set_pending(sgi, Some(0), true).unwrap();
    assert_eq!(gic.get_and_acknowledge_interrupt(InterruptGroup::Group1), None);
    assert_eq!(gic.get_and_acknowledge_interrupt(InterruptGroup::Group0), None);
    gic.enable_group0(true);
    assert_eq!(gic.get_and_acknowledge_interrupt(InterruptGroup::Group0), Some(sgi));
}

#[test]
fn nothing_acknowledged_before_setup() {
    let mut gic = Gic::new(1, 0, 0);
    gic.set_priority_mask(0xff);
    let sgi = IntId::sgi(0);
    configure(&mut gic, sgi, Some(0), 0x10);
    gic.set_pending(sgi, Some(0), true).unwrap();
    assert!(!gic.is_awake(0));
    assert_eq!(gic.get_and_acknowledge_interrupt(InterruptGroup::Group1), None);
    assert_eq!(gic.setup(0), Ok(()));
    assert_eq!(gic.setup(1), Err(GicError::InvalidRedistributorIndex(1)));
    assert!(gic.is_awake(0));
    assert_eq!(gic.get_and_acknowledge_interrupt(InterruptGroup::Group1), Some(sgi));
}

#[test]
fn nested_acknowledges_end_in_reverse_restore_priority() {
    let mut gic = ready_gic(1, 0);
    let ids = [IntId::sgi(1), IntId::sgi(2), IntId::sgi(3)];
    let prios = [0x60u8, 0x40, 0x20];
    for (id, p) in ids.iter().zip(prios.iter()) {
        configure(&mut gic, *id, Some(0), *p);
    }
    let before = gic.running_priority();
    assert_eq!(before, IDLE_PRIORITY);
    for (id, p) in ids.iter().zip(prios.iter()) {
        gic.set_pending(*id, Some(0), true).unwrap();
        assert_eq!(gic.get_and_acknowledge_interrupt(InterruptGroup::Group1), Some(*id));
        assert_eq!(gic.running_priority(), *p as u16);
    }
    assert_eq!(gic.active_depth(), 3);
    gic.end_interrupt(ids[2], InterruptGroup::Group1);
    assert_eq!(gic.running_priority(), 0x40);
    gic.end_interrupt(ids[1], InterruptGroup::Group1);
    assert_eq!(gic.running_priority(), 0x60);
    gic.end_interrupt(ids[0], InterruptGroup::Group1);
    assert_eq!(gic.running_priority(), before);
    assert_eq!(gic.active_depth(), 0);
}

#[test]
fn single_acknowledge_and_end_restores_priority() {
    let mut gic = ready_gic(1, 0);
    let sgi = IntId::sgi(7);
    configure(&mut gic, sgi, Some(0), 0x10);
    gic.set_pending(sgi, Some(0), true).unwrap();
    assert_eq!(gic.get_and_acknowledge_interrupt(InterruptGroup::Group1), Some(sgi));
    assert!(gic.interrupt_state(sgi, Some(0)).unwrap().active);
    gic.end_interrupt(sgi, InterruptGroup::Group1);
    assert_eq!(gic.running_priority(), IDLE_PRIORITY);
    let st = gic.interrupt_state(sgi, Some(0)).unwrap();
    assert!(!st.active && !st.pending);
}
