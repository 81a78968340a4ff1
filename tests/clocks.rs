use s32z2_irq::clocks::{
    DfsCtl, DfsDvPort, DfsPortReset, DfsPortSr, PllDigClkMux, PllDigCr, PllDigDv, PllDigFd,
    PllDigSr,
};

#[test]
fn port_status_bits() {
    let sr = DfsPortSr::new_with_raw_value(0b10_0001);
    assert!(sr.p0_locked());
    assert!(sr.p5_locked());
    assert!(!sr.p1_locked() && !sr.p2_locked() && !sr.p3_locked() && !sr.p4_locked());
    assert_eq!(sr.raw_value(), 0b10_0001);
}

#[test]
fn control_and_reset_bits() {
    let ctl = DfsCtl::new_with_raw_value(0).with_in_reset(true);
    assert_eq!(ctl.raw_value(), 0b10);
    assert!(ctl.in_reset());
    assert_eq!(ctl.with_in_reset(false).raw_value(), 0);

    let r = DfsPortReset::new_with_raw_value(0x3f).with_reset2(false);
    assert_eq!(r.raw_value(), 0x3b);
    assert!(!r.reset2() && r.reset0() && r.reset5());
    assert_eq!(r.with_reset4(false).with_reset1(false).raw_value(), 0x29);
    assert!(r.with_reset3(true).reset3());
}

#[test]
fn divider_fields() {
    let dv = DfsDvPort::new_with_raw_value(0x0000_1a25);
    assert_eq!(dv.mfi(), 0x1a);
    assert_eq!(dv.mfn(), 0x25);
    let dv2 = dv.with_mfi(0x03).with_mfn(0x3f);
    assert_eq!(dv2.raw_value(), 0x0000_033f);

    let pdv = PllDigDv::new_with_raw_value(0x0000_5032);
    assert_eq!(pdv.rdiv(), 5);
    assert_eq!(pdv.mfi(), 0x32);
    assert_eq!(pdv.with_rdiv(1).raw_value(), 0x0000_1032);

    let fd = PllDigFd::new_with_raw_value(0x4000_7fff);
    assert!(fd.sdmen());
    assert_eq!(fd.mfn(), 0x7fff);
    assert_eq!(fd.with_sdmen(false).with_mfn(2).raw_value(), 2);
}

#[test]
fn pll_status_control_and_mux() {
    let sr = PllDigSr::new_with_raw_value(0b0100);
    assert!(sr.locked() && !sr.lol());
    assert_eq!(sr.with_lol(true).raw_value(), 0b1100);
    let cr = PllDigCr::new_with_raw_value(0x8000_0000);
    assert!(cr.pd());
    assert_eq!(cr.with_pd(false).raw_value(), 0);
    let mux = PllDigClkMux::new_with_raw_value(1);
    assert!(mux.select_fxosc());
    assert!(!mux.with_select_fxosc(false).select_fxosc());
}
