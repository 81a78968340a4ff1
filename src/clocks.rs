//! Registers of the clock generation blocks (the digital frequency
//! synthesizer and the PLL), each a 32-bit value with named bit fields.

use vstd::prelude::*;

verus! {

/// Bit `n` of `raw` is set.
pub open spec fn bit(raw: u32, n: u32) -> bool {
    (raw >> n) & 1u32 == 1u32
}

/// `raw` with bit `n` set to `v`.
pub open spec fn with_bit(raw: u32, n: u32, v: bool) -> u32 {
    if v {
        raw | (1u32 << n)
    } else {
        raw & !(1u32 << n)
    }
}

/// The field of `raw` that starts at bit `lo` and that `mask` covers.
pub open spec fn field(raw: u32, lo: u32, mask: u32) -> u32 {
    (raw >> lo) & mask
}

/// `raw` with the field at `lo` under `mask` set to `v`.
pub open spec fn with_field(raw: u32, lo: u32, mask: u32, v: u32) -> u32 {
    (raw & !(mask << lo)) | ((v & mask) << lo)
}

/// Setting a bit and reading it back gives the value set, and leaves every
/// other bit as it was.
pub proof fn lemma_with_bit_reads_back(raw: u32, n: u32, m: u32, v: bool)
    requires
        n < 32,
        m < 32,
    ensures
        bit(with_bit(raw, n, v), n) == v,
        m != n ==> bit(with_bit(raw, n, v), m) == bit(raw, m),
{
    if v {
        assert(((raw | (1u32 << n)) >> n) & 1u32 == 1u32) by (bit_vector)
            requires
                n < 32,
        ;
        assert(m != n ==> (((raw | (1u32 << n)) >> m) & 1u32 == 1u32) == ((raw >> m) & 1u32
            == 1u32)) by (bit_vector)
            requires
                n < 32,
                m < 32,
        ;
    } else {
        assert(((raw & !(1u32 << n)) >> n) & 1u32 == 0u32) by (bit_vector)
            requires
                n < 32,
        ;
        assert(m != n ==> (((raw & !(1u32 << n)) >> m) & 1u32 == 1u32) == ((raw >> m) & 1u32
            == 1u32)) by (bit_vector)
            requires
                n < 32,
                m < 32,
        ;
    }
}

fn get_bit(raw: u32, n: u32) -> (r: bool)
    requires
        n < 32,
    ensures
        r == bit(raw, n),
{
    (raw >> n) & 1u32 == 1u32
}

fn put_bit(raw: u32, n: u32, v: bool) -> (r: u32)
    requires
        n < 32,
    ensures
        r == with_bit(raw, n, v),
{
    if v {
        raw | (1u32 << n)
    } else {
        raw & !(1u32 << n)
    }
}

fn get_field(raw: u32, lo: u32, mask: u32) -> (r: u32)
    requires
        lo < 32,
    ensures
        r == field(raw, lo, mask),
        r <= mask,
{
    let r = (raw >> lo) & mask;
    assert(((raw >> lo) & mask) <= mask) by (bit_vector);
    r
}

fn put_field(raw: u32, lo: u32, mask: u32, v: u32) -> (r: u32)
    requires
        lo < 32,
    ensures
        r == with_field(raw, lo, mask, v),
{
    (raw & !(mask << lo)) | ((v & mask) << lo)
}

/// The DFS port status register: lock status of each output port.
#[derive(Clone, Copy, Debug, PartialEq, Eq, Structural)]
pub struct DfsPortSr {
    raw: u32,
}

impl DfsPortSr {
    /// The whole register.
    pub closed spec fn raw(self) -> u32 {
        self.raw
    }

    /// The register holding `value`.
    pub fn new_with_raw_value(value: u32) -> (r: DfsPortSr)
        ensures
            r.raw() == value,
    {
        DfsPortSr { raw: value }
    }

    /// The whole register.
    pub fn raw_value(self) -> (r: u32)
        ensures
            r == self.raw(),
    {
        self.raw
    }

    /// Port 5 is locked.
    pub fn p5_locked(self) -> (r: bool)
        ensures
            r == bit(self.raw(), 5),
    {
        get_bit(self.raw, 5)
    }

    /// Port 4 is locked.
    pub fn p4_locked(self) -> (r: bool)
        ensures
            r == bit(self.raw(), 4),
    {
        get_bit(self.raw, 4)
    }

    /// Port 3 is locked.
    pub fn p3_locked(self) -> (r: bool)
        ensures
            r == bit(self.raw(), 3),
    {
        get_bit(self.raw, 3)
    }

    /// Port 2 is locked.
    pub fn p2_locked(self) -> (r: bool)
        ensures
            r == bit(self.raw(), 2),
    {
        get_bit(self.raw, 2)
    }

    /// Port 1 is locked.
    pub fn p1_locked(self) -> (r: bool)
        ensures
            r == bit(self.raw(), 1),
    {
        get_bit(self.raw, 1)
    }

    /// Port 0 is locked.
    pub fn p0_locked(self) -> (r: bool)
        ensures
            r == bit(self.raw(), 0),
    {
        get_bit(self.raw, 0)
    }
}

/// The DFS control register.
#[derive(Clone, Copy, Debug, PartialEq, Eq, Structural)]
pub struct DfsCtl {
    raw: u32,
}

impl DfsCtl {
    /// The whole register.
    pub closed spec fn raw(self) -> u32 {
        self.raw
    }

    /// The register holding `value`.
    pub fn new_with_raw_value(value: u32) -> (r: DfsCtl)
        ensures
            r.raw() == value,
    {
        DfsCtl { raw: value }
    }

    /// The whole register.
    pub fn raw_value(self) -> (r: u32)
        ensures
            r == self.raw(),
    {
        self.raw
    }

    /// The phase generator is in reset, and no port can be enabled.
    pub fn in_reset(self) -> (r: bool)
        ensures
            r == bit(self.raw(), 1),
    {
        get_bit(self.raw, 1)
    }

    /// This register with bit 1 set to `v`.
    pub fn with_in_reset(self, v: bool) -> (r: DfsCtl)
        ensures
            r.raw() == with_bit(self.raw(), 1, v),
    {
        DfsCtl { raw: put_bit(self.raw, 1, v) }
    }
}

/// The DFS port reset register: which output ports are disabled.
#[derive(Clone, Copy, Debug, PartialEq, Eq, Structural)]
pub struct DfsPortReset {
    raw: u32,
}

impl DfsPortReset {
    /// The whole register.
    pub closed spec fn raw(self) -> u32 {
        self.raw
    }

    /// The register holding `value`.
    pub fn new_with_raw_value(value: u32) -> (r: DfsPortReset)
        ensures
            r.raw() == value,
    {
        DfsPortReset { raw: value }
    }

    /// The whole register.
    pub fn raw_value(self) -> (r: u32)
        ensures
            r == self.raw(),
    {
        self.raw
    }

    /// Port 5 is disabled.
    pub fn reset5(self) -> (r: bool)
        ensures
            r == bit(self.raw(), 5),
    {
        get_bit(self.raw, 5)
    }

    /// This register with bit 5 set to `v`.
    pub fn with_reset5(self, v: bool) -> (r: DfsPortReset)
        ensures
            r.raw() == with_bit(self.raw(), 5, v),
    {
        DfsPortReset { raw: put_bit(self.raw, 5, v) }
    }

    /// Port 4 is disabled.
    pub fn reset4(self) -> (r: bool)
        ensures
            r == bit(self.raw(), 4),
    {
        get_bit(self.raw, 4)
    }

    /// This register with bit 4 set to `v`.
    pub fn with_reset4(self, v: bool) -> (r: DfsPortReset)
        ensures
            r.raw() == with_bit(self.raw(), 4, v),
    {
        DfsPortReset { raw: put_bit(self.raw, 4, v) }
    }

    /// Port 3 is disabled.
    pub fn reset3(self) -> (r: bool)
        ensures
            r == bit(self.raw(), 3),
    {
        get_bit(self.raw, 3)
    }

    /// This register with bit 3 set to `v`.
    pub fn with_reset3(self, v: bool) -> (r: DfsPortReset)
        ensures
            r.raw() == with_bit(self.raw(), 3, v),
    {
        DfsPortReset { raw: put_bit(self.raw, 3, v) }
    }

    /// Port 2 is disabled.
    pub fn reset2(self) -> (r: bool)
        ensures
            r == bit(self.raw(), 2),
    {
        get_bit(self.raw, 2)
    }

    /// This register with bit 2 set to `v`.
    pub fn with_reset2(self, v: bool) -> (r: DfsPortReset)
        ensures
            r.raw() == with_bit(self.raw(), 2, v),
    {
        DfsPortReset { raw: put_bit(self.raw, 2, v) }
    }

    /// Port 1 is disabled.
    pub fn reset1(self) -> (r: bool)
        ensures
            r == bit(self.raw(), 1),
    {
        get_bit(self.raw, 1)
    }

    /// This register with bit 1 set to `v`.
    pub fn with_reset1(self, v: bool) -> (r: DfsPortReset)
        ensures
            r.raw() == with_bit(self.raw(), 1, v),
    {
        DfsPortReset { raw: put_bit(self.raw, 1, v) }
    }

    /// Port 0 is disabled.
    pub fn reset0(self) -> (r: bool)
        ensures
            r == bit(self.raw(), 0),
    {
        get_bit(self.raw, 0)
    }

    /// This register with bit 0 set to `v`.
    pub fn with_reset0(self, v: bool) -> (r: DfsPortReset)
        ensures
            r.raw() == with_bit(self.raw(), 0, v),
    {
        DfsPortReset { raw: put_bit(self.raw, 0, v) }
    }
}

/// The divider configuration of one DFS output port.
#[derive(Clone, Copy, Debug, PartialEq, Eq, Structural)]
pub struct DfsDvPort {
    raw: u32,
}

impl DfsDvPort {
    /// The whole register.
    pub closed spec fn raw(self) -> u32 {
        self.raw
    }

    /// The register holding `value`.
    pub fn new_with_raw_value(value: u32) -> (r: DfsDvPort)
        ensures
            r.raw() == value,
    {
        DfsDvPort { raw: value }
    }

    /// The whole register.
    pub fn raw_value(self) -> (r: u32)
        ensures
            r == self.raw(),
    {
        self.raw
    }

    /// Integer part of the division value (bits 8 to 15).
    pub fn mfi(self) -> (r: u8)
        ensures
            r == field(self.raw(), 8, 0xFF),
            r <= 0xFF,
    {
        get_field(self.raw, 8, 0xFF) as u8
    }

    /// This register with the field set to `v`.
    pub fn with_mfi(self, v: u8) -> (r: DfsDvPort)
        requires
            v <= 0xFF,
        ensures
            r.raw() == with_field(self.raw(), 8, 0xFF, v as u32),
    {
        DfsDvPort { raw: put_field(self.raw, 8, 0xFF, v as u32) }
    }

    /// Numerator of the fractional part of the division value (bits 0 to 5).
    pub fn mfn(self) -> (r: u8)
        ensures
            r == field(self.raw(), 0, 0x3F),
            r <= 0x3F,
    {
        get_field(self.raw, 0, 0x3F) as u8
    }

    /// This register with the field set to `v`.
    pub fn with_mfn(self, v: u8) -> (r: DfsDvPort)
        requires
            v <= 0x3F,
        ensures
            r.raw() == with_field(self.raw(), 0, 0x3F, v as u32),
    {
        DfsDvPort { raw: put_field(self.raw, 0, 0x3F, v as u32) }
    }
}

/// The PLL status register.
#[derive(Clone, Copy, Debug, PartialEq, Eq, Structural)]
pub struct PllDigSr {
    raw: u32,
}

impl PllDigSr {
    /// The whole register.
    pub closed spec fn raw(self) -> u32 {
        self.raw
    }

    /// The register holding `value`.
    pub fn new_with_raw_value(value: u32) -> (r: PllDigSr)
        ensures
            r.raw() == value,
    {
        PllDigSr { raw: value }
    }

    /// The whole register.
    pub fn raw_value(self) -> (r: u32)
        ensures
            r == self.raw(),
    {
        self.raw
    }

    /// Loss of lock was detected.
    pub fn lol(self) -> (r: bool)
        ensures
            r == bit(self.raw(), 3),
    {
        get_bit(self.raw, 3)
    }

    /// This register with bit 3 set to `v`.
    pub fn with_lol(self, v: bool) -> (r: PllDigSr)
        ensures
            r.raw() == with_bit(self.raw(), 3, v),
    {
        PllDigSr { raw: put_bit(self.raw, 3, v) }
    }

    /// The PLL is locked.
    pub fn locked(self) -> (r: bool)
        ensures
            r == bit(self.raw(), 2),
    {
        get_bit(self.raw, 2)
    }

    /// This register with bit 2 set to `v`.
    pub fn with_locked(self, v: bool) -> (r: PllDigSr)
        ensures
            r.raw() == with_bit(self.raw(), 2, v),
    {
        PllDigSr { raw: put_bit(self.raw, 2, v) }
    }
}

/// The PLL control register.
#[derive(Clone, Copy, Debug, PartialEq, Eq, Structural)]
pub struct PllDigCr {
    raw: u32,
}

impl PllDigCr {
    /// The whole register.
    pub closed spec fn raw(self) -> u32 {
        self.raw
    }

    /// The register holding `value`.
    pub fn new_with_raw_value(value: u32) -> (r: PllDigCr)
        ensures
            r.raw() == value,
    {
        PllDigCr { raw: value }
    }

    /// The whole register.
    pub fn raw_value(self) -> (r: u32)
        ensures
            r == self.raw(),
    {
        self.raw
    }

    /// The PLL is powered down.
    pub fn pd(self) -> (r: bool)
        ensures
            r == bit(self.raw(), 31),
    {
        get_bit(self.raw, 31)
    }

    /// This register with bit 31 set to `v`.
    pub fn with_pd(self, v: bool) -> (r: PllDigCr)
        ensures
            r.raw() == with_bit(self.raw(), 31, v),
    {
        PllDigCr { raw: put_bit(self.raw, 31, v) }
    }
}

/// The PLL divider register.
#[derive(Clone, Copy, Debug, PartialEq, Eq, Structural)]
pub struct PllDigDv {
    raw: u32,
}

impl PllDigDv {
    /// The whole register.
    pub closed spec fn raw(self) -> u32 {
        self.raw
    }

    /// The register holding `value`.
    pub fn new_with_raw_value(value: u32) -> (r: PllDigDv)
        ensures
            r.raw() == value,
    {
        PllDigDv { raw: value }
    }

    /// The whole register.
    pub fn raw_value(self) -> (r: u32)
        ensures
            r == self.raw(),
    {
        self.raw
    }

    /// Input clock predivider (bits 12 to 14).
    pub fn rdiv(self) -> (r: u8)
        ensures
            r == field(self.raw(), 12, 0x7),
            r <= 0x7,
    {
        get_field(self.raw, 12, 0x7) as u8
    }

    /// This register with the field set to `v`.
    pub fn with_rdiv(self, v: u8) -> (r: PllDigDv)
        requires
            v <= 0x7,
        ensures
            r.raw() == with_field(self.raw(), 12, 0x7, v as u32),
    {
        PllDigDv { raw: put_field(self.raw, 12, 0x7, v as u32) }
    }

    /// Integer part of the loop divider (bits 0 to 7).
    pub fn mfi(self) -> (r: u8)
        ensures
            r == field(self.raw(), 0, 0xFF),
            r <= 0xFF,
    {
        get_field(self.raw, 0, 0xFF) as u8
    }

    /// This register with the field set to `v`.
    pub fn with_mfi(self, v: u8) -> (r: PllDigDv)
        requires
            v <= 0xFF,
        ensures
            r.raw() == with_field(self.raw(), 0, 0xFF, v as u32),
    {
        PllDigDv { raw: put_field(self.raw, 0, 0xFF, v as u32) }
    }
}

/// The PLL fractional divider register.
#[derive(Clone, Copy, Debug, PartialEq, Eq, Structural)]
pub struct PllDigFd {
    raw: u32,
}

impl PllDigFd {
    /// The whole register.
    pub closed spec fn raw(self) -> u32 {
        self.raw
    }

    /// The register holding `value`.
    pub fn new_with_raw_value(value: u32) -> (r: PllDigFd)
        ensures
            r.raw() == value,
    {
        PllDigFd { raw: value }
    }

    /// The whole register.
    pub fn raw_value(self) -> (r: u32)
        ensures
            r == self.raw(),
    {
        self.raw
    }

    /// Sigma-delta modulation is enabled.
    pub fn sdmen(self) -> (r: bool)
        ensures
            r == bit(self.raw(), 30),
    {
        get_bit(self.raw, 30)
    }

    /// This register with bit 30 set to `v`.
    pub fn with_sdmen(self, v: bool) -> (r: PllDigFd)
        ensures
            r.raw() == with_bit(self.raw(), 30, v),
    {
        PllDigFd { raw: put_bit(self.raw, 30, v) }
    }

    /// Numerator of the fractional loop divider (bits 0 to 14).
    pub fn mfn(self) -> (r: u16)
        ensures
            r == field(self.raw(), 0, 0x7FFF),
            r <= 0x7FFF,
    {
        get_field(self.raw, 0, 0x7FFF) as u16
    }

    /// This register with the field set to `v`.
    pub fn with_mfn(self, v: u16) -> (r: PllDigFd)
        requires
            v <= 0x7FFF,
        ensures
            r.raw() == with_field(self.raw(), 0, 0x7FFF, v as u32),
    {
        PllDigFd { raw: put_field(self.raw, 0, 0x7FFF, v as u32) }
    }
}

/// The PLL clock multiplexer: selects the reference clock.
#[derive(Clone, Copy, Debug, PartialEq, Eq, Structural)]
pub struct PllDigClkMux {
    raw: u32,
}

impl PllDigClkMux {
    /// The whole register.
    pub closed spec fn raw(self) -> u32 {
        self.raw
    }

    /// The register holding `value`.
    pub fn new_with_raw_value(value: u32) -> (r: PllDigClkMux)
        ensures
            r.raw() == value,
    {
        PllDigClkMux { raw: value }
    }

    /// The whole register.
    pub fn raw_value(self) -> (r: u32)
        ensures
            r == self.raw(),
    {
        self.raw
    }

    /// The external fast crystal oscillator is selected; otherwise the fast internal RC oscillator.
    pub fn select_fxosc(self) -> (r: bool)
        ensures
            r == bit(self.raw(), 0),
    {
        get_bit(self.raw, 0)
    }

    /// This register with bit 0 set to `v`.
    pub fn with_select_fxosc(self, v: bool) -> (r: PllDigClkMux)
        ensures
            r.raw() == with_bit(self.raw(), 0, v),
    {
        PllDigClkMux { raw: put_bit(self.raw, 0, v) }
    }
}

} // verus!
