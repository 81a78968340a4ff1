//! Interrupt identifiers and their categories.

use vstd::prelude::*;

verus! {

/// Number of software-generated interrupts (ids `0..16`).
pub const SGI_COUNT: u32 = 16;

/// Number of private peripheral interrupts (ids `16..32`).
pub const PPI_COUNT: u32 = 16;

/// The first private peripheral interrupt id.
pub const PPI_START: u32 = 16;

/// The first shared peripheral interrupt id.
pub const SPI_START: u32 = 32;

/// The first special (reserved) id; shared peripheral interrupts end below it.
pub const SPECIAL_START: u32 = 1020;

/// Most shared peripheral interrupts a controller may implement.
pub const MAX_SPI_COUNT: u32 = 988;

/// The category of an interrupt identifier.
#[derive(Clone, Copy, Debug, PartialEq, Eq, Structural)]
pub enum IntIdKind {
    /// Software-generated interrupt.
    Sgi,
    /// Private peripheral interrupt.
    Ppi,
    /// Shared peripheral interrupt.
    Spi,
}

/// An interrupt identifier: a raw number below 1020, whose category follows
/// from its range.
#[derive(Clone, Copy, Debug, PartialEq, Eq, Structural)]
pub struct IntId {
    raw: u32,
}

impl IntId {
    #[verifier::type_invariant]
    spec fn inv(self) -> bool {
        self.raw < SPECIAL_START
    }
}

/// The category of the raw id `raw`.
pub open spec fn kind_of(raw: u32) -> IntIdKind {
    if raw < PPI_START {
        IntIdKind::Sgi
    } else if raw < SPI_START {
        IntIdKind::Ppi
    } else {
        IntIdKind::Spi
    }
}

impl IntId {
    /// Its raw number.
    pub closed spec fn id(self) -> u32 {
        self.raw
    }

    /// Every identifier lies below the special range.
    pub open spec fn wf(self) -> bool {
        self.id() < SPECIAL_START
    }

    /// Its category.
    pub open spec fn kind(self) -> IntIdKind {
        kind_of(self.id())
    }

    /// Private to one core: an SGI or a PPI.
    pub open spec fn private(self) -> bool {
        self.id() < SPI_START
    }

    /// The software-generated interrupt `n`.
    pub fn sgi(n: u32) -> (r: IntId)
        requires
            n < SGI_COUNT,
        ensures
            r.id() == n,
            r.wf(),
            r.kind() == IntIdKind::Sgi,
    {
        IntId { raw: n }
    }

    /// The private peripheral interrupt `n`, which is id `16 + n`.
    pub fn ppi(n: u32) -> (r: IntId)
        requires
            n < PPI_COUNT,
        ensures
            r.id() == PPI_START + n,
            r.wf(),
            r.kind() == IntIdKind::Ppi,
    {
        IntId { raw: PPI_START + n }
    }

    /// The shared peripheral interrupt `n`, which is id `32 + n`.
    pub fn spi(n: u32) -> (r: IntId)
        requires
            n < MAX_SPI_COUNT,
        ensures
            r.id() == SPI_START + n,
            r.wf(),
            r.kind() == IntIdKind::Spi,
    {
        IntId { raw: SPI_START + n }
    }

    /// The software-generated interrupt `n`, or `None` when `n` is not below 16.
    pub fn checked_sgi(n: u32) -> (r: Option<IntId>)
        ensures
            n < SGI_COUNT <==> r.is_some(),
            r matches Some(i) ==> i.id() == n && i.wf() && i.kind() == IntIdKind::Sgi,
    {
        if n < SGI_COUNT {
            Some(IntId::sgi(n))
        } else {
            None
        }
    }

    /// The private peripheral interrupt `n`, or `None` when `n` is not below 16.
    pub fn checked_ppi(n: u32) -> (r: Option<IntId>)
        ensures
            n < PPI_COUNT <==> r.is_some(),
            r matches Some(i) ==> i.id() == PPI_START + n && i.wf() && i.kind() == IntIdKind::Ppi,
    {
        if n < PPI_COUNT {
            Some(IntId::ppi(n))
        } else {
            None
        }
    }

    /// The shared peripheral interrupt `n`, or `None` when `n` is not below 988.
    pub fn checked_spi(n: u32) -> (r: Option<IntId>)
        ensures
            n < MAX_SPI_COUNT <==> r.is_some(),
            r matches Some(i) ==> i.id() == SPI_START + n && i.wf() && i.kind() == IntIdKind::Spi,
    {
        if n < MAX_SPI_COUNT {
            Some(IntId::spi(n))
        } else {
            None
        }
    }

    /// The identifier with raw number `raw`, or `None` for a raw number in the
    /// special range or above.
    pub fn from_raw(raw: u32) -> (r: Option<IntId>)
        ensures
            raw < SPECIAL_START <==> r.is_some(),
            r matches Some(i) ==> i.id() == raw && i.wf(),
    {
        if raw < SPECIAL_START {
            Some(IntId { raw })
        } else {
            None
        }
    }

    /// Its raw number.
    pub fn raw_value(self) -> (r: u32)
        ensures
            r == self.id(),
            self.wf(),
    {
        proof {
            use_type_invariant(&self);
        }
        self.raw
    }

    /// Its category.
    pub fn kind_exec(self) -> (r: IntIdKind)
        ensures
            r == self.kind(),
    {
        if self.raw < PPI_START {
            IntIdKind::Sgi
        } else if self.raw < SPI_START {
            IntIdKind::Ppi
        } else {
            IntIdKind::Spi
        }
    }

    /// Whether it is a software-generated interrupt.
    pub fn is_sgi(self) -> (r: bool)
        ensures
            r == (self.kind() == IntIdKind::Sgi),
    {
        self.raw < PPI_START
    }

    /// Whether it is a private peripheral interrupt.
    pub fn is_ppi(self) -> (r: bool)
        ensures
            r == (self.kind() == IntIdKind::Ppi),
    {
        PPI_START <= self.raw && self.raw < SPI_START
    }

    /// Whether it is a shared peripheral interrupt.
    pub fn is_spi(self) -> (r: bool)
        ensures
            r == (self.kind() == IntIdKind::Spi),
    {
        SPI_START <= self.raw
    }

    /// Whether it is private to one core (an SGI or a PPI).
    pub fn is_private(self) -> (r: bool)
        ensures
            r == self.private(),
    {
        self.raw < SPI_START
    }
}

} // verus!
