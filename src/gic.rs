//! A model of the three-tier generic interrupt controller as one core sees
//! it: the distributor's shared interrupts, each core's redistributor with
//! its private interrupts, and this core's CPU interface.

use vstd::prelude::*;
use crate::intid::{IntId, MAX_SPI_COUNT};

verus! {

/// Most cores a controller model can hold.
pub const MAX_CPUS: usize = 1024;

/// Private interrupts (SGIs and PPIs) of each core.
pub const PRIVATE_COUNT: usize = 32;

/// Priority that an idle CPU interface runs at: below every interrupt.
pub const IDLE_PRIORITY: u16 = 0x100;

/// A secure interrupt group.
#[derive(Clone, Copy, Debug, PartialEq, Eq, Structural)]
pub enum SecureIntGroup {
    /// Secure group 1.
    Group1S,
    /// Group 0 (delivered as FIQ).
    Group0,
}

/// The group an interrupt is assigned to.
#[derive(Clone, Copy, Debug, PartialEq, Eq, Structural)]
pub enum Group {
    /// A secure group.
    Secure(SecureIntGroup),
    /// Non-secure group 1.
    Group1NS,
}

/// The group that the CPU interface acknowledges and ends interrupts of.
#[derive(Clone, Copy, Debug, PartialEq, Eq, Structural)]
pub enum InterruptGroup {
    /// Group 0.
    Group0,
    /// Group 1 of the current (non-secure) security state.
    Group1,
}

/// The cores a software-generated interrupt is sent to.
#[derive(Clone, Copy, Debug, PartialEq, Eq, Structural)]
pub enum SgiTarget {
    /// Every core but the sender.
    All,
    /// The cores of one cluster whose bits are set in `target_list`; the
    /// cores of this controller form the cluster with affinity `0.0.0`.
    List { affinity3: u8, affinity2: u8, affinity1: u8, target_list: u16 },
}

/// The group a software-generated interrupt is sent for.
#[derive(Clone, Copy, Debug, PartialEq, Eq, Structural)]
pub enum SgiTargetGroup {
    /// Group 0.
    Group0,
    /// Group 1 of the current (non-secure) security state.
    CurrentGroup1,
    /// Group 1 of the other (secure) security state.
    OtherGroup1,
}

/// Why a configuration call failed.
#[derive(Clone, Copy, Debug, PartialEq, Eq, Structural)]
pub enum GicError {
    /// The core index given for a private interrupt is out of range.
    InvalidRedistributorIndex(usize),
    /// A private interrupt was named without a core index.
    MissingCoreIndex,
    /// The id cannot be sent as a software-generated interrupt.
    InvalidGicCpuIntid(IntId),
    /// The id is a shared interrupt that the distributor does not implement.
    InvalidGicdIntid(IntId),
}

/// What the controller holds for one interrupt (for a private interrupt, on
/// one core).
#[derive(Clone, Copy, Debug, PartialEq, Eq, Structural)]
pub struct IrqState {
    /// Lower is more urgent.
    pub priority: u8,
    pub group: Group,
    pub enabled: bool,
    pub pending: bool,
    /// Acknowledged and not yet ended.
    pub active: bool,
}

/// The state of an interrupt after a reset of the controller.
pub open spec fn reset_irq() -> IrqState {
    IrqState {
        priority: 0,
        group: Group::Secure(SecureIntGroup::Group0),
        enabled: false,
        pending: false,
        active: false,
    }
}

/// Whether an acknowledge for group `g` takes interrupts of group `group`.
pub open spec fn acknowledged_by(group: Group, g: InterruptGroup) -> bool {
    match g {
        InterruptGroup::Group0 => group == Group::Secure(SecureIntGroup::Group0),
        InterruptGroup::Group1 => group == Group::Group1NS,
    }
}

/// Whether an SGI configured in group `group` is raised by a send for `tg`.
pub open spec fn sent_for(group: Group, tg: SgiTargetGroup) -> bool {
    match tg {
        SgiTargetGroup::Group0 => group == Group::Secure(SecureIntGroup::Group0),
        SgiTargetGroup::CurrentGroup1 => group == Group::Group1NS,
        SgiTargetGroup::OtherGroup1 => group == Group::Secure(SecureIntGroup::Group1S),
    }
}

/// Whether core `c` is among the targets of a send from core `me`.
pub open spec fn targets(target: SgiTarget, me: usize, c: usize) -> bool {
    match target {
        SgiTarget::All => c != me,
        SgiTarget::List { affinity3, affinity2, affinity1, target_list } => {
            affinity3 == 0 && affinity2 == 0 && affinity1 == 0 && c < 16
                && target_list & (1u16 << (c as u16)) != 0
        },
    }
}

/// What the controller holds, as this core sees it.
#[verifier::ext_equal]
pub struct GicState {
    pub cpu_count: usize,
    pub spi_count: usize,
    /// The core this CPU interface belongs to.
    pub cpu: usize,
    /// Which redistributors have been told that their core is awake.
    pub awake: Seq<bool>,
    pub group0_enabled: bool,
    pub group1_enabled: bool,
    /// Only interrupts of priority numerically below it are signalled.
    pub priority_mask: u8,
    /// For each core, its 32 private interrupts.
    pub private: Seq<Seq<IrqState>>,
    /// The shared interrupts, from id 32 on.
    pub shared: Seq<IrqState>,
    /// The acknowledged interrupts not yet ended, most recent last, each
    /// with the priority it was acknowledged at.
    pub running: Seq<(IntId, u8)>,
}

impl GicState {
    pub open spec fn wf(self) -> bool {
        &&& 1 <= self.cpu_count <= MAX_CPUS
        &&& self.cpu < self.cpu_count
        &&& self.spi_count <= MAX_SPI_COUNT
        &&& self.awake.len() == self.cpu_count
        &&& self.private.len() == self.cpu_count
        &&& forall|c: int| 0 <= c < self.cpu_count ==> #[trigger] self.private[c].len() == 32
        &&& self.shared.len() == self.spi_count
    }

    /// Ids this core can see: its private ones and the shared ones.
    pub open spec fn id_count(self) -> int {
        32 + self.spi_count
    }

    /// The state of interrupt `i`, on core `c` where it is private.
    pub open spec fn irq(self, c: int, i: int) -> IrqState {
        if i < 32 {
            self.private[c][i]
        } else {
            self.shared[i - 32]
        }
    }

    /// The state of interrupt `i` as this core sees it.
    pub open spec fn local(self, i: int) -> IrqState {
        self.irq(self.cpu as int, i)
    }

    /// This state with interrupt `i` (on core `c` where it is private) set to `s`.
    pub open spec fn with_irq(self, c: int, i: int, s: IrqState) -> GicState {
        if i < 32 {
            GicState { private: self.private.update(c, self.private[c].update(i, s)), ..self }
        } else {
            GicState { shared: self.shared.update(i - 32, s), ..self }
        }
    }

    /// The priority this core runs at: that of the latest acknowledged
    /// interrupt not yet ended, or the idle priority.
    pub open spec fn running_priority(self) -> int {
        if self.running.len() == 0 {
            IDLE_PRIORITY as int
        } else {
            self.running.last().1 as int
        }
    }

    pub open spec fn group_enabled(self, g: InterruptGroup) -> bool {
        match g {
            InterruptGroup::Group0 => self.group0_enabled,
            InterruptGroup::Group1 => self.group1_enabled,
        }
    }

    /// Interrupt `i` would be taken by an acknowledge for group `g` now:
    /// enabled, pending, not active, of that group, the group enabled, and
    /// its priority below both the mask and the running priority.
    pub open spec fn deliverable(self, i: int, g: InterruptGroup) -> bool {
        &&& 0 <= i < self.id_count()
        &&& self.local(i).enabled
        &&& self.local(i).pending
        &&& !self.local(i).active
        &&& acknowledged_by(self.local(i).group, g)
        &&& self.group_enabled(g)
        &&& self.local(i).priority < self.priority_mask
        &&& (self.local(i).priority as int) < self.running_priority()
    }

    /// Interrupt `i` is the one an acknowledge for `g` takes: deliverable,
    /// of the most urgent priority, and of the lowest id among those.
    pub open spec fn is_best(self, i: int, g: InterruptGroup) -> bool {
        &&& self.deliverable(i, g)
        &&& forall|j: int| #[trigger]
            self.deliverable(j, g) ==> self.local(i).priority < self.local(j).priority || (
            self.local(i).priority == self.local(j).priority && i <= j)
    }

    /// The core whose copy of `id` a configuration call with core index
    /// `cpu` addresses, or the error it reports. A shared interrupt has one
    /// copy, and the core index is then ignored.
    pub open spec fn target_core(self, id: IntId, cpu: Option<usize>) -> Result<usize, GicError> {
        if id.private() {
            match cpu {
                None => Err(GicError::MissingCoreIndex),
                Some(c) => if c < self.cpu_count {
                    Ok(c)
                } else {
                    Err(GicError::InvalidRedistributorIndex(c))
                },
            }
        } else if id.id() < self.id_count() {
            Ok(self.cpu)
        } else {
            Err(GicError::InvalidGicdIntid(id))
        }
    }

    /// The state after an acknowledge took interrupt `id`: it is active and
    /// no longer pending, and its priority is the running one.
    pub open spec fn acked(self, id: IntId) -> GicState {
        let s = self.local(id.id() as int);
        let t = self.with_irq(self.cpu as int, id.id() as int, IrqState { pending: false, active: true, ..s });
        GicState { running: self.running.push((id, s.priority)), ..t }
    }

    /// The state after an end of interrupt for `id`: the running priority
    /// drops back to what it was before the latest acknowledge, and `id` is
    /// no longer active.
    pub open spec fn ended(self, id: IntId) -> GicState {
        let t = GicState {
            running: if self.running.len() == 0 { self.running } else { self.running.drop_last() },
            ..self
        };
        if id.id() < self.id_count() {
            let s = self.local(id.id() as int);
            t.with_irq(self.cpu as int, id.id() as int, IrqState { active: false, ..s })
        } else {
            t
        }
    }

    /// The state after a software-generated interrupt `i` was sent: it is
    /// pending on each targeted core where it is configured in the group
    /// that the send was for.
    pub open spec fn sgi_sent(self, i: int, target: SgiTarget, tg: SgiTargetGroup) -> GicState {
        GicState {
            private: Seq::new(
                self.cpu_count as nat,
                |c: int|
                    if targets(target, self.cpu, c as usize) && sent_for(self.private[c][i].group, tg) {
                        self.private[c].update(i, IrqState { pending: true, ..self.private[c][i] })
                    } else {
                        self.private[c]
                    },
            ),
            ..self
        }
    }
}

/// The controller model.
pub struct Gic {
    cpu_count: usize,
    spi_count: usize,
    cpu: usize,
    awake: Vec<bool>,
    group0_enabled: bool,
    group1_enabled: bool,
    priority_mask: u8,
    private: Vec<[IrqState; 32]>,
    shared: Vec<IrqState>,
    running: Vec<(IntId, u8)>,
}

impl View for Gic {
    type V = GicState;

    closed spec fn view(&self) -> GicState {
        GicState {
            cpu_count: self.cpu_count,
            spi_count: self.spi_count,
            cpu: self.cpu,
            awake: self.awake@,
            group0_enabled: self.group0_enabled,
            group1_enabled: self.group1_enabled,
            priority_mask: self.priority_mask,
            private: self.private@.map_values(|a: [IrqState; 32]| a@),
            shared: self.shared@,
            running: self.running@,
        }
    }
}

impl Gic {
    /// A controller for `cpu_count` cores and `spi_count` shared interrupts,
    /// seen from core `cpu`, in its reset state: every interrupt in group 0
    /// at priority 0, disabled, not pending; no core awake; both groups
    /// disabled; a priority mask of 0, which signals nothing.
    pub fn new(cpu_count: usize, spi_count: usize, cpu: usize) -> (r: Gic)
        requires
            1 <= cpu_count <= MAX_CPUS,
            cpu < cpu_count,
            spi_count <= MAX_SPI_COUNT,
        ensures
            r@.wf(),
            r@.cpu_count == cpu_count,
            r@.spi_count == spi_count,
            r@.cpu == cpu,
            forall|c: int| 0 <= c < cpu_count ==> !#[trigger] r@.awake[c],
            !r@.group0_enabled,
            !r@.group1_enabled,
            r@.priority_mask == 0,
            forall|c: int, i: int|
                0 <= c < cpu_count && 0 <= i < r@.id_count() ==> #[trigger] r@.irq(c, i)
                    == reset_irq(),
            r@.running.len() == 0,
    {
        let reset = IrqState {
            priority: 0,
            group: Group::Secure(SecureIntGroup::Group0),
            enabled: false,
            pending: false,
            active: false,
        };
        let row: [IrqState; 32] = [reset; 32];
        let mut awake: Vec<bool> = Vec::new();
        let mut private: Vec<[IrqState; 32]> = Vec::new();
        let mut c: usize = 0;
        while c < cpu_count
            invariant
                c <= cpu_count,
                awake@.len() == c,
                private@.len() == c,
                forall|k: int| 0 <= k < c ==> !#[trigger] awake@[k],
                forall|k: int| 0 <= k < c ==> #[trigger] private@[k] == row,
            decreases cpu_count - c,
        {
            awake.push(false);
            private.push(row);
            c = c + 1;
        }
        let mut shared: Vec<IrqState> = Vec::new();
        let mut n: usize = 0;
        while n < spi_count
            invariant
                n <= spi_count,
                shared@.len() == n,
                forall|k: int| 0 <= k < n ==> #[trigger] shared@[k] == reset,
            decreases spi_count - n,
        {
            shared.push(reset);
            n = n + 1;
        }
        let r = Gic {
            cpu_count,
            spi_count,
            cpu,
            awake,
            group0_enabled: false,
            group1_enabled: false,
            priority_mask: 0,
            private,
            shared,
            running: Vec::new(),
        };
        assert forall|c: int, i: int|
            0 <= c < cpu_count && 0 <= i < r@.id_count() implies #[trigger] r@.irq(c, i)
            == reset_irq() by {
            if i < 32 {
                assert(r@.private[c] == row@);
            }
        }
        r
    }

    /// The number of cores.
    pub fn cpu_count(&self) -> (r: usize)
        ensures
            r == self@.cpu_count,
    {
        self.cpu_count
    }

    /// The core this CPU interface belongs to.
    pub fn this_cpu(&self) -> (r: usize)
        ensures
            r == self@.cpu,
    {
        self.cpu
    }

    /// The number of shared interrupts implemented.
    pub fn spi_count(&self) -> (r: usize)
        ensures
            r == self@.spi_count,
    {
        self.spi_count
    }

    /// The state of interrupt `i`, on core `c` where it is private.
    fn read_irq(&self, c: usize, i: usize) -> (r: IrqState)
        requires
            self@.wf(),
            c < self@.cpu_count,
            i < self@.id_count(),
        ensures
            r == self@.irq(c as int, i as int),
    {
        if i < PRIVATE_COUNT {
            self.private[c][i]
        } else {
            self.shared[i - PRIVATE_COUNT]
        }
    }

    /// Sets the state of interrupt `i`, on core `c` where it is private.
    fn write_irq(&mut self, c: usize, i: usize, s: IrqState)
        requires
            old(self)@.wf(),
            c < old(self)@.cpu_count,
            i < old(self)@.id_count(),
        ensures
            final(self)@ == old(self)@.with_irq(c as int, i as int, s),
            final(self)@.wf(),
    {
        if i < PRIVATE_COUNT {
            let mut row: [IrqState; 32] = self.private[c];
            row[i] = s;
            self.private.set(c, row);
            assert(self@.private =~= old(self)@.private.update(
                c as int,
                old(self)@.private[c as int].update(i as int, s),
            ));
        } else {
            self.shared.set(i - PRIVATE_COUNT, s);
        }
    }

    /// Wakes the redistributor of core `cpu` and enables group 1 on this
    /// core's CPU interface.
    pub fn setup(&mut self, cpu: usize) -> (r: Result<(), GicError>)
        requires
            old(self)@.wf(),
        ensures
            final(self)@.wf(),
            cpu < old(self)@.cpu_count ==> r is Ok && final(self)@ == (GicState {
                awake: old(self)@.awake.update(cpu as int, true),
                group1_enabled: true,
                ..old(self)@
            }),
            cpu >= old(self)@.cpu_count ==> r == Err::<(), GicError>(
                GicError::InvalidRedistributorIndex(cpu),
            ) && final(self)@ == old(self)@,
    {
        if cpu >= self.cpu_count {
            return Err(GicError::InvalidRedistributorIndex(cpu));
        }
        self.awake.set(cpu, true);
        self.group1_enabled = true;
        Ok(())
    }

    /// Whether the redistributor of core `cpu` has been woken.
    pub fn is_awake(&self, cpu: usize) -> (r: bool)
        requires
            self@.wf(),
        ensures
            r == (cpu < self@.cpu_count && self@.awake[cpu as int]),
    {
        cpu < self.cpu_count && self.awake[cpu]
    }

    /// Enables or disables group 0 on this core's CPU interface.
    pub fn enable_group0(&mut self, enable: bool)
        ensures
            final(self)@ == (GicState { group0_enabled: enable, ..old(self)@ }),
    {
        self.group0_enabled = enable;
    }

    /// Enables or disables group 1 on this core's CPU interface.
    pub fn enable_group1(&mut self, enable: bool)
        ensures
            final(self)@ == (GicState { group1_enabled: enable, ..old(self)@ }),
    {
        self.group1_enabled = enable;
    }

    /// Sets this core's priority mask: only interrupts of priority
    /// numerically below `mask` are signalled.
    pub fn set_priority_mask(&mut self, mask: u8)
        ensures
            final(self)@ == (GicState { priority_mask: mask, ..old(self)@ }),
    {
        self.priority_mask = mask;
    }

    /// This core's priority mask.
    pub fn get_priority_mask(&self) -> (r: u8)
        ensures
            r == self@.priority_mask,
    {
        self.priority_mask
    }

    /// The priority this core runs at: that of the latest acknowledged
    /// interrupt not yet ended, or `IDLE_PRIORITY`.
    pub fn running_priority(&self) -> (r: u16)
        ensures
            r == self@.running_priority(),
    {
        if self.running.len() == 0 {
            IDLE_PRIORITY
        } else {
            self.running[self.running.len() - 1].1 as u16
        }
    }

    /// How many acknowledged interrupts are not yet ended.
    pub fn active_depth(&self) -> (r: usize)
        ensures
            r == self@.running.len(),
    {
        self.running.len()
    }

    /// The core whose copy of `id` a call with core index `cpu` addresses.
    fn locate(&self, id: IntId, cpu: Option<usize>) -> (r: Result<usize, GicError>)
        requires
            self@.wf(),
        ensures
            r == self@.target_core(id, cpu),
    {
        if id.is_private() {
            match cpu {
                None => Err(GicError::MissingCoreIndex),
                Some(c) => if c < self.cpu_count {
                    Ok(c)
                } else {
                    Err(GicError::InvalidRedistributorIndex(c))
                },
            }
        } else if (id.raw_value() as usize) < PRIVATE_COUNT + self.spi_count {
            Ok(self.cpu)
        } else {
            Err(GicError::InvalidGicdIntid(id))
        }
    }

    /// The state of interrupt `id`, on core `cpu` where it is private.
    pub fn interrupt_state(&self, id: IntId, cpu: Option<usize>) -> (r: Result<IrqState, GicError>)
        requires
            self@.wf(),
        ensures
            match self@.target_core(id, cpu) {
                Ok(c) => r == Ok::<IrqState, GicError>(self@.irq(c as int, id.id() as int)),
                Err(e) => r == Err::<IrqState, GicError>(e),
            },
    {
        let c = self.locate(id, cpu)?;
        Ok(self.read_irq(c, id.raw_value() as usize))
    }

    /// Sets the priority of interrupt `id`; lower is more urgent. A private
    /// interrupt needs the index of its core.
    pub fn set_interrupt_priority(&mut self, id: IntId, cpu: Option<usize>, priority: u8) -> (r:
        Result<(), GicError>)
        requires
            old(self)@.wf(),
        ensures
            final(self)@.wf(),
            match old(self)@.target_core(id, cpu) {
                Ok(c) => r is Ok && final(self)@ == old(self)@.with_irq(
                    c as int,
                    id.id() as int,
                    IrqState { priority, ..old(self)@.irq(c as int, id.id() as int) },
                ),
                Err(e) => r == Err::<(), GicError>(e) && final(self)@ == old(self)@,
            },
    {
        let c = self.locate(id, cpu)?;
        let i = id.raw_value() as usize;
        let s = self.read_irq(c, i);
        self.write_irq(c, i, IrqState { priority, ..s });
        Ok(())
    }

    /// Assigns interrupt `id` to `group`. A private interrupt needs the
    /// index of its core.
    pub fn set_group(&mut self, id: IntId, cpu: Option<usize>, group: Group) -> (r: Result<
        (),
        GicError,
    >)
        requires
            old(self)@.wf(),
        ensures
            final(self)@.wf(),
            match old(self)@.target_core(id, cpu) {
                Ok(c) => r is Ok && final(self)@ == old(self)@.with_irq(
                    c as int,
                    id.id() as int,
                    IrqState { group, ..old(self)@.irq(c as int, id.id() as int) },
                ),
                Err(e) => r == Err::<(), GicError>(e) && final(self)@ == old(self)@,
            },
    {
        let c = self.locate(id, cpu)?;
        let i = id.raw_value() as usize;
        let s = self.read_irq(c, i);
        self.write_irq(c, i, IrqState { group, ..s });
        Ok(())
    }

    /// Enables or disables interrupt `id`. A private interrupt needs the
    /// index of its core.
    pub fn enable_interrupt(&mut self, id: IntId, cpu: Option<usize>, enable: bool) -> (r: Result<
        (),
        GicError,
    >)
        requires
            old(self)@.wf(),
        ensures
            final(self)@.wf(),
            match old(self)@.target_core(id, cpu) {
                Ok(c) => r is Ok && final(self)@ == old(self)@.with_irq(
                    c as int,
                    id.id() as int,
                    IrqState { enabled: enable, ..old(self)@.irq(c as int, id.id() as int) },
                ),
                Err(e) => r == Err::<(), GicError>(e) && final(self)@ == old(self)@,
            },
    {
        let c = self.locate(id, cpu)?;
        let i = id.raw_value() as usize;
        let s = self.read_irq(c, i);
        self.write_irq(c, i, IrqState { enabled: enable, ..s });
        Ok(())
    }

    /// Raises or lowers the pending state of interrupt `id`, as its source
    /// does in hardware. A private interrupt needs the index of its core.
    pub fn set_pending(&mut self, id: IntId, cpu: Option<usize>, pending: bool) -> (r: Result<
        (),
        GicError,
    >)
        requires
            old(self)@.wf(),
        ensures
            final(self)@.wf(),
            match old(self)@.target_core(id, cpu) {
                Ok(c) => r is Ok && final(self)@ == old(self)@.with_irq(
                    c as int,
                    id.id() as int,
                    IrqState { pending, ..old(self)@.irq(c as int, id.id() as int) },
                ),
                Err(e) => r == Err::<(), GicError>(e) && final(self)@ == old(self)@,
            },
    {
        let c = self.locate(id, cpu)?;
        let i = id.raw_value() as usize;
        let s = self.read_irq(c, i);
        self.write_irq(c, i, IrqState { pending, ..s });
        Ok(())
    }

    /// Sends the software-generated interrupt `id` to the cores `target`
    /// selects, for group `group`; fails when `id` is not an SGI.
    pub fn send_sgi(&mut self, id: IntId, target: SgiTarget, group: SgiTargetGroup) -> (r: Result<
        (),
        GicError,
    >)
        requires
            old(self)@.wf(),
        ensures
            final(self)@.wf(),
            !id.private() || id.id() >= 16 ==> r == Err::<(), GicError>(
                GicError::InvalidGicCpuIntid(id),
            ) && final(self)@ == old(self)@,
            id.id() < 16 ==> r is Ok && final(self)@ == old(self)@.sgi_sent(
                id.id() as int,
                target,
                group,
            ),
    {
        if !id.is_sgi() {
            return Err(GicError::InvalidGicCpuIntid(id));
        }
        let i = id.raw_value() as usize;
        let ghost goal = old(self)@.sgi_sent(i as int, target, group);
        let mut c: usize = 0;
        while c < self.cpu_count
            invariant
                self@.wf(),
                i < 16,
                i == id.id(),
                goal == old(self)@.sgi_sent(i as int, target, group),
                c <= self@.cpu_count,
                self@ == (GicState { private: self@.private, ..old(self)@ }),
                forall|k: int| 0 <= k < c ==> #[trigger] self@.private[k] == goal.private[k],
                forall|k: int| c <= k < self@.cpu_count
                    ==> #[trigger] self@.private[k] == old(self)@.private[k],
            decreases self.cpu_count - c,
        {
            assert(self@.private[c as int] == old(self)@.private[c as int]);
            if targets_core(target, self.cpu, c) {
                let s = self.read_irq(c, i);
                if raised_by(s.group, group) {
                    self.write_irq(c, i, IrqState { pending: true, ..s });
                }
            }
            assert(self@.private[c as int] =~= goal.private[c as int]);
            c = c + 1;
        }
        assert(self@.private =~= goal.private);
        Ok(())
    }

    /// The most urgent interrupt an acknowledge for `group` would take.
    fn highest_pending(&self, group: InterruptGroup) -> (r: Option<usize>)
        requires
            self@.wf(),
        ensures
            match r {
                None => forall|j: int| !#[trigger] self@.deliverable(j, group),
                Some(i) => self@.is_best(i as int, group),
            },
    {
        let enabled = match group {
            InterruptGroup::Group0 => self.group0_enabled,
            InterruptGroup::Group1 => self.group1_enabled,
        };
        if !enabled {
            return None;
        }
        let n = PRIVATE_COUNT + self.spi_count;
        let running = self.running_priority();
        let mut best: Option<usize> = None;
        let mut best_priority: u8 = 0;
        let mut i: usize = 0;
        while i < n
            invariant
                self@.wf(),
                n == self@.id_count(),
                running == self@.running_priority(),
                self@.group_enabled(group),
                i <= n,
                best is None ==> forall|j: int| 0 <= j < i ==> !#[trigger] self@.deliverable(j, group),
                best matches Some(b) ==> {
                    &&& b < i
                    &&& self@.deliverable(b as int, group)
                    &&& best_priority == self@.local(b as int).priority
                    &&& forall|j: int| #[trigger]
                        self@.deliverable(j, group) && j < i ==> best_priority < self@.local(
                            j,
                        ).priority || (best_priority == self@.local(j).priority && b <= j)
                },
            decreases n - i,
        {
            let s = self.read_irq(self.cpu, i);
            if s.enabled && s.pending && !s.active && taken_by(s.group, group) && s.priority
                < self.priority_mask && (s.priority as u16) < running {
                match best {
                    None => {
                        best = Some(i);
                        best_priority = s.priority;
                    },
                    Some(_) => {
                        if s.priority < best_priority {
                            best = Some(i);
                            best_priority = s.priority;
                        }
                    },
                }
            }
            i = i + 1;
        }
        best
    }

    /// Takes the most urgent interrupt of `group` that is signalled to this
    /// core: it becomes active, and its priority becomes the running one.
    /// Returns `None`, changing nothing, when no interrupt is signalled.
    pub fn get_and_acknowledge_interrupt(&mut self, group: InterruptGroup) -> (r: Option<IntId>)
        requires
            old(self)@.wf(),
        ensures
            final(self)@.wf(),
            match r {
                None => (forall|j: int| !#[trigger] old(self)@.deliverable(j, group))
                    && final(self)@ == old(self)@,
                Some(id) => old(self)@.is_best(id.id() as int, group)
                    && final(self)@ == old(self)@.acked(id),
            },
    {
        match self.highest_pending(group) {
            None => None,
            Some(i) => {
                match IntId::from_raw(i as u32) {
                    None => None,
                    Some(id) => {
                        let cpu = self.cpu;
                        let s = self.read_irq(cpu, i);
                        self.write_irq(cpu, i, IrqState { pending: false, active: true, ..s });
                        self.running.push((id, s.priority));
                        Some(id)
                    },
                }
            },
        }
    }

    /// Tells this core's CPU interface that interrupt `id` is done: the
    /// running priority drops back to what it was before the latest
    /// acknowledge, and `id` is no longer active. It is meant for the
    /// interrupt that the latest acknowledge for `group` returned; any other
    /// pairing is undefined in hardware, and here drops the latest
    /// acknowledge's priority all the same.
    pub fn end_interrupt(&mut self, id: IntId, group: InterruptGroup)
        requires
            old(self)@.wf(),
        ensures
            final(self)@.wf(),
            final(self)@ == old(self)@.ended(id),
    {
        if self.running.len() > 0 {
            self.running.pop();
        }
        let i = id.raw_value() as usize;
        if i < PRIVATE_COUNT + self.spi_count {
            let cpu = self.cpu;
            let s = self.read_irq(cpu, i);
            self.write_irq(cpu, i, IrqState { active: false, ..s });
        }
    }
}

/// Whether core `c` is among the targets of a send from core `me`.
fn targets_core(target: SgiTarget, me: usize, c: usize) -> (r: bool)
    ensures
        r == targets(target, me, c),
{
    match target {
        SgiTarget::All => c != me,
        SgiTarget::List { affinity3, affinity2, affinity1, target_list } => {
            affinity3 == 0 && affinity2 == 0 && affinity1 == 0 && c < 16 && target_list & (1u16
                << (c as u16)) != 0
        },
    }
}

/// Whether an SGI configured in `group` is raised by a send for `tg`.
fn raised_by(group: Group, tg: SgiTargetGroup) -> (r: bool)
    ensures
        r == sent_for(group, tg),
{
    match tg {
        SgiTargetGroup::Group0 => group == Group::Secure(SecureIntGroup::Group0),
        SgiTargetGroup::CurrentGroup1 => group == Group::Group1NS,
        SgiTargetGroup::OtherGroup1 => group == Group::Secure(SecureIntGroup::Group1S),
    }
}

/// Whether an acknowledge for `g` takes interrupts of `group`.
fn taken_by(group: Group, g: InterruptGroup) -> (r: bool)
    ensures
        r == acknowledged_by(group, g),
{
    match g {
        InterruptGroup::Group0 => group == Group::Secure(SecureIntGroup::Group0),
        InterruptGroup::Group1 => group == Group::Group1NS,
    }
}

/// The state after acknowledges that took `ids`, in order.
pub open spec fn ack_each(g: GicState, ids: Seq<IntId>) -> GicState
    decreases ids.len(),
{
    if ids.len() == 0 {
        g
    } else {
        ack_each(g, ids.drop_last()).acked(ids.last())
    }
}

/// The state after ends of interrupt for `ids` in reverse order, the last
/// one first.
pub open spec fn end_each_reversed(g: GicState, ids: Seq<IntId>) -> GicState
    decreases ids.len(),
{
    if ids.len() == 0 {
        g
    } else {
        end_each_reversed(g.ended(ids.last()), ids.drop_last())
    }
}

/// How many interrupts below id `n` an acknowledge for `grp` could take.
pub open spec fn count_below(g: GicState, grp: InterruptGroup, n: int) -> nat
    decreases n,
{
    if n <= 0 {
        0
    } else {
        count_below(g, grp, n - 1) + if g.deliverable(n - 1, grp) {
            1nat
        } else {
            0nat
        }
    }
}

/// How many interrupts an acknowledge for `grp` could take now.
pub open spec fn count_deliverable(g: GicState, grp: InterruptGroup) -> nat {
    count_below(g, grp, g.id_count())
}

proof fn lemma_ack_each_running(g: GicState, ids: Seq<IntId>)
    ensures
        ack_each(g, ids).running.len() == g.running.len() + ids.len(),
        ack_each(g, ids).running.subrange(0, g.running.len() as int) == g.running,
    decreases ids.len(),
{
    if ids.len() > 0 {
        lemma_ack_each_running(g, ids.drop_last());
        let h = ack_each(g, ids.drop_last());
        assert(ack_each(g, ids).running.subrange(0, g.running.len() as int)
            =~= h.running.subrange(0, g.running.len() as int));
    }
}

proof fn lemma_end_each_running(h: GicState, ids: Seq<IntId>)
    requires
        ids.len() <= h.running.len(),
    ensures
        end_each_reversed(h, ids).running == h.running.subrange(
            0,
            h.running.len() - ids.len(),
        ),
    decreases ids.len(),
{
    if ids.len() == 0 {
        assert(h.running.subrange(0, h.running.len() as int) =~= h.running);
    } else {
        let h2 = h.ended(ids.last());
        lemma_end_each_running(h2, ids.drop_last());
        assert(h2.running.subrange(0, h2.running.len() - ids.drop_last().len())
            =~= h.running.subrange(0, h.running.len() - ids.len()));
    }
}

/// Acknowledging interrupts one after another and then ending them in
/// reverse order brings the running priority, and the whole stack of
/// running priorities, back to what it was before the first acknowledge.
pub proof fn lemma_nested_ack_end_restores(g: GicState, ids: Seq<IntId>)
    ensures
        end_each_reversed(ack_each(g, ids), ids).running == g.running,
        end_each_reversed(ack_each(g, ids), ids).running_priority() == g.running_priority(),
{
    lemma_ack_each_running(g, ids);
    lemma_end_each_running(ack_each(g, ids), ids);
}

/// Acknowledging a deliverable interrupt and ending it leaves it no longer
/// pending and every other interrupt as deliverable as before.
pub proof fn lemma_ack_then_end(g: GicState, id: IntId, grp: InterruptGroup)
    requires
        g.wf(),
        g.deliverable(id.id() as int, grp),
    ensures
        g.acked(id).ended(id).wf(),
        g.acked(id).ended(id).running == g.running,
        g.acked(id).ended(id).local(id.id() as int) == (IrqState {
            pending: false,
            ..g.local(id.id() as int)
        }),
        !g.acked(id).ended(id).deliverable(id.id() as int, grp),
        forall|j: int|
            0 <= j < g.id_count() && j != id.id() ==> #[trigger] g.acked(id).ended(id).local(j)
                == g.local(j),
        forall|j: int|
            j != id.id() ==> #[trigger] g.acked(id).ended(id).deliverable(j, grp) == g.deliverable(
                j,
                grp,
            ),
{
    let h = g.acked(id).ended(id);
    assert(h.running =~= g.running);
    assert forall|j: int| j != id.id() implies #[trigger] h.deliverable(j, grp) == g.deliverable(
        j,
        grp,
    ) by {
        if 0 <= j < g.id_count() {
            assert(h.local(j) == g.local(j));
        }
    }
}

/// Where one interrupt stops being deliverable and no other changes, the
/// count below `n` drops by one if that interrupt is below `n`.
pub proof fn lemma_count_drops(g1: GicState, g2: GicState, grp: InterruptGroup, k: int, n: int)
    requires
        g1.deliverable(k, grp),
        !g2.deliverable(k, grp),
        forall|j: int| j != k ==> #[trigger] g2.deliverable(j, grp) == g1.deliverable(j, grp),
    ensures
        count_below(g2, grp, n) + (if 0 <= k < n {
            1nat
        } else {
            0nat
        }) == count_below(g1, grp, n),
    decreases n,
{
    if n > 0 {
        lemma_count_drops(g1, g2, grp, k, n - 1);
    }
}

/// With nothing deliverable the count is zero.
pub proof fn lemma_count_none(g: GicState, grp: InterruptGroup, n: int)
    requires
        forall|j: int| !#[trigger] g.deliverable(j, grp),
    ensures
        count_below(g, grp, n) == 0,
    decreases n,
{
    if n > 0 {
        lemma_count_none(g, grp, n - 1);
    }
}

/// The count below `n` is at most `n`.
pub proof fn lemma_count_bound(g: GicState, grp: InterruptGroup, n: int)
    ensures
        count_below(g, grp, n) <= if n < 0 {
            0
        } else {
            n
        },
    decreases n,
{
    if n > 0 {
        lemma_count_bound(g, grp, n - 1);
    }
}

/// Writing interrupt `i` twice keeps the second write alone, and reading it
/// back gives what was written.
pub proof fn lemma_with_irq_overwrite(g: GicState, c: int, i: int, a: IrqState, b: IrqState)
    requires
        g.wf(),
        0 <= c < g.cpu_count,
        0 <= i < g.id_count(),
    ensures
        g.with_irq(c, i, a).with_irq(c, i, b) == g.with_irq(c, i, b),
        g.with_irq(c, i, a).irq(c, i) == a,
        g.with_irq(c, i, a).wf(),
{
    if i < 32 {
        assert(g.with_irq(c, i, a).with_irq(c, i, b).private[c] =~= g.with_irq(c, i, b).private[c]);
        assert(g.with_irq(c, i, a).with_irq(c, i, b).private =~= g.with_irq(c, i, b).private);
    } else {
        assert(g.with_irq(c, i, a).with_irq(c, i, b).shared =~= g.with_irq(c, i, b).shared);
    }
    assert(g.with_irq(c, i, a).with_irq(c, i, b) =~= g.with_irq(c, i, b));
}

} // verus!
