//! The interrupt dispatch protocol: acknowledge, run the bottom half that
//! the id selects, end; repeated until nothing is signalled. Also the demo
//! sequence that configures a software-generated interrupt and the virtual
//! timer's interrupt.

use vstd::prelude::*;
use crate::gic::{
    count_deliverable,
    lemma_ack_then_end,
    lemma_count_bound,
    lemma_count_drops,
    lemma_count_none,
    lemma_with_irq_overwrite,
    Gic,
    GicError,
    GicState,
    Group,
    InterruptGroup,
    IrqState,
    SgiTarget,
    SgiTargetGroup,
};
use crate::intid::IntId;
use crate::timer::{countdown_of, pending, with_countdown, wrap_add32, Timer, TimerState};

verus! {

/// Raw id of the virtual timer's interrupt: private peripheral interrupt 11.
pub const VIRTUAL_TIMER_INTID: u32 = 27;

/// Number of the software-generated interrupt that the demo sends.
pub const DEMO_SGI: u32 = 3;

/// Priority the demo gives both of its interrupts.
pub const DEMO_PRIORITY: u8 = 0x31;

/// Priority mask the demo sets on the CPU interface.
pub const DEMO_PRIORITY_MASK: u8 = 0x80;

/// What the dispatch loop runs for an acknowledged id.
#[derive(Clone, Copy, Debug, PartialEq, Eq, Structural)]
pub enum IrqSource {
    /// The virtual timer: re-arm it.
    Timer,
    /// The demo's software-generated interrupt.
    Sgi,
    /// Anything else: ignored, but still ended.
    Unknown,
}

/// The bottom half for the interrupt with raw id `raw`.
pub open spec fn source_of(raw: u32) -> IrqSource {
    if raw == VIRTUAL_TIMER_INTID {
        IrqSource::Timer
    } else if raw == DEMO_SGI {
        IrqSource::Sgi
    } else {
        IrqSource::Unknown
    }
}

/// The countdown that re-arms the timer one period after its last compare
/// value: the ticks left (negative once passed) plus one period, in 32 bits.
pub open spec fn rearm_countdown(s: TimerState) -> u32 {
    wrap_add32(countdown_of(s), s.frequency)
}

/// The timer state after the bottom half re-armed it `n` times.
pub open spec fn rearmed_times(s: TimerState, n: nat) -> TimerState
    decreases n,
{
    if n == 0 {
        s
    } else {
        let p = rearmed_times(s, (n - 1) as nat);
        with_countdown(p, rearm_countdown(p))
    }
}

/// How often `raw` occurs among the ids in `ids`.
pub open spec fn occurrences(ids: Seq<IntId>, raw: u32) -> nat
    decreases ids.len(),
{
    if ids.len() == 0 {
        0
    } else {
        occurrences(ids.drop_last(), raw) + if ids.last().id() == raw {
            1nat
        } else {
            0nat
        }
    }
}

/// Interrupt `a` is taken before interrupt `b`: it is more urgent, or as
/// urgent and of a lower id.
pub open spec fn taken_before(g: GicState, a: int, b: int) -> bool {
    g.local(a).priority < g.local(b).priority || (g.local(a).priority == g.local(b).priority && a
        < b)
}

/// What one run of the dispatch loop did.
pub struct DispatchReport {
    /// Acknowledge calls made, the last of which returned nothing.
    pub acks: usize,
    /// End-of-interrupt calls made.
    pub ends: usize,
    /// The ids acknowledged, in order.
    pub handled: Vec<IntId>,
    /// Times the timer's bottom half ran.
    pub timer_runs: usize,
    /// Times the software-generated interrupt's bottom half ran.
    pub sgi_runs: usize,
}

/// The bottom half that an acknowledged id selects.
pub fn classify(id: IntId) -> (r: IrqSource)
    ensures
        r == source_of(id.id()),
{
    let raw = id.raw_value();
    if raw == VIRTUAL_TIMER_INTID {
        IrqSource::Timer
    } else if raw == DEMO_SGI {
        IrqSource::Sgi
    } else {
        IrqSource::Unknown
    }
}

/// The countdown that re-arms a timer reading `countdown` ticks left, one
/// period of `frequency` ticks after its last compare value.
pub fn rearm_delta(countdown: u32, frequency: u32) -> (r: u32)
    ensures
        r == wrap_add32(countdown, frequency),
{
    countdown.wrapping_add(frequency)
}

/// The timer's bottom half: re-arms the timer one period after its last
/// compare value, so that its condition clears.
pub fn handle_timer_irq(timer: &mut Timer)
    ensures
        final(timer)@ == with_countdown(old(timer)@, rearm_countdown(old(timer)@)),
{
    let delta = rearm_delta(timer.countdown(), timer.frequency_hz());
    timer.countdown_set(delta);
}

/// Brings the timer's interrupt line to the controller: the virtual timer's
/// interrupt on this core becomes pending exactly when the timer's
/// condition holds.
pub fn raise_timer_line(gic: &mut Gic, timer: &Timer)
    requires
        old(gic)@.wf(),
    ensures
        final(gic)@.wf(),
        final(gic)@ == old(gic)@.with_irq(
            old(gic)@.cpu as int,
            VIRTUAL_TIMER_INTID as int,
            IrqState {
                pending: pending(timer@),
                ..old(gic)@.local(VIRTUAL_TIMER_INTID as int)
            },
        ),
{
    let id = IntId::ppi(VIRTUAL_TIMER_INTID - 16);
    let cpu = gic.this_cpu();
    let _ = gic.set_pending(id, Some(cpu), timer.interrupt_status());
}

/// The interrupt handler: while an acknowledge for group 1 returns an id,
/// runs the bottom half that the id selects and ends the id. It acknowledges
/// one time more than there were interrupts to take, ends each taken one
/// once, and leaves the running priority as it found it.
pub fn irq_handler(gic: &mut Gic, timer: &mut Timer) -> (r: DispatchReport)
    requires
        old(gic)@.wf(),
    ensures
        final(gic)@.wf(),
        r.handled@.len() == count_deliverable(old(gic)@, InterruptGroup::Group1),
        forall|k: int|
            0 <= k < r.handled@.len() ==> old(gic)@.deliverable(
                #[trigger] r.handled@[k].id() as int,
                InterruptGroup::Group1,
            ),
        forall|k1: int, k2: int|
            0 <= k1 < k2 < r.handled@.len() ==> taken_before(
                old(gic)@,
                #[trigger] r.handled@[k1].id() as int,
                #[trigger] r.handled@[k2].id() as int,
            ),
        r.acks == r.handled@.len() + 1,
        r.ends == r.handled@.len(),
        forall|j: int| !#[trigger] final(gic)@.deliverable(j, InterruptGroup::Group1),
        final(gic)@.running == old(gic)@.running,
        r.timer_runs == occurrences(r.handled@, VIRTUAL_TIMER_INTID),
        r.sgi_runs == occurrences(r.handled@, DEMO_SGI),
        final(timer)@ == rearmed_times(old(timer)@, r.timer_runs as nat),
{
    let mut report = DispatchReport {
        acks: 0,
        ends: 0,
        handled: Vec::new(),
        timer_runs: 0,
        sgi_runs: 0,
    };
    let ghost start = gic@;
    proof {
        lemma_count_bound(start, InterruptGroup::Group1, start.id_count());
    }
    loop
        invariant_except_break
            report.acks == report.handled@.len(),
        invariant
            gic@.wf(),
            gic@.running == start.running,
            gic@.id_count() == start.id_count(),
            start.id_count() <= 1020,
            count_deliverable(start, InterruptGroup::Group1) <= start.id_count(),
            count_deliverable(gic@, InterruptGroup::Group1) + report.handled@.len()
                == count_deliverable(start, InterruptGroup::Group1),
            report.ends == report.handled@.len(),
            report.timer_runs == occurrences(report.handled@, VIRTUAL_TIMER_INTID),
            report.sgi_runs == occurrences(report.handled@, DEMO_SGI),
            report.timer_runs <= report.handled@.len(),
            report.sgi_runs <= report.handled@.len(),
            timer@ == rearmed_times(old(timer)@, report.timer_runs as nat),
            gic@.cpu == start.cpu,
            forall|j: int| #[trigger]
                gic@.deliverable(j, InterruptGroup::Group1) ==> start.deliverable(
                    j,
                    InterruptGroup::Group1,
                ),
            forall|j: int|
                0 <= j < start.id_count() ==> #[trigger] gic@.local(j).priority == start.local(
                    j,
                ).priority,
            forall|k: int|
                0 <= k < report.handled@.len() ==> start.deliverable(
                    #[trigger] report.handled@[k].id() as int,
                    InterruptGroup::Group1,
                ),
            forall|k: int, j: int|
                0 <= k < report.handled@.len() && #[trigger] gic@.deliverable(
                    j,
                    InterruptGroup::Group1,
                ) ==> taken_before(start, #[trigger] report.handled@[k].id() as int, j),
            forall|k1: int, k2: int|
                0 <= k1 < k2 < report.handled@.len() ==> taken_before(
                    start,
                    #[trigger] report.handled@[k1].id() as int,
                    #[trigger] report.handled@[k2].id() as int,
                ),
        ensures
            forall|k: int|
                0 <= k < report.handled@.len() ==> start.deliverable(
                    #[trigger] report.handled@[k].id() as int,
                    InterruptGroup::Group1,
                ),
            forall|k1: int, k2: int|
                0 <= k1 < k2 < report.handled@.len() ==> taken_before(
                    start,
                    #[trigger] report.handled@[k1].id() as int,
                    #[trigger] report.handled@[k2].id() as int,
                ),
            gic@.wf(),
            gic@.running == start.running,
            count_deliverable(gic@, InterruptGroup::Group1) == 0,
            report.handled@.len() == count_deliverable(start, InterruptGroup::Group1),
            forall|j: int| !#[trigger] gic@.deliverable(j, InterruptGroup::Group1),
            report.acks == report.handled@.len() + 1,
            report.ends == report.handled@.len(),
            report.timer_runs == occurrences(report.handled@, VIRTUAL_TIMER_INTID),
            report.sgi_runs == occurrences(report.handled@, DEMO_SGI),
            timer@ == rearmed_times(old(timer)@, report.timer_runs as nat),
        decreases count_deliverable(gic@, InterruptGroup::Group1),
    {
        let ghost before = gic@;
        report.acks = report.acks + 1;
        match gic.get_and_acknowledge_interrupt(InterruptGroup::Group1) {
            None => {
                proof {
                    lemma_count_none(before, InterruptGroup::Group1, before.id_count());
                }
                break;
            },
            Some(id) => {
                let ghost prev_handled = report.handled@;
                match classify(id) {
                    IrqSource::Timer => {
                        handle_timer_irq(timer);
                        report.timer_runs = report.timer_runs + 1;
                    },
                    IrqSource::Sgi => {
                        report.sgi_runs = report.sgi_runs + 1;
                    },
                    IrqSource::Unknown => {},
                }
                gic.end_interrupt(id, InterruptGroup::Group1);
                report.ends = report.ends + 1;
                report.handled.push(id);
                proof {
                    lemma_ack_then_end(before, id, InterruptGroup::Group1);
                    lemma_count_drops(
                        before,
                        gic@,
                        InterruptGroup::Group1,
                        id.id() as int,
                        before.id_count(),
                    );
                    assert(report.handled@.drop_last() =~= prev_handled);
                }
            },
        }
    }
    report
}

/// Re-arming a timer whose counter passed its compare value by at most one
/// period moves the compare value exactly one period on; where it passed by
/// less than a period, the timer's condition clears.
pub proof fn lemma_rearm_next_match(s: TimerState)
    requires
        s.compare <= s.counter,
        s.counter - s.compare <= s.frequency,
        s.compare + s.frequency <= u64::MAX,
    ensures
        with_countdown(s, rearm_countdown(s)).compare == s.compare + s.frequency,
        s.counter - s.compare < s.frequency ==> !pending(with_countdown(s, rearm_countdown(s))),
{
    let o = s.counter - s.compare;
    if o == 0 {
        assert(countdown_of(s) == 0);
    } else {
        assert(countdown_of(s) == 0x1_0000_0000 - o);
    }
    assert(rearm_countdown(s) == s.frequency - o);
}

/// The state in which interrupt `i` of core `c` has the demo's priority,
/// is in non-secure group 1 and is enabled.
pub open spec fn configured(g: GicState, c: int, i: int) -> GicState {
    g.with_irq(
        c,
        i,
        IrqState { priority: DEMO_PRIORITY, group: Group::Group1NS, enabled: true, ..g.irq(c, i) },
    )
}

/// The sending target that selects core 0 alone.
pub open spec fn core0_target() -> SgiTarget {
    SgiTarget::List { affinity3: 0, affinity2: 0, affinity1: 0, target_list: 1 }
}

/// The controller after the demo: core 0 woken, group 1 enabled, the
/// priority mask set, the SGI and the timer's interrupt configured on core 0,
/// and the SGI sent to core 0.
pub open spec fn demo_gic(g: GicState) -> GicState {
    let g1 = GicState {
        awake: g.awake.update(0, true),
        group1_enabled: true,
        priority_mask: DEMO_PRIORITY_MASK,
        ..g
    };
    let g2 = configured(configured(g1, 0, DEMO_SGI as int), 0, VIRTUAL_TIMER_INTID as int);
    g2.sgi_sent(DEMO_SGI as int, core0_target(), SgiTargetGroup::CurrentGroup1)
}

/// The timer after the demo: enabled, unmasked, and counting down one
/// second (one period of its frequency).
pub open spec fn demo_timer(s: TimerState) -> TimerState {
    with_countdown(
        TimerState { enabled: true, masked: false, compare: u64::MAX, ..s },
        s.frequency,
    )
}

/// Setting priority, group and enable of one interrupt in turn gives the
/// demo's configuration of it.
proof fn overwrite_three(g: GicState, c: int, i: int)
    requires
        g.wf(),
        0 <= c < g.cpu_count,
        0 <= i < g.id_count(),
    ensures
        ({
            let s = g.irq(c, i);
            let g1 = g.with_irq(c, i, IrqState { priority: DEMO_PRIORITY, ..s });
            let g2 = g1.with_irq(c, i, IrqState { group: Group::Group1NS, ..g1.irq(c, i) });
            let g3 = g2.with_irq(c, i, IrqState { enabled: true, ..g2.irq(c, i) });
            g3 == configured(g, c, i)
        }),
{
    let s = g.irq(c, i);
    let a = IrqState { priority: DEMO_PRIORITY, ..s };
    lemma_with_irq_overwrite(g, c, i, a, a);
    let g1 = g.with_irq(c, i, a);
    let b = IrqState { group: Group::Group1NS, ..a };
    lemma_with_irq_overwrite(g, c, i, a, b);
    lemma_with_irq_overwrite(g, c, i, b, b);
    let d = IrqState { enabled: true, ..b };
    lemma_with_irq_overwrite(g, c, i, b, d);
}

/// The demo: sets up the controller for core 0 with a priority mask of
/// 0x80, configures SGI 3 and the virtual timer's interrupt at priority 0x31
/// in non-secure group 1 and enables them, enables the timer unmasked,
/// sends SGI 3 to core 0 and arms the timer one second ahead.
pub fn s32z2_main(gic: &mut Gic, timer: &mut Timer) -> (r: Result<(), GicError>)
    requires
        old(gic)@.wf(),
    ensures
        final(gic)@.wf(),
        r is Ok,
        final(gic)@ == demo_gic(old(gic)@),
        final(timer)@ == demo_timer(old(timer)@),
{
    gic.setup(0)?;
    gic.set_priority_mask(DEMO_PRIORITY_MASK);
    let ghost g1 = gic@;

    let sgi = IntId::sgi(DEMO_SGI);
    gic.set_interrupt_priority(sgi, Some(0), DEMO_PRIORITY)?;
    gic.set_group(sgi, Some(0), Group::Group1NS)?;
    gic.enable_interrupt(sgi, Some(0), true)?;
    proof {
        overwrite_three(g1, 0, DEMO_SGI as int);
    }
    let ghost g2 = gic@;

    let timer_id = IntId::ppi(VIRTUAL_TIMER_INTID - 16);
    gic.set_interrupt_priority(timer_id, Some(0), DEMO_PRIORITY)?;
    gic.set_group(timer_id, Some(0), Group::Group1NS)?;
    gic.enable_interrupt(timer_id, Some(0), true)?;
    proof {
        overwrite_three(g2, 0, VIRTUAL_TIMER_INTID as int);
    }

    timer.enable(true);
    timer.interrupt_mask(false);
    timer.counter_compare_set(u64::MAX);

    let target = SgiTarget::List { affinity3: 0, affinity2: 0, affinity1: 0, target_list: 0b1 };
    gic.send_sgi(sgi, target, SgiTargetGroup::CurrentGroup1)?;

    let one_second = timer.frequency_hz();
    timer.countdown_set(one_second);
    Ok(())
}

} // verus!
