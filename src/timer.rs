//! The per-core generic timer: a free-running 64-bit counter with a compare
//! value, an enable bit and an interrupt mask.

use vstd::prelude::*;

verus! {

/// Ticks in one 32-bit countdown period.
pub const COUNTDOWN_PERIOD: u64 = 0x1_0000_0000;

/// Largest number of ticks that one countdown delay waits.
pub const MAX_DELAY_TICKS: u32 = 0xFFFF_FFFF;

/// Which of the two timers of a core a value stands for.
#[derive(Clone, Copy, Debug, PartialEq, Eq, Structural)]
pub enum TimerKind {
    /// The EL1 physical timer.
    Physical,
    /// The EL1 virtual timer.
    Virtual,
}

/// What a timer holds at one moment.
pub struct TimerState {
    pub kind: TimerKind,
    pub counter: u64,
    pub compare: u64,
    pub enabled: bool,
    pub masked: bool,
    pub frequency: u32,
}

/// The value `x + y` takes in 64 bits.
pub open spec fn wrap_add64(x: u64, y: u64) -> u64 {
    ((x as int + y as int) % 0x1_0000_0000_0000_0000) as u64
}

/// The value `x + y` takes in 32 bits.
pub open spec fn wrap_add32(x: u32, y: u32) -> u32 {
    ((x as int + y as int) % 0x1_0000_0000) as u32
}

/// The timer's interrupt condition: enabled, unmasked and the counter at or
/// past the compare value.
pub open spec fn pending(s: TimerState) -> bool {
    s.enabled && !s.masked && s.counter >= s.compare
}

/// Ticks left until the compare value, in 32 bits (a value past the compare
/// value reads as a negative number in two's complement).
pub open spec fn countdown_of(s: TimerState) -> u32 {
    ((s.compare as int - s.counter as int) % 0x1_0000_0000) as u32
}

/// The state after setting the compare value to `value`.
pub open spec fn with_compare(s: TimerState, value: u64) -> TimerState {
    TimerState { compare: value, ..s }
}

/// The state after a countdown of `delta` ticks is set: the compare value
/// becomes the counter plus `delta`.
pub open spec fn with_countdown(s: TimerState, delta: u32) -> TimerState {
    with_compare(s, wrap_add64(s.counter, delta as u64))
}

/// The ticks that `ms` milliseconds take at `frequency` Hz.
pub open spec fn ticks_for_ms(frequency: u32, ms: u32) -> int {
    (frequency as int * ms as int) / 1000
}

/// The ticks that `us` microseconds take at `frequency` Hz.
pub open spec fn ticks_for_us(frequency: u32, us: u32) -> int {
    (frequency as int * us as int) / 1_000_000
}

/// A model of one generic timer of a core.
pub struct Timer {
    kind: TimerKind,
    counter: u64,
    compare: u64,
    enabled: bool,
    masked: bool,
    frequency: u32,
}

impl View for Timer {
    type V = TimerState;

    closed spec fn view(&self) -> TimerState {
        TimerState {
            kind: self.kind,
            counter: self.counter,
            compare: self.compare,
            enabled: self.enabled,
            masked: self.masked,
            frequency: self.frequency,
        }
    }
}

impl Timer {
    /// A timer of the given kind, counting at `frequency` Hz from zero; it is
    /// disabled, unmasked and its compare value is zero.
    pub fn new(kind: TimerKind, frequency: u32) -> (r: Timer)
        ensures
            r@ == (TimerState {
                kind,
                counter: 0,
                compare: 0,
                enabled: false,
                masked: false,
                frequency,
            }),
    {
        Timer { kind, counter: 0, compare: 0, enabled: false, masked: false, frequency }
    }

    /// Which timer this is.
    pub fn kind(&self) -> (r: TimerKind)
        ensures
            r == self@.kind,
    {
        self.kind
    }

    /// The tick rate in Hz.
    pub fn frequency_hz(&self) -> (r: u32)
        ensures
            r == self@.frequency,
    {
        self.frequency
    }

    /// The free-running counter.
    pub fn counter(&self) -> (r: u64)
        ensures
            r == self@.counter,
    {
        self.counter
    }

    /// The compare value.
    pub fn counter_compare(&self) -> (r: u64)
        ensures
            r == self@.compare,
    {
        self.compare
    }

    /// Arms the timer to match when the counter reaches `value`.
    pub fn counter_compare_set(&mut self, value: u64)
        ensures
            final(self)@ == with_compare(old(self)@, value),
    {
        self.compare = value;
    }

    /// Ticks left until the compare value, in 32 bits.
    pub fn countdown(&self) -> (r: u32)
        ensures
            r == countdown_of(self@),
    {
        let d: u64 = self.compare.wrapping_sub(self.counter);
        (d % COUNTDOWN_PERIOD) as u32
    }

    /// Arms the timer to match `delta` ticks from now.
    pub fn countdown_set(&mut self, delta: u32)
        ensures
            final(self)@ == with_countdown(old(self)@, delta),
    {
        self.compare = self.counter.wrapping_add(delta as u64);
    }

    /// Whether the compare condition is evaluated at all.
    pub fn enabled(&self) -> (r: bool)
        ensures
            r == self@.enabled,
    {
        self.enabled
    }

    /// Enables or disables the timer.
    pub fn enable(&mut self, enabled: bool)
        ensures
            final(self)@ == (TimerState { enabled, ..old(self)@ }),
    {
        self.enabled = enabled;
    }

    /// Whether the timer's interrupt is masked.
    pub fn interrupt_masked(&self) -> (r: bool)
        ensures
            r == self@.masked,
    {
        self.masked
    }

    /// Masks or unmasks the timer's interrupt.
    pub fn interrupt_mask(&mut self, mask: bool)
        ensures
            final(self)@ == (TimerState { masked: mask, ..old(self)@ }),
    {
        self.masked = mask;
    }

    /// Whether the timer's interrupt condition holds now.
    pub fn interrupt_status(&self) -> (r: bool)
        ensures
            r == pending(self@),
    {
        self.enabled && !self.masked && self.counter >= self.compare
    }

    /// Lets `ticks` ticks pass; the counter wraps at 64 bits.
    pub fn advance(&mut self, ticks: u64)
        ensures
            final(self)@ == (TimerState { counter: wrap_add64(old(self)@.counter, ticks), ..old(self)@ }),
    {
        self.counter = self.counter.wrapping_add(ticks);
    }

    /// Waits `ticks` ticks by arming a countdown and polling until it
    /// expires, each poll taking one tick; the enable bit is restored after.
    pub fn delay_ticks(&mut self, ticks: u32)
        requires
            old(self)@.counter + ticks <= u64::MAX,
        ensures
            final(self)@ == (TimerState {
                counter: (old(self)@.counter + ticks) as u64,
                compare: (old(self)@.counter + ticks) as u64,
                ..old(self)@
            }),
    {
        let was_enabled = self.enabled;
        self.enable(true);
        self.countdown_set(ticks);
        while self.counter < self.compare
            invariant
                self.compare == old(self).counter + ticks,
                old(self).counter <= self.counter <= self.compare,
                self.enabled,
                self.kind == old(self).kind,
                self.masked == old(self).masked,
                self.frequency == old(self).frequency,
            decreases self.compare - self.counter,
        {
            self.counter = self.counter + 1;
        }
        if !was_enabled {
            self.enable(false);
        }
    }

    /// Waits `ms` milliseconds: `frequency * ms / 1000` ticks, in countdowns
    /// of at most `0xFFFF_FFFF` ticks each.
    pub fn delay_ms(&mut self, ms: u32)
        requires
            old(self)@.counter + ticks_for_ms(old(self)@.frequency, ms) <= u64::MAX,
        ensures
            final(self)@ == (TimerState {
                counter: (old(self)@.counter + ticks_for_ms(old(self)@.frequency, ms)) as u64,
                compare: (old(self)@.counter + ticks_for_ms(old(self)@.frequency, ms)) as u64,
                ..old(self)@
            }),
    {
        proof {
            lemma_product_fits(self.frequency, ms);
        }
        let ticks: u64 = (self.frequency as u64) * (ms as u64) / 1000;
        self.delay_long(ticks);
    }

    /// Waits `us` microseconds: `frequency * us / 1000000` ticks, in
    /// countdowns of at most `0xFFFF_FFFF` ticks each.
    pub fn delay_us(&mut self, us: u32)
        requires
            old(self)@.counter + ticks_for_us(old(self)@.frequency, us) <= u64::MAX,
        ensures
            final(self)@ == (TimerState {
                counter: (old(self)@.counter + ticks_for_us(old(self)@.frequency, us)) as u64,
                compare: (old(self)@.counter + ticks_for_us(old(self)@.frequency, us)) as u64,
                ..old(self)@
            }),
    {
        proof {
            lemma_product_fits(self.frequency, us);
        }
        let ticks: u64 = (self.frequency as u64) * (us as u64) / 1_000_000;
        self.delay_long(ticks);
    }

    /// Waits `ticks` ticks, which may exceed one countdown.
    fn delay_long(&mut self, ticks: u64)
        requires
            old(self)@.counter + ticks <= u64::MAX,
        ensures
            final(self)@ == (TimerState {
                counter: (old(self)@.counter + ticks) as u64,
                compare: (old(self)@.counter + ticks) as u64,
                ..old(self)@
            }),
    {
        let mut left: u64 = ticks;
        while left >= MAX_DELAY_TICKS as u64
            invariant
                self.counter + left == old(self).counter + ticks,
                old(self).counter + ticks <= u64::MAX,
                self.kind == old(self).kind,
                self.enabled == old(self).enabled,
                self.masked == old(self).masked,
                self.frequency == old(self).frequency,
            decreases left,
        {
            self.delay_ticks(MAX_DELAY_TICKS);
            left = left - MAX_DELAY_TICKS as u64;
        }
        self.delay_ticks(left as u32);
    }
}

/// The product of two 32-bit numbers fits in 64 bits.
proof fn lemma_product_fits(a: u32, b: u32)
    ensures
        a as int * b as int <= u64::MAX,
{
    assert(a as int * b as int <= 0xFFFF_FFFF * 0xFFFF_FFFF) by (nonlinear_arith)
        requires
            a <= 0xFFFF_FFFF,
            b <= 0xFFFF_FFFF,
    ;
}

/// Setting a countdown of `delta` ticks and reading the countdown back gives
/// `delta`; and setting the countdown is the same as setting the compare
/// value to the counter plus `delta`.
pub proof fn lemma_countdown_round_trip(s: TimerState, delta: u32)
    ensures
        countdown_of(with_countdown(s, delta)) == delta,
        with_countdown(s, delta) == with_compare(s, wrap_add64(s.counter, delta as u64)),
{
}

/// The timer's interrupt condition is exactly: enabled, unmasked and the
/// counter at or past the compare value; in particular it is false before
/// the counter reaches the compare value and true from the tick it does.
pub proof fn lemma_pending_iff(s: TimerState)
    ensures
        pending(s) <==> (s.enabled && !s.masked && s.counter >= s.compare),
        s.counter < s.compare ==> !pending(s),
        s.enabled && !s.masked && s.counter == s.compare ==> pending(s),
{
}

} // verus!
