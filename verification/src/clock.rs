//! A repeating frame timer, held as plain values and advanced by the engine's
//! own timer arithmetic.

use bevy::time::Timer;
use bevy::time::TimerMode;
use std::time::Duration;
use vstd::prelude::*;

verus! {

/// Nanoseconds in one second.
pub const NANOS_PER_SEC: u32 = 1_000_000_000;

/// A length of time: whole seconds and the nanoseconds beyond them.
#[derive(Debug, Clone, Copy, PartialEq, Eq, Structural)]
pub struct Span {
    pub secs: u64,
    pub nanos: u32,
}

impl View for Span {
    type V = nat;

    /// The length in nanoseconds.
    open spec fn view(&self) -> nat {
        (self.secs as nat) * (NANOS_PER_SEC as nat) + (self.nanos as nat)
    }
}

impl Span {
    /// The nanosecond part is less than one second.
    pub open spec fn wf(&self) -> bool {
        self.nanos < NANOS_PER_SEC
    }

    /// The empty length of time.
    pub fn zero() -> (span: Span)
        ensures
            span.wf(),
            span@ == 0,
            span == (Span { secs: 0, nanos: 0 }),
    {
        Span { secs: 0, nanos: 0 }
    }

    /// A length of `secs` seconds and `nanos` nanoseconds, or `None` where
    /// `nanos` is a full second or more.
    pub fn new(secs: u64, nanos: u32) -> (span: Option<Span>)
        ensures
            span.is_some() <==> nanos < NANOS_PER_SEC,
            span.is_some() ==> span.unwrap() == (Span { secs, nanos }) && span.unwrap().wf(),
    {
        if nanos < NANOS_PER_SEC {
            Some(Span { secs, nanos })
        } else {
            None
        }
    }

    /// Whether the nanosecond part is less than one second.
    pub fn is_valid(&self) -> (ok: bool)
        ensures
            ok == self.wf(),
    {
        self.nanos < NANOS_PER_SEC
    }
}

/// Two well-formed spans of the same length are the same span.
pub proof fn lemma_span_view_injective(a: Span, b: Span)
    requires
        a.wf(),
        b.wf(),
        a@ == b@,
    ensures
        a == b,
{
    assert(a.secs == b.secs) by (nonlinear_arith)
        requires
            (a.secs as nat) * 1_000_000_000 + (a.nanos as nat) == (b.secs as nat) * 1_000_000_000
                + (b.nanos as nat),
            a.nanos < 1_000_000_000,
            b.nanos < 1_000_000_000,
    ;
}

/// What one tick of the engine's repeating, unpaused timer gives: from the
/// timer's period, the time elapsed on it and the time to add, all in
/// nanoseconds, the time elapsed afterwards, as `Timer::elapsed` shows it, and
/// what `Timer::just_finished` then reports.
pub uninterp spec fn repeating_tick(period: nat, elapsed: nat, delta: nat) -> (nat, bool);

/// The longest time that the engine's clock can hold, in nanoseconds.
pub open spec fn longest_span() -> nat {
    (u64::MAX as nat) * (NANOS_PER_SEC as nat) + (NANOS_PER_SEC - 1) as nat
}

/// Whether `stated_tick` gives the outcome of a tick.
///
/// It does where the period is not reached, and where the period is zero.
/// Where a period above zero is reached, it does as long as the engine's
/// arithmetic stays within its number types: the sum within the clock's
/// range, the period within 64 bits of nanoseconds, and the number of
/// periods that ran out within 32 bits.
pub open spec fn tick_is_stated(period: nat, elapsed: nat, delta: nat) -> bool {
    let sum = elapsed + delta;
    ||| sum < period
    ||| period == 0
    ||| (sum <= longest_span() && period <= u64::MAX && sum / period <= u32::MAX)
}

/// The outcome of a tick, as far as `tick_is_stated` admits it: below the
/// period the times add up and the timer is silent; from the period on the
/// timer fires and keeps what is left over after the whole periods, which is
/// nothing for a period of zero.
pub open spec fn stated_tick(period: nat, elapsed: nat, delta: nat) -> (nat, bool) {
    let sum = elapsed + delta;
    if sum < period {
        (sum, false)
    } else if period == 0 {
        (0, true)
    } else {
        (sum % period, true)
    }
}

/// The outcome of a tick: the time elapsed afterwards and whether the timer
/// fired. It is written out where `tick_is_stated` holds, and is what the
/// engine's timer gives elsewhere.
pub open spec fn tick_outcome(period: nat, elapsed: nat, delta: nat) -> (nat, bool) {
    if tick_is_stated(period, elapsed, delta) {
        stated_tick(period, elapsed, delta)
    } else {
        repeating_tick(period, elapsed, delta)
    }
}

/// Calls `bevy::time::Timer::tick` on a fresh repeating timer of the given
/// period whose elapsed time was set to `elapsed`, and reads back
/// `Timer::elapsed` and `Timer::just_finished`.
///
/// Trusted: the pair is the one that `repeating_tick` names for the three
/// lengths; it is the pair that `stated_tick` writes out wherever
/// `tick_is_stated` holds, which is how the engine's timer adds the time,
/// compares it with the period and keeps the remainder; and the elapsed time
/// read back has a nanosecond part below one second, as
/// `Duration::subsec_nanos` documents.
#[verifier::external_body]
fn tick_repeating(period: Span, elapsed: Span, delta: Span) -> (out: (Span, bool))
    requires
        period.wf(),
        elapsed.wf(),
        delta.wf(),
    ensures
        out.0.wf(),
        (out.0@, out.1) == repeating_tick(period@, elapsed@, delta@),
        tick_is_stated(period@, elapsed@, delta@) ==> (out.0@, out.1) == stated_tick(
            period@,
            elapsed@,
            delta@,
        ),
{
    let mut timer = Timer::new(Duration::new(period.secs, period.nanos), TimerMode::Repeating);
    timer.set_elapsed(Duration::new(elapsed.secs, elapsed.nanos));
    timer.tick(Duration::new(delta.secs, delta.nanos));
    let left = timer.elapsed();
    (Span { secs: left.as_secs(), nanos: left.subsec_nanos() }, timer.just_finished())
}

/// A repeating timer that is never paused: the period after which it fires
/// and the time elapsed since it last fired or was reset.
#[derive(Debug, Clone, Copy, PartialEq, Eq, Structural)]
pub struct FrameTimer {
    pub period: Span,
    pub elapsed: Span,
}

impl FrameTimer {
    /// Both lengths of time are well formed.
    pub open spec fn wf(&self) -> bool {
        self.period.wf() && self.elapsed.wf()
    }

    /// Whether a tick by `delta` makes this timer fire.
    pub open spec fn fires(&self, delta: Span) -> bool {
        tick_outcome(self.period@, self.elapsed@, delta@).1
    }

    /// The timer after `reset`: the same period, nothing elapsed.
    pub open spec fn restarted(&self) -> FrameTimer {
        FrameTimer { period: self.period, elapsed: Span { secs: 0, nanos: 0 } }
    }

    /// Whether `next` is this timer after a tick by `delta`: the same period,
    /// and the elapsed time that the tick's outcome gives.
    pub open spec fn ticks_to(&self, delta: Span, next: FrameTimer) -> bool {
        &&& next.period == self.period
        &&& next.elapsed.wf()
        &&& next.elapsed@ == tick_outcome(self.period@, self.elapsed@, delta@).0
    }

    /// Whether both lengths of time are well formed.
    pub fn is_valid(&self) -> (ok: bool)
        ensures
            ok == self.wf(),
    {
        self.period.is_valid() && self.elapsed.is_valid()
    }

    /// A timer of the given period with nothing elapsed.
    pub fn new(period: Span) -> (timer: FrameTimer)
        ensures
            timer == (FrameTimer { period, elapsed: Span { secs: 0, nanos: 0 } }),
            period.wf() ==> timer.wf(),
    {
        FrameTimer { period, elapsed: Span::zero() }
    }

    /// Starts the current period over.
    pub fn reset(&mut self)
        ensures
            *final(self) == old(self).restarted(),
            old(self).wf() ==> final(self).wf(),
    {
        self.elapsed = Span::zero();
    }

    /// Advances the timer by `delta` and tells whether it fired.
    pub fn tick(&mut self, delta: Span) -> (fired: bool)
        requires
            old(self).wf(),
            delta.wf(),
        ensures
            fired == old(self).fires(delta),
            old(self).ticks_to(delta, *final(self)),
            final(self).wf(),
    {
        let (left, fired) = tick_repeating(self.period, self.elapsed, delta);
        self.elapsed = left;
        fired
    }
}

/// A tick has one outcome: two timers that a tick by `delta` may leave behind
/// are the same timer.
pub proof fn lemma_tick_is_determined(timer: FrameTimer, delta: Span, a: FrameTimer, b: FrameTimer)
    requires
        timer.ticks_to(delta, a),
        timer.ticks_to(delta, b),
    ensures
        a == b,
{
    lemma_span_view_injective(a.elapsed, b.elapsed);
}

/// A tick that does not reach the period adds its time to the elapsed time
/// and leaves the timer silent.
pub proof fn lemma_short_tick_adds_up(timer: FrameTimer, delta: Span)
    requires
        timer.elapsed@ + delta@ < timer.period@,
    ensures
        !timer.fires(delta),
        tick_outcome(timer.period@, timer.elapsed@, delta@).0 == timer.elapsed@ + delta@,
{
}

/// A tick that reaches the period fires, wherever its outcome is written
/// out.
pub proof fn lemma_full_tick_fires(timer: FrameTimer, delta: Span)
    requires
        timer.elapsed@ + delta@ >= timer.period@,
        tick_is_stated(timer.period@, timer.elapsed@, delta@),
    ensures
        timer.fires(delta),
{
}

/// After a tick whose outcome is written out, the elapsed time is below the
/// period, unless the period is zero: the timer never owes a whole period.
pub proof fn lemma_elapsed_stays_below_period(period: nat, elapsed: nat, delta: nat)
    requires
        period > 0,
        tick_is_stated(period, elapsed, delta),
    ensures
        tick_outcome(period, elapsed, delta).0 < period,
{
    let sum = elapsed + delta;
    if sum >= period {
        assert(sum % period < period) by (nonlinear_arith)
            requires
                period > 0,
        ;
    }
}

} // verus!
