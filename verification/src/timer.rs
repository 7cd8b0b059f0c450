//! A repeating countdown that is advanced once per frame.
//!
//! The timer holds its period and the time accumulated since it last
//! fired, both in nanoseconds. The arithmetic of a tick is done by the
//! repeating `Timer` of the `bevy` engine.

use vstd::prelude::*;
use bevy::time::{Timer, TimerMode};
use std::time::Duration;

verus! {

/// The time that a repeating timer holds after a tick: what is left of
/// the accumulated time when every whole period is taken out. A timer
/// with a period of 0 holds nothing.
pub open spec fn ticked_elapsed(period: int, elapsed: int, delta: int) -> int {
    if period == 0 {
        0
    } else {
        (elapsed + delta) % period
    }
}

/// Whether a repeating timer fires on a tick: the accumulated time has
/// reached the period.
pub open spec fn ticked_finished(period: int, elapsed: int, delta: int) -> bool {
    elapsed + delta >= period
}

/// One call of `Timer::tick` of `bevy` on an unpaused repeating timer with
/// this period that has accumulated `elapsed`, all in nanoseconds. Returns
/// what `Timer::elapsed` and `Timer::finished` give after the call.
///
/// The contract claims what the source of `tick` does for such a timer: it
/// adds `delta`, reports whether the sum has reached the period, and keeps
/// the remainder of the sum modulo the period (zero for a period of zero).
#[verifier::external_body]
fn tick_repeating(period: u64, elapsed: u64, delta: u64) -> (out: (u64, bool))
    ensures
        out.0 == ticked_elapsed(period as int, elapsed as int, delta as int),
        out.1 == ticked_finished(period as int, elapsed as int, delta as int),
{
    let mut timer = Timer::new(Duration::from_nanos(period), TimerMode::Repeating);
    timer.set_elapsed(Duration::from_nanos(elapsed));
    timer.tick(Duration::from_nanos(delta));
    (timer.elapsed().as_nanos() as u64, timer.finished())
}

/// A repeating timer.
#[derive(Clone, Copy, Debug, PartialEq, Eq, Structural)]
pub struct SpawnTimer {
    period: u64,
    elapsed: u64,
    finished: bool,
}

impl SpawnTimer {
    /// The period, in nanoseconds.
    pub closed spec fn period_of(self) -> int {
        self.period as int
    }

    /// The time accumulated since the timer last fired, in nanoseconds.
    pub closed spec fn elapsed_of(self) -> int {
        self.elapsed as int
    }

    /// Whether the last tick made the timer fire.
    pub closed spec fn is_finished(self) -> bool {
        self.finished
    }

    /// The accumulated time is less than the period, or zero where the
    /// period is zero.
    pub open spec fn wf(self) -> bool {
        0 <= self.elapsed_of() && 0 <= self.period_of() && if self.period_of() == 0 {
            self.elapsed_of() == 0
        } else {
            self.elapsed_of() < self.period_of()
        }
    }

    /// A timer with this period that has accumulated nothing and has not
    /// fired.
    pub fn new(period: u64) -> (timer: SpawnTimer)
        ensures
            timer.period_of() == period,
            timer.elapsed_of() == 0,
            !timer.is_finished(),
            timer.wf(),
    {
        SpawnTimer { period, elapsed: 0, finished: false }
    }

    /// Advances the timer by `delta` nanoseconds. The timer fires when the
    /// accumulated time reaches the period; it then keeps what is left
    /// beyond the last whole period.
    pub fn tick(&mut self, delta: u64)
        ensures
            final(self).period_of() == old(self).period_of(),
            final(self).elapsed_of() == ticked_elapsed(
                old(self).period_of(),
                old(self).elapsed_of(),
                delta as int,
            ),
            final(self).is_finished() == ticked_finished(
                old(self).period_of(),
                old(self).elapsed_of(),
                delta as int,
            ),
            final(self).wf(),
    {
        let (elapsed, finished) = tick_repeating(self.period, self.elapsed, delta);
        self.elapsed = elapsed;
        self.finished = finished;
    }

    /// Whether the last tick made the timer fire. Holds until the next
    /// tick.
    pub fn finished(&self) -> (out: bool)
        ensures
            out == self.is_finished(),
    {
        self.finished
    }

    /// The time accumulated since the timer last fired, in nanoseconds.
    pub fn elapsed(&self) -> (out: u64)
        ensures
            out == self.elapsed_of(),
    {
        self.elapsed
    }

    /// The period, in nanoseconds.
    pub fn period(&self) -> (out: u64)
        ensures
            out == self.period_of(),
    {
        self.period
    }
}

/// A tick that stays short of the period accumulates and does not fire.
pub proof fn lemma_tick_accumulates(period: int, elapsed: int, delta: int)
    requires
        0 <= elapsed,
        0 <= delta,
        elapsed + delta < period,
    ensures
        ticked_elapsed(period, elapsed, delta) == elapsed + delta,
        !ticked_finished(period, elapsed, delta),
{
    vstd::arithmetic::div_mod::lemma_small_mod((elapsed + delta) as nat, period as nat);
}

/// A tick that reaches the period but not twice the period fires and keeps
/// the time beyond the period.
pub proof fn lemma_tick_wraps(period: int, elapsed: int, delta: int)
    requires
        0 <= elapsed,
        0 <= delta,
        0 < period <= elapsed + delta < 2 * period,
    ensures
        ticked_elapsed(period, elapsed, delta) == elapsed + delta - period,
        ticked_finished(period, elapsed, delta),
{
    vstd::arithmetic::div_mod::lemma_fundamental_div_mod_converse(
        elapsed + delta,
        period,
        1,
        elapsed + delta - period,
    );
}

} // verus!
