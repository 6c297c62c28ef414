//! A single-shot or repeating countdown over integer milliseconds.
//!
//! Every timed entity of the simulation (bomb fuses, hit-flash windows,
//! death fade-outs, spawn cadences, wave announcements) is driven by this
//! primitive. `tick` advances the elapsed time; a one-shot timer saturates
//! at its duration and reports `just_finished` exactly on the tick that
//! crosses it, a repeating timer wraps and re-arms.

use vstd::prelude::*;

verus! {

use vstd::arithmetic::div_mod::lemma_div_by_multiple;
use vstd::arithmetic::div_mod::lemma_div_is_ordered;

/// Whether a timer stops at its duration or wraps around and re-arms.
#[derive(Clone, Copy, Debug, PartialEq, Eq, Structural)]
pub enum TimerMode {
    Once,
    Repeating,
}

/// A duration counter advanced once per simulation step by elapsed time.
#[derive(Clone, Copy, Debug, PartialEq, Eq, Structural)]
pub struct Timer {
    /// Total duration of one run, in milliseconds.
    pub duration_ms: u64,
    /// Time accumulated so far, in milliseconds.
    pub elapsed_ms: u64,
    /// One-shot or repeating.
    pub mode: TimerMode,
    /// True once the duration has been reached (for a repeating timer: true
    /// exactly in the ticks in which it wrapped).
    pub finished: bool,
    /// True exactly for the tick call that crossed the duration boundary.
    pub just_finished: bool,
}

impl Timer {
    /// Internal consistency of a timer value.
    pub open spec fn wf(self) -> bool {
        match self.mode {
            TimerMode::Once => {
                &&& self.elapsed_ms <= self.duration_ms
                &&& self.finished ==> self.elapsed_ms == self.duration_ms
                &&& self.just_finished ==> self.finished
            },
            TimerMode::Repeating => {
                &&& self.duration_ms > 0 ==> self.elapsed_ms < self.duration_ms
                &&& self.duration_ms == 0 ==> self.elapsed_ms == 0
                &&& self.just_finished == self.finished
            },
        }
    }

    /// The timer value after one `tick` by `delta_ms`.
    pub open spec fn spec_tick(self, delta_ms: u64) -> Timer {
        match self.mode {
            TimerMode::Once => {
                if self.finished {
                    Timer { just_finished: false, ..self }
                } else if self.elapsed_ms + delta_ms >= self.duration_ms {
                    Timer {
                        elapsed_ms: self.duration_ms,
                        finished: true,
                        just_finished: true,
                        ..self
                    }
                } else {
                    Timer {
                        elapsed_ms: (self.elapsed_ms + delta_ms) as u64,
                        finished: false,
                        just_finished: false,
                        ..self
                    }
                }
            },
            TimerMode::Repeating => {
                if self.duration_ms == 0 {
                    Timer { elapsed_ms: 0, finished: true, just_finished: true, ..self }
                } else if self.elapsed_ms + delta_ms >= self.duration_ms {
                    Timer {
                        elapsed_ms: ((self.elapsed_ms + delta_ms) % (self.duration_ms as int)) as u64,
                        finished: true,
                        just_finished: true,
                        ..self
                    }
                } else {
                    Timer {
                        elapsed_ms: (self.elapsed_ms + delta_ms) as u64,
                        finished: false,
                        just_finished: false,
                        ..self
                    }
                }
            },
        }
    }

    /// Fraction of the duration elapsed, in permille; 1000 for a
    /// zero-duration timer, so that it never divides by zero.
    pub open spec fn spec_fraction_permille(self) -> int {
        if self.duration_ms == 0 {
            1000
        } else {
            self.elapsed_ms * 1000 / self.duration_ms as int
        }
    }

    /// Milliseconds left until the duration is reached.
    pub open spec fn spec_remaining_ms(self) -> int {
        self.duration_ms - self.elapsed_ms
    }

    /// A fresh timer value with the given duration and mode.
    pub open spec fn spec_new(duration_ms: u64, mode: TimerMode) -> Timer {
        Timer { duration_ms, elapsed_ms: 0, mode, finished: false, just_finished: false }
    }

    /// A fresh timer with the given duration and mode.
    pub fn new(duration_ms: u64, mode: TimerMode) -> (t: Timer)
        ensures
            t.wf(),
            t == Timer::spec_new(duration_ms, mode),
            t.duration_ms == duration_ms,
            t.elapsed_ms == 0,
            t.mode == mode,
            !t.finished,
            !t.just_finished,
    {
        Timer { duration_ms, elapsed_ms: 0, mode, finished: false, just_finished: false }
    }

    /// Advance the timer by `delta_ms` milliseconds.
    ///
    /// A one-shot timer saturates at its duration and reports
    /// `just_finished` only on the crossing tick; a repeating timer wraps
    /// its elapsed time and reports `just_finished` on every tick in which
    /// it wrapped.
    pub fn tick(&mut self, delta_ms: u64)
        requires
            old(self).wf(),
        ensures
            final(self).wf(),
            *final(self) == old(self).spec_tick(delta_ms),
    {
        match self.mode {
            TimerMode::Once => {
                if self.finished {
                    self.just_finished = false;
                } else {
                    let room: u64 = self.duration_ms - self.elapsed_ms;
                    if delta_ms >= room {
                        self.elapsed_ms = self.duration_ms;
                        self.finished = true;
                        self.just_finished = true;
                    } else {
                        self.elapsed_ms = self.elapsed_ms + delta_ms;
                        self.finished = false;
                        self.just_finished = false;
                    }
                }
            },
            TimerMode::Repeating => {
                if self.duration_ms == 0 {
                    self.elapsed_ms = 0;
                    self.finished = true;
                    self.just_finished = true;
                } else {
                    let total: u128 = self.elapsed_ms as u128 + delta_ms as u128;
                    if total >= self.duration_ms as u128 {
                        self.elapsed_ms = (total % self.duration_ms as u128) as u64;
                        self.finished = true;
                        self.just_finished = true;
                    } else {
                        self.elapsed_ms = self.elapsed_ms + delta_ms;
                        self.finished = false;
                        self.just_finished = false;
                    }
                }
            },
        }
    }

    /// True exactly for the tick call that crossed the duration boundary.
    pub fn just_finished(&self) -> (r: bool)
        ensures
            r == self.just_finished,
    {
        self.just_finished
    }

    /// True once the duration has been reached (for a repeating timer, only
    /// in the ticks in which it wrapped).
    pub fn finished(&self) -> (r: bool)
        ensures
            r == self.finished,
    {
        self.finished
    }

    /// Zero the elapsed time and clear the finished flags.
    pub fn reset(&mut self)
        ensures
            final(self).wf(),
            final(self).duration_ms == old(self).duration_ms,
            final(self).mode == old(self).mode,
            final(self).elapsed_ms == 0,
            !final(self).finished,
            !final(self).just_finished,
    {
        self.elapsed_ms = 0;
        self.finished = false;
        self.just_finished = false;
    }

    /// Elapsed fraction of the duration, in permille, clamped to
    /// `[0, 1000]`; 1000 when the duration is zero.
    pub fn fraction_permille(&self) -> (r: u64)
        requires
            self.wf(),
        ensures
            r == self.spec_fraction_permille(),
            r <= 1000,
    {
        if self.duration_ms == 0 {
            1000
        } else {
            proof {
                lemma_div_is_ordered(
                    self.elapsed_ms * 1000,
                    self.duration_ms * 1000,
                    self.duration_ms as int,
                );
                lemma_div_by_multiple(1000, self.duration_ms as int);
            }
            ((self.elapsed_ms as u128 * 1000) / self.duration_ms as u128) as u64
        }
    }

    /// Remaining fraction of the duration, in permille.
    pub fn fraction_remaining_permille(&self) -> (r: u64)
        requires
            self.wf(),
        ensures
            r == 1000 - self.spec_fraction_permille(),
    {
        1000 - self.fraction_permille()
    }

    /// Milliseconds left until the duration is reached.
    pub fn remaining_ms(&self) -> (r: u64)
        requires
            self.wf(),
        ensures
            r == self.spec_remaining_ms(),
    {
        if self.elapsed_ms > self.duration_ms {
            0
        } else {
            self.duration_ms - self.elapsed_ms
        }
    }
}

/// Sum of a sequence of tick deltas, in milliseconds.
pub open spec fn sum_ms(ds: Seq<u64>) -> int
    decreases ds.len(),
{
    if ds.len() == 0 {
        0
    } else {
        ds[0] + sum_ms(ds.drop_first())
    }
}

/// The timer value after ticking once per element of `ds`, in order.
pub open spec fn spec_ticks(t: Timer, ds: Seq<u64>) -> Timer
    decreases ds.len(),
{
    if ds.len() == 0 {
        t
    } else {
        spec_ticks(t.spec_tick(ds[0]), ds.drop_first())
    }
}

/// How many of the ticks in `ds` report `just_finished`.
pub open spec fn fire_count(t: Timer, ds: Seq<u64>) -> nat
    decreases ds.len(),
{
    if ds.len() == 0 {
        0
    } else {
        (if t.spec_tick(ds[0]).just_finished {
            1nat
        } else {
            0nat
        }) + fire_count(t.spec_tick(ds[0]), ds.drop_first())
    }
}

/// Ticking preserves timer well-formedness.
pub proof fn lemma_tick_wf(t: Timer, delta_ms: u64)
    requires
        t.wf(),
    ensures
        t.spec_tick(delta_ms).wf(),
{
    if t.mode == TimerMode::Repeating && t.duration_ms > 0 && t.elapsed_ms + delta_ms
        >= t.duration_ms {
        vstd::arithmetic::div_mod::lemma_mod_bound(
            t.elapsed_ms + delta_ms,
            t.duration_ms as int,
        );
    }
}

/// A finished one-shot timer never reports `just_finished` again, however
/// often it is ticked, until it is reset.
pub proof fn lemma_once_finished_stays_quiet(t: Timer, ds: Seq<u64>)
    requires
        t.wf(),
        t.mode == TimerMode::Once,
        t.finished,
    ensures
        fire_count(t, ds) == 0,
        spec_ticks(t, ds).finished,
        spec_ticks(t, ds).wf(),
    decreases ds.len(),
{
    if ds.len() > 0 {
        lemma_once_finished_stays_quiet(t.spec_tick(ds[0]), ds.drop_first());
    }
}

/// An empty sequence of deltas sums to zero; a positive sum needs at least
/// one delta.
proof fn lemma_sum_empty(ds: Seq<u64>)
    requires
        ds.len() == 0,
    ensures
        sum_ms(ds) == 0,
{
}

/// A one-shot timer whose run of ticks accumulates at least its remaining
/// time reports `just_finished` on exactly one of those ticks.
pub proof fn lemma_once_fires_exactly_once(t: Timer, ds: Seq<u64>)
    requires
        t.wf(),
        t.mode == TimerMode::Once,
        !t.finished,
        ds.len() >= 1,
        t.elapsed_ms + sum_ms(ds) >= t.duration_ms,
    ensures
        fire_count(t, ds) == 1,
    decreases ds.len(),
{
    let t1 = t.spec_tick(ds[0]);
    let rest = ds.drop_first();
    if t.elapsed_ms + ds[0] >= t.duration_ms {
        lemma_once_finished_stays_quiet(t1, rest);
    } else {
        if rest.len() == 0 {
            lemma_sum_empty(rest);
            assert(false);
        }
        lemma_once_fires_exactly_once(t1, rest);
    }
}

/// Within one run of a one-shot timer the elapsed fraction never
/// decreases: each tick only moves it towards 1000.
pub proof fn lemma_once_fraction_monotone(t: Timer, delta_ms: u64)
    requires
        t.wf(),
        t.mode == TimerMode::Once,
    ensures
        t.spec_tick(delta_ms).spec_fraction_permille() >= t.spec_fraction_permille(),
{
    let t1 = t.spec_tick(delta_ms);
    if t.duration_ms > 0 {
        lemma_div_is_ordered(
            t.elapsed_ms * 1000,
            t1.elapsed_ms * 1000,
            t.duration_ms as int,
        );
    }
}

/// Over any whole run of ticks a one-shot timer's elapsed fraction is
/// monotonically non-decreasing, until a reset intervenes.
pub proof fn lemma_once_fraction_monotone_run(t: Timer, ds: Seq<u64>)
    requires
        t.wf(),
        t.mode == TimerMode::Once,
    ensures
        spec_ticks(t, ds).spec_fraction_permille() >= t.spec_fraction_permille(),
    decreases ds.len(),
{
    if ds.len() > 0 {
        lemma_once_fraction_monotone(t, ds[0]);
        lemma_tick_wf(t, ds[0]);
        lemma_once_fraction_monotone_run(t.spec_tick(ds[0]), ds.drop_first());
    }
}

} // verus!
