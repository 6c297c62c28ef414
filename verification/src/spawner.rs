//! Per-wave, per-subtype spawn cadence: once per rate interval a spawner
//! may emit one enemy, bounded by a concurrency cap and a total quota.
//! When the quota is reached the spawner turns inert (`all_spawned`) and
//! stays so until the wave director cleans it up.

use vstd::prelude::*;

verus! {

use crate::enemy::EnemyKind;
use crate::timer::Timer;
use crate::timer::TimerMode;

/// Rate-limited spawn controller for one enemy subtype.
#[derive(Clone, Copy, Debug, PartialEq, Eq, Structural)]
pub struct Spawner {
    /// Which enemy subtype this spawner emits.
    pub kind: EnemyKind,
    /// True exactly when the whole quota has been spawned.
    pub all_spawned: bool,
    /// Total number of enemies this spawner may ever emit.
    pub limit: u32,
    /// Spawning pauses while more than this many of the governed subtype
    /// are alive.
    pub max_at_once: u32,
    /// How many enemies have been emitted so far.
    pub spawned: u32,
    /// Repeating rate timer; one spawn opportunity per wrap.
    pub timer: Timer,
}

impl Spawner {
    pub open spec fn wf(self) -> bool {
        &&& self.spawned <= self.limit
        &&& self.all_spawned == (self.spawned == self.limit)
        &&& self.timer.wf()
        &&& self.timer.mode == TimerMode::Repeating
    }

    /// A fresh spawner; a zero quota starts out already exhausted.
    pub fn new(kind: EnemyKind, limit: u32, max_at_once: u32, rate_ms: u64) -> (s: Spawner)
        ensures
            s.wf(),
            s.kind == kind,
            s.limit == limit,
            s.max_at_once == max_at_once,
            s.spawned == 0,
            s.all_spawned == (limit == 0),
            s.timer == Timer::spec_new(rate_ms, TimerMode::Repeating),
    {
        Spawner {
            kind,
            all_spawned: limit == 0,
            limit,
            max_at_once,
            spawned: 0,
            timer: Timer::new(rate_ms, TimerMode::Repeating),
        }
    }

    /// The spawner after one step of `delta_ms` while `alive` enemies of
    /// its subtype live, paired with whether it emits an enemy now.
    ///
    /// The rate timer only runs while the spawner could spawn at all: the
    /// concurrency cap admits one more enemy and the quota is not
    /// exhausted. Reaching the quota flips `all_spawned` for good.
    pub open spec fn spec_tick(self, alive: u64, delta_ms: u64) -> (Spawner, bool) {
        if alive <= self.max_at_once && !self.all_spawned && self.spawned < self.limit {
            let ticked = self.timer.spec_tick(delta_ms);
            if ticked.just_finished {
                let spawned = (self.spawned + 1) as u32;
                (
                    Spawner {
                        all_spawned: spawned == self.limit,
                        spawned,
                        timer: ticked,
                        ..self
                    },
                    true,
                )
            } else {
                (Spawner { timer: ticked, ..self }, false)
            }
        } else {
            (self, false)
        }
    }

    /// Advance the spawner by one step; returns true when it emits one
    /// enemy now.
    pub fn tick(&mut self, alive: u64, delta_ms: u64) -> (spawn_now: bool)
        requires
            old(self).wf(),
        ensures
            (*final(self), spawn_now) == old(self).spec_tick(alive, delta_ms),
            final(self).wf(),
            final(self).kind == old(self).kind,
            final(self).limit == old(self).limit,
            final(self).max_at_once == old(self).max_at_once,
            old(self).all_spawned ==> *final(self) == *old(self) && !spawn_now,
            spawn_now ==> final(self).spawned == old(self).spawned + 1,
            !spawn_now ==> final(self).spawned == old(self).spawned,
            final(self).all_spawned == (final(self).spawned == final(self).limit),
    {
        if alive <= self.max_at_once as u64 && !self.all_spawned && self.spawned < self.limit {
            self.timer.tick(delta_ms);
            if self.timer.just_finished() {
                self.spawned = self.spawned + 1;
                if self.spawned == self.limit {
                    self.all_spawned = true;
                }
                true
            } else {
                false
            }
        } else {
            false
        }
    }
}

/// The spawner state after a whole run of steps, paired with how many
/// enemies the run emitted; each step supplies its own alive count and
/// elapsed time.
pub open spec fn spec_run(s: Spawner, steps: Seq<(u64, u64)>) -> (Spawner, int)
    decreases steps.len(),
{
    if steps.len() == 0 {
        (s, 0)
    } else {
        let (s1, emitted) = s.spec_tick(steps[0].0, steps[0].1);
        let (s2, rest) = spec_run(s1, steps.drop_first());
        (s2, (if emitted { 1int } else { 0int }) + rest)
    }
}

/// An exhausted spawner is inert: once `all_spawned` holds, no run of
/// further steps emits anything or changes the spawner, regardless of how
/// much time elapses.
pub proof fn lemma_exhausted_spawner_is_inert(s: Spawner, steps: Seq<(u64, u64)>)
    requires
        s.wf(),
        s.all_spawned,
    ensures
        spec_run(s, steps) == (s, 0int),
    decreases steps.len(),
{
    if steps.len() > 0 {
        lemma_exhausted_spawner_is_inert(s, steps.drop_first());
    }
}

/// A whole run never emits more than the quota leaves open, and after a
/// run that emitted the rest of the quota the spawner reports
/// `all_spawned`.
pub proof fn lemma_spawner_never_exceeds_quota(s: Spawner, steps: Seq<(u64, u64)>)
    requires
        s.wf(),
    ensures
        spec_run(s, steps).0.wf(),
        spec_run(s, steps).0.limit == s.limit,
        spec_run(s, steps).1 == spec_run(s, steps).0.spawned - s.spawned,
        spec_run(s, steps).1 <= s.limit - s.spawned,
        spec_run(s, steps).0.all_spawned == (spec_run(s, steps).0.spawned == s.limit),
    decreases steps.len(),
{
    if steps.len() > 0 {
        let (s1, _) = s.spec_tick(steps[0].0, steps[0].1);
        if s.spawned < s.limit && !s.all_spawned && steps[0].0 <= s.max_at_once {
            crate::timer::lemma_tick_wf(s.timer, steps[0].1);
        }
        lemma_spawner_never_exceeds_quota(s1, steps.drop_first());
    }
}

} // verus!
