//! The wave director: the top level controller cycling through
//! `Announce -> Init -> Running -> Done -> Announce(next)` forever, with
//! an escalation policy that alternates between allowing more concurrent
//! enemies and raising the total quota.

use vstd::prelude::*;

verus! {

use crate::enemy::EnemyKind;
use crate::spawner::Spawner;
use crate::timer::Timer;
use crate::timer::TimerMode;

/// How long the wave banner is announced before spawning begins, in
/// milliseconds.
pub const ANNOUNCE_MS: u64 = 3000;

/// Interval between spawn opportunities of one spawner, in milliseconds.
pub const SPAWN_RATE_MS: u64 = 1000;

/// Round configuration, escalated between rounds.
#[derive(Clone, Copy, Debug, PartialEq, Eq, Structural)]
pub struct Wave {
    /// Round number, announced to the player; starts at one.
    pub level: u32,
    /// Total spawn quota handed to each spawner.
    pub limit: u32,
    /// How much the quota grows in a round that does not raise the
    /// concurrency cap.
    pub limit_growth: u32,
    /// Concurrency cap handed to each spawner.
    pub max_at_once: u32,
}

/// The wave configuration after one completed round: the level always
/// advances; while the concurrency cap lags behind a third of the quota
/// it catches up by one, otherwise the quota grows instead.
pub open spec fn spec_escalate(w: Wave) -> Wave {
    let level = if w.level == u32::MAX {
        w.level
    } else {
        (w.level + 1) as u32
    };
    if w.max_at_once < w.limit / 3 {
        Wave { level, max_at_once: (w.max_at_once + 1) as u32, ..w }
    } else {
        let limit = if w.limit + w.limit_growth > u32::MAX {
            u32::MAX
        } else {
            (w.limit + w.limit_growth) as u32
        };
        Wave { level, limit, ..w }
    }
}

impl Wave {
    /// The configuration of the first round.
    pub fn initial() -> (w: Wave)
        ensures
            w == (Wave { level: 1, limit: 5, limit_growth: 2, max_at_once: 2 }),
    {
        Wave { level: 1, limit: 5, limit_growth: 2, max_at_once: 2 }
    }

    /// Apply the escalation policy for the next round. The counters
    /// saturate at the integer ceiling, far beyond any reachable round.
    pub fn escalate(&mut self)
        ensures
            *final(self) == spec_escalate(*old(self)),
            final(self).limit_growth == old(self).limit_growth,
            old(self).level < u32::MAX ==> final(self).level == old(self).level + 1,
            old(self).max_at_once < old(self).limit / 3 ==> final(self).max_at_once == old(
                self,
            ).max_at_once + 1 && final(self).limit == old(self).limit,
            old(self).max_at_once >= old(self).limit / 3 && old(self).limit + old(
                self,
            ).limit_growth <= u32::MAX ==> final(self).limit == old(self).limit + old(
                self,
            ).limit_growth && final(self).max_at_once == old(self).max_at_once,
    {
        if self.level < u32::MAX {
            self.level = self.level + 1;
        }
        if self.max_at_once < self.limit / 3 {
            self.max_at_once = self.max_at_once + 1;
        } else {
            if self.limit > u32::MAX - self.limit_growth {
                self.limit = u32::MAX;
            } else {
                self.limit = self.limit + self.limit_growth;
            }
        }
    }
}

/// Where the director stands in the announce/spawn/run/cleanup cycle.
#[derive(Clone, Copy, Debug, PartialEq, Eq, Structural)]
pub enum WaveState {
    /// No wave configured yet; waiting for gameplay to start.
    Idle,
    /// Showing the wave banner for a fixed duration.
    Announce,
    /// Instantiating one spawner per enemy subtype.
    Init,
    /// Waiting for every spawner to exhaust its quota and every enemy to
    /// die.
    Running,
    /// Cleaning up spawners and escalating before the next announce.
    Done,
}

/// Every spawner of the wave has exhausted its quota.
pub open spec fn spec_all_spawned(ss: Seq<Spawner>) -> bool {
    forall|i: int| 0 <= i < ss.len() ==> ss[i].all_spawned
}

/// The wave completion predicate: true exactly when no enemy is alive
/// and every spawner has spawned its whole quota.
pub fn wave_complete(live_enemies: u64, spawners: &Vec<Spawner>) -> (r: bool)
    ensures
        r == (live_enemies == 0 && spec_all_spawned(spawners@)),
{
    if live_enemies != 0 {
        return false;
    }
    let mut i: usize = 0;
    while i < spawners.len()
        invariant
            0 <= i <= spawners.len(),
            forall|j: int| 0 <= j < i ==> spawners@[j].all_spawned,
        decreases spawners.len() - i,
    {
        if !spawners[i].all_spawned {
            return false;
        }
        i = i + 1;
    }
    true
}

/// How many of the counted enemies a spawner of the given kind governs.
pub open spec fn spec_alive_of(kind: EnemyKind, alive_flying: u64, alive_ground: u64, alive_bomber: u64) -> u64 {
    match kind {
        EnemyKind::Flying => alive_flying,
        EnemyKind::Ground => alive_ground,
        EnemyKind::Bomber => alive_bomber,
    }
}

/// The spawners after every one of them took its step.
pub open spec fn spec_ticked_spawners(
    ss: Seq<Spawner>,
    alive_flying: u64,
    alive_ground: u64,
    alive_bomber: u64,
    delta_ms: u64,
) -> Seq<Spawner> {
    ss.map_values(
        |s: Spawner| s.spec_tick(
            spec_alive_of(s.kind, alive_flying, alive_ground, alive_bomber),
            delta_ms,
        ).0,
    )
}

/// The subtypes to spawn this step: one entry per spawner whose step
/// emitted an enemy, in spawner order.
pub open spec fn spec_spawn_requests(
    ss: Seq<Spawner>,
    alive_flying: u64,
    alive_ground: u64,
    alive_bomber: u64,
    delta_ms: u64,
) -> Seq<EnemyKind>
    decreases ss.len(),
{
    if ss.len() == 0 {
        Seq::empty()
    } else {
        let head = if ss[0].spec_tick(
            spec_alive_of(ss[0].kind, alive_flying, alive_ground, alive_bomber),
            delta_ms,
        ).1 {
            seq![ss[0].kind]
        } else {
            Seq::<EnemyKind>::empty()
        };
        head + spec_spawn_requests(ss.drop_first(), alive_flying, alive_ground, alive_bomber, delta_ms)
    }
}

/// Appending one spawner to a run appends at most its own request.
proof fn lemma_spawn_requests_push(
    ss: Seq<Spawner>,
    s: Spawner,
    alive_flying: u64,
    alive_ground: u64,
    alive_bomber: u64,
    delta_ms: u64,
)
    ensures
        spec_spawn_requests(ss.push(s), alive_flying, alive_ground, alive_bomber, delta_ms)
            == spec_spawn_requests(ss, alive_flying, alive_ground, alive_bomber, delta_ms) + (
        if s.spec_tick(
            spec_alive_of(s.kind, alive_flying, alive_ground, alive_bomber),
            delta_ms,
        ).1 {
            seq![s.kind]
        } else {
            Seq::<EnemyKind>::empty()
        }),
    decreases ss.len(),
{
    let tail = if s.spec_tick(
        spec_alive_of(s.kind, alive_flying, alive_ground, alive_bomber),
        delta_ms,
    ).1 {
        seq![s.kind]
    } else {
        Seq::<EnemyKind>::empty()
    };
    let l = ss.push(s);
    if ss.len() == 0 {
        assert(l[0] == s);
        assert(l.drop_first().len() == 0);
        assert(spec_spawn_requests(
            l.drop_first(),
            alive_flying,
            alive_ground,
            alive_bomber,
            delta_ms,
        ) == Seq::<EnemyKind>::empty());
        assert(spec_spawn_requests(l, alive_flying, alive_ground, alive_bomber, delta_ms) == tail
            + Seq::<EnemyKind>::empty());
        assert(tail + Seq::<EnemyKind>::empty() =~= Seq::<EnemyKind>::empty() + tail);
    } else {
        let head = if ss[0].spec_tick(
            spec_alive_of(ss[0].kind, alive_flying, alive_ground, alive_bomber),
            delta_ms,
        ).1 {
            seq![ss[0].kind]
        } else {
            Seq::<EnemyKind>::empty()
        };
        let mid = spec_spawn_requests(
            ss.drop_first(),
            alive_flying,
            alive_ground,
            alive_bomber,
            delta_ms,
        );
        assert(l[0] == ss[0]);
        assert(l.drop_first() =~= ss.drop_first().push(s));
        lemma_spawn_requests_push(
            ss.drop_first(),
            s,
            alive_flying,
            alive_ground,
            alive_bomber,
            delta_ms,
        );
        assert(spec_spawn_requests(l, alive_flying, alive_ground, alive_bomber, delta_ms) == head
            + (mid + tail));
        assert(head + (mid + tail) =~= (head + mid) + tail);
    }
}

/// A run of spawners emits at most one request each.
pub proof fn lemma_spawn_requests_len(
    ss: Seq<Spawner>,
    alive_flying: u64,
    alive_ground: u64,
    alive_bomber: u64,
    delta_ms: u64,
)
    ensures
        spec_spawn_requests(ss, alive_flying, alive_ground, alive_bomber, delta_ms).len()
            <= ss.len(),
    decreases ss.len(),
{
    if ss.len() > 0 {
        lemma_spawn_requests_len(ss.drop_first(), alive_flying, alive_ground, alive_bomber, delta_ms);
    }
}

/// The edges the wave cycle may take in one step.
pub open spec fn spec_wave_edge(a: WaveState, b: WaveState) -> bool {
    match a {
        WaveState::Idle => b == WaveState::Idle,
        WaveState::Announce => b == WaveState::Announce || b == WaveState::Init,
        WaveState::Init => b == WaveState::Running,
        WaveState::Running => b == WaveState::Running || b == WaveState::Done,
        WaveState::Done => b == WaveState::Announce,
    }
}

/// The top-level wave controller: the current round's configuration, the
/// announce countdown, and the round's spawners.
pub struct Director {
    pub state: WaveState,
    pub wave: Wave,
    pub announce: Timer,
    pub spawners: Vec<Spawner>,
}

impl Director {
    pub open spec fn wf(self) -> bool {
        &&& self.announce.wf()
        &&& self.announce.mode == TimerMode::Once
        &&& self.spawners@.len() <= 8
        &&& forall|i: int| 0 <= i < self.spawners@.len() ==> (#[trigger] self.spawners@[i]).wf()
    }

    /// A director waiting for gameplay to begin.
    pub fn new() -> (d: Director)
        ensures
            d.wf(),
            d.state == WaveState::Idle,
            d.wave == (Wave { level: 1, limit: 5, limit_growth: 2, max_at_once: 2 }),
            d.spawners@.len() == 0,
    {
        Director {
            state: WaveState::Idle,
            wave: Wave::initial(),
            announce: Timer::new(ANNOUNCE_MS, TimerMode::Once),
            spawners: Vec::new(),
        }
    }

    /// Begin the first round: configure the initial wave and start the
    /// announce banner. Does nothing unless the director is still idle.
    pub fn start(&mut self)
        requires
            old(self).wf(),
        ensures
            final(self).wf(),
            old(self).state != WaveState::Idle ==> *final(self) == *old(self),
            old(self).state == WaveState::Idle ==> {
                &&& final(self).state == WaveState::Announce
                &&& final(self).wave == (Wave { level: 1, limit: 5, limit_growth: 2, max_at_once: 2 })
                &&& final(self).announce == Timer::spec_new(ANNOUNCE_MS, TimerMode::Once)
                &&& final(self).spawners@ == old(self).spawners@
            },
    {
        if matches!(self.state, WaveState::Idle) {
            self.wave = Wave::initial();
            self.announce = Timer::new(ANNOUNCE_MS, TimerMode::Once);
            self.state = WaveState::Announce;
        }
    }

    /// Give every spawner its step and collect which subtypes to spawn
    /// now. Spawners only run while the wave is `Running`.
    pub fn tick_spawners(
        &mut self,
        delta_ms: u64,
        alive_flying: u64,
        alive_ground: u64,
        alive_bomber: u64,
    ) -> (requests: Vec<EnemyKind>)
        requires
            old(self).wf(),
        ensures
            final(self).wf(),
            final(self).state == old(self).state,
            final(self).wave == old(self).wave,
            final(self).announce == old(self).announce,
            old(self).state != WaveState::Running ==> *final(self) == *old(self) && requests@.len()
                == 0,
            old(self).state == WaveState::Running ==> {
                &&& final(self).spawners@ == spec_ticked_spawners(
                    old(self).spawners@,
                    alive_flying,
                    alive_ground,
                    alive_bomber,
                    delta_ms,
                )
                &&& requests@ == spec_spawn_requests(
                    old(self).spawners@,
                    alive_flying,
                    alive_ground,
                    alive_bomber,
                    delta_ms,
                )
            },
    {
        let mut requests: Vec<EnemyKind> = Vec::new();
        if !matches!(self.state, WaveState::Running) {
            return requests;
        }
        let ghost orig: Seq<Spawner> = self.spawners@;
        let ghost state0 = self.state;
        let ghost wave0 = self.wave;
        let ghost announce0 = self.announce;
        let n: usize = self.spawners.len();
        let mut i: usize = 0;
        while i < n
            invariant
                self.state == state0,
                self.wave == wave0,
                self.announce == announce0,
                announce0.wf(),
                announce0.mode == TimerMode::Once,
                n == self.spawners@.len() == orig.len(),
                0 <= i <= n,
                forall|j: int| 0 <= j < orig.len() ==> (#[trigger] orig[j]).wf(),
                forall|j: int| i <= j < n ==> self.spawners@[j] == orig[j],
                forall|j: int|
                    0 <= j < i ==> self.spawners@[j] == (#[trigger] orig[j]).spec_tick(
                        spec_alive_of(orig[j].kind, alive_flying, alive_ground, alive_bomber),
                        delta_ms,
                    ).0,
                forall|j: int| 0 <= j < n ==> (#[trigger] self.spawners@[j]).wf(),
                requests@ == spec_spawn_requests(
                    orig.take(i as int),
                    alive_flying,
                    alive_ground,
                    alive_bomber,
                    delta_ms,
                ),
            decreases n - i,
        {
            let mut s: Spawner = self.spawners[i];
            let alive: u64 = match s.kind {
                EnemyKind::Flying => alive_flying,
                EnemyKind::Ground => alive_ground,
                EnemyKind::Bomber => alive_bomber,
            };
            let fired: bool = s.tick(alive, delta_ms);
            self.spawners.set(i, s);
            if fired {
                requests.push(s.kind);
            }
            proof {
                assert(orig.take(i + 1) =~= orig.take(i as int).push(orig[i as int]));
                lemma_spawn_requests_push(
                    orig.take(i as int),
                    orig[i as int],
                    alive_flying,
                    alive_ground,
                    alive_bomber,
                    delta_ms,
                );
            }
            i = i + 1;
        }
        proof {
            assert(orig.take(n as int) =~= orig);
            assert(self.spawners@ =~= spec_ticked_spawners(
                orig,
                alive_flying,
                alive_ground,
                alive_bomber,
                delta_ms,
            ));
        }
        requests
    }

    /// Advance the round state machine by one step.
    ///
    /// The announce banner counts down into `Init`; `Init` builds one
    /// spawner per subtype from the wave configuration and starts
    /// `Running`; a death signal while `Running` checks the completion
    /// predicate; `Done` discards the spawners, escalates the wave and
    /// announces the next round.
    pub fn advance(&mut self, delta_ms: u64, live_enemies: u64, enemy_died: bool)
        requires
            old(self).wf(),
        ensures
            final(self).wf(),
            final(self).wave.limit_growth == old(self).wave.limit_growth,
            old(self).state == WaveState::Idle ==> *final(self) == *old(self),
            old(self).state == WaveState::Announce ==> {
                &&& final(self).announce == old(self).announce.spec_tick(delta_ms)
                &&& final(self).wave == old(self).wave
                &&& final(self).spawners@ == old(self).spawners@
                &&& final(self).state == (if old(self).announce.spec_tick(delta_ms).just_finished {
                    WaveState::Init
                } else {
                    WaveState::Announce
                })
            },
            old(self).state == WaveState::Init ==> {
                &&& final(self).state == WaveState::Running
                &&& final(self).wave == old(self).wave
                &&& final(self).announce == old(self).announce
                &&& final(self).spawners@ == seq![
                    (Spawner {
                        kind: EnemyKind::Flying,
                        all_spawned: old(self).wave.limit == 0,
                        limit: old(self).wave.limit,
                        max_at_once: old(self).wave.max_at_once,
                        spawned: 0,
                        timer: Timer::spec_new(SPAWN_RATE_MS, TimerMode::Repeating),
                    }),
                    (Spawner {
                        kind: EnemyKind::Ground,
                        all_spawned: old(self).wave.limit == 0,
                        limit: old(self).wave.limit,
                        max_at_once: old(self).wave.max_at_once,
                        spawned: 0,
                        timer: Timer::spec_new(SPAWN_RATE_MS, TimerMode::Repeating),
                    }),
                ]
            },
            old(self).state == WaveState::Running ==> {
                &&& final(self).wave == old(self).wave
                &&& final(self).announce == old(self).announce
                &&& final(self).spawners@ == old(self).spawners@
                &&& final(self).state == (if enemy_died && live_enemies == 0 && spec_all_spawned(
                    old(self).spawners@,
                ) {
                    WaveState::Done
                } else {
                    WaveState::Running
                })
            },
            old(self).state == WaveState::Done ==> {
                &&& final(self).state == WaveState::Announce
                &&& final(self).wave == spec_escalate(old(self).wave)
                &&& final(self).announce == Timer::spec_new(ANNOUNCE_MS, TimerMode::Once)
                &&& final(self).spawners@.len() == 0
            },
    {
        match self.state {
            WaveState::Idle => {},
            WaveState::Announce => {
                self.announce.tick(delta_ms);
                if self.announce.just_finished() {
                    self.state = WaveState::Init;
                }
            },
            WaveState::Init => {
                let mut spawners: Vec<Spawner> = Vec::new();
                spawners.push(
                    Spawner::new(
                        EnemyKind::Flying,
                        self.wave.limit,
                        self.wave.max_at_once,
                        SPAWN_RATE_MS,
                    ),
                );
                spawners.push(
                    Spawner::new(
                        EnemyKind::Ground,
                        self.wave.limit,
                        self.wave.max_at_once,
                        SPAWN_RATE_MS,
                    ),
                );
                self.spawners = spawners;
                self.state = WaveState::Running;
            },
            WaveState::Running => {
                if enemy_died {
                    let done: bool = wave_complete(live_enemies, &self.spawners);
                    if done {
                        self.state = WaveState::Done;
                    }
                }
            },
            WaveState::Done => {
                self.spawners = Vec::new();
                self.wave.escalate();
                self.announce = Timer::new(ANNOUNCE_MS, TimerMode::Once);
                self.state = WaveState::Announce;
            },
        }
    }
}

/// Banner opacity during the announce window, in permille: fades in over
/// the first half and back out over the second.
pub open spec fn spec_announce_alpha(fraction: int) -> int {
    if fraction < 500 {
        fraction * 2
    } else {
        (1000 - fraction) * 2
    }
}

/// Opacity of the wave banner for the announce timer's current fraction.
pub fn announce_alpha_permille(announce: &Timer) -> (r: u64)
    requires
        announce.wf(),
    ensures
        r == spec_announce_alpha(announce.spec_fraction_permille()),
        r <= 1000,
{
    let f: u64 = announce.fraction_permille();
    if f < 500 {
        f * 2
    } else {
        (1000 - f) * 2
    }
}

} // verus!
