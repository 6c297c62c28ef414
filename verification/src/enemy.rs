//! Enemy behavior: `Moving` towards the player, `Attacking` once close
//! enough, with `Damaged` as an interrupting overlay that suspends the
//! current behavior and restores it when the hit-flash window ends, and
//! `Dead` as the terminal fade-out before removal.
//!
//! Transients are insert-if-absent: a second hit during the flash window
//! does not restart the flash, and a second lethal hit does not restart
//! the death fade. This debounce is deliberate.

use vstd::prelude::*;

verus! {

use crate::geom::Vec2;
use crate::timer::Timer;
use crate::timer::TimerMode;

/// Fade-out duration of a dying entity, in milliseconds.
pub const DEATH_FADE_MS: u64 = 1000;

/// Hit-flash window of a damaged entity, in milliseconds.
pub const DAMAGED_FLASH_MS: u64 = 500;

/// Interval between a bomber's lobbed shots, in milliseconds.
pub const LOB_INTERVAL_MS: u64 = 1000;

/// A flying enemy dives at the player over half the time it would take to
/// cover the distance at this speed, in milli-units per second.
pub const DIVE_SPEED: i64 = 200_000;

/// The three enemy subtypes, each with its own attack behavior.
#[derive(Clone, Copy, Debug, PartialEq, Eq, Structural)]
pub enum EnemyKind {
    /// Eases into the player, deals contact damage, then dies.
    Flying,
    /// Fires one straight projectile, then self-destructs.
    Ground,
    /// Repeatedly lobs arcing projectiles on a fixed interval.
    Bomber,
}

/// Behavior phase of one enemy.
#[derive(Clone, Copy, Debug, PartialEq, Eq, Structural)]
pub enum EnemyState {
    /// Advancing along its movement direction.
    Moving,
    /// Engaged with the player; the attack data lives beside the phase.
    Attacking,
    /// Hit-flash overlay; remembers which behavior it interrupted.
    Damaged { was_moving: bool, was_attacking: bool, timer: Timer },
    /// Terminal fade-out before removal from the world.
    Dead { timer: Timer },
}

impl EnemyState {
    pub open spec fn wf(self) -> bool {
        match self {
            EnemyState::Damaged { timer, .. } => timer.wf() && timer.mode == TimerMode::Once,
            EnemyState::Dead { timer } => timer.wf() && timer.mode == TimerMode::Once,
            _ => true,
        }
    }

    pub open spec fn is_dead(self) -> bool {
        self is Dead
    }

    pub open spec fn is_damaged(self) -> bool {
        self is Damaged
    }

    /// The phase after a hit. A lethal hit starts the death fade unless
    /// one is already running; a non-lethal hit starts the hit-flash
    /// overlay, remembering the interrupted behavior, unless an overlay
    /// or the death fade is already running.
    pub open spec fn spec_on_damage(self, lethal: bool) -> EnemyState {
        if lethal {
            if self is Dead {
                self
            } else {
                EnemyState::Dead { timer: Timer::spec_new(DEATH_FADE_MS, TimerMode::Once) }
            }
        } else {
            match self {
                EnemyState::Moving => EnemyState::Damaged {
                    was_moving: true,
                    was_attacking: false,
                    timer: Timer::spec_new(DAMAGED_FLASH_MS, TimerMode::Once),
                },
                EnemyState::Attacking => EnemyState::Damaged {
                    was_moving: false,
                    was_attacking: true,
                    timer: Timer::spec_new(DAMAGED_FLASH_MS, TimerMode::Once),
                },
                _ => self,
            }
        }
    }

    /// Apply a hit to the phase.
    pub fn on_damage(self, lethal: bool) -> (r: EnemyState)
        requires
            self.wf(),
        ensures
            r == self.spec_on_damage(lethal),
            r.wf(),
            lethal ==> r.is_dead(),
    {
        if lethal {
            match self {
                EnemyState::Dead { .. } => self,
                _ => EnemyState::Dead { timer: Timer::new(DEATH_FADE_MS, TimerMode::Once) },
            }
        } else {
            match self {
                EnemyState::Moving => EnemyState::Damaged {
                    was_moving: true,
                    was_attacking: false,
                    timer: Timer::new(DAMAGED_FLASH_MS, TimerMode::Once),
                },
                EnemyState::Attacking => EnemyState::Damaged {
                    was_moving: false,
                    was_attacking: true,
                    timer: Timer::new(DAMAGED_FLASH_MS, TimerMode::Once),
                },
                _ => self,
            }
        }
    }

    /// The phase after the hit-flash window advanced by `delta_ms`: when
    /// the window ends, the interrupted behavior is restored.
    pub open spec fn spec_tick_damaged(self, delta_ms: u64) -> EnemyState {
        match self {
            EnemyState::Damaged { was_moving, was_attacking, timer } => {
                let ticked = timer.spec_tick(delta_ms);
                if ticked.just_finished {
                    if was_attacking {
                        EnemyState::Attacking
                    } else {
                        EnemyState::Moving
                    }
                } else {
                    EnemyState::Damaged { was_moving, was_attacking, timer: ticked }
                }
            },
            _ => self,
        }
    }

    /// Advance the hit-flash overlay; also reports whether the flash is
    /// currently on its red half-period (the sprite tint alternates every
    /// hundred milliseconds of remaining time).
    pub fn tick_damaged(self, delta_ms: u64) -> (r: (EnemyState, bool))
        requires
            self.wf(),
        ensures
            r.0 == self.spec_tick_damaged(delta_ms),
            r.0.wf(),
            self matches EnemyState::Damaged { timer, .. } ==> r.1 == (
            timer.spec_tick(delta_ms).spec_remaining_ms() / 100 % 2 == 0),
    {
        match self {
            EnemyState::Damaged { was_moving, was_attacking, timer } => {
                let mut t = timer;
                t.tick(delta_ms);
                let flash_red: bool = (t.remaining_ms() / 100) % 2 == 0;
                if t.just_finished() {
                    if was_attacking {
                        (EnemyState::Attacking, flash_red)
                    } else {
                        (EnemyState::Moving, flash_red)
                    }
                } else {
                    (EnemyState::Damaged { was_moving, was_attacking, timer: t }, flash_red)
                }
            },
            _ => (self, false),
        }
    }

    /// The phase after the death fade advanced by `delta_ms`.
    pub open spec fn spec_tick_dead(self, delta_ms: u64) -> EnemyState {
        match self {
            EnemyState::Dead { timer } => EnemyState::Dead { timer: timer.spec_tick(delta_ms) },
            _ => self,
        }
    }

    /// Advance the death fade; reports true exactly when the fade just
    /// ended, at which point the entity is removed from the world and its
    /// death is announced.
    pub fn tick_dead(self, delta_ms: u64) -> (r: (EnemyState, bool))
        requires
            self.wf(),
        ensures
            r.0 == self.spec_tick_dead(delta_ms),
            r.0.wf(),
            r.1 == (self matches EnemyState::Dead { timer } && timer.spec_tick(
                delta_ms,
            ).just_finished),
    {
        match self {
            EnemyState::Dead { timer } => {
                let mut t = timer;
                t.tick(delta_ms);
                let done: bool = t.just_finished();
                (EnemyState::Dead { timer: t }, done)
            },
            _ => (self, false),
        }
    }
}

/// A lethal hit always leaves the phase in `Dead`, and a second lethal
/// hit changes nothing: the death fade is started exactly once however
/// many lethal hits land in the same step.
pub proof fn lemma_lethal_hit_kills_exactly_once(p: EnemyState)
    ensures
        p.spec_on_damage(true).is_dead(),
        p.spec_on_damage(true).spec_on_damage(true) == p.spec_on_damage(true),
{
}

/// A hit landing during the flash window neither restarts the window nor
/// forgets the interrupted behavior.
pub proof fn lemma_flash_not_restarted(p: EnemyState)
    requires
        p.is_damaged(),
    ensures
        p.spec_on_damage(false) == p,
{
}

/// Attack behavior data of an engaged enemy, by subtype.
#[derive(Clone, Copy, Debug, PartialEq, Eq, Structural)]
pub enum Attack {
    /// Flying: ease into the player over a countdown proportional to the
    /// engagement distance, then deal contact damage and die.
    Dive { countdown: Timer, start: Vec2, target: Vec2 },
    /// Ground: fire one straight projectile at the remembered position.
    Shot { target: Vec2 },
    /// Bomber: lob an arcing projectile every time the interval elapses.
    Lob { timer: Timer, target: Vec2 },
}

impl Attack {
    pub open spec fn wf(self) -> bool {
        match self {
            Attack::Dive { countdown, start, target } => {
                &&& countdown.wf()
                &&& countdown.mode == TimerMode::Once
                &&& start.in_bounds()
                &&& target.in_bounds()
            },
            Attack::Shot { target } => target.in_bounds(),
            Attack::Lob { timer, target } => {
                &&& timer.wf()
                &&& timer.mode == TimerMode::Repeating
                &&& target.in_bounds()
            },
        }
    }
}

/// The attack data an enemy of the given kind starts with when it
/// engages the player at the given distance.
pub open spec fn spec_start_attack(kind: EnemyKind, enemy_pos: Vec2, player_pos: Vec2, dist: int) -> Attack {
    match kind {
        EnemyKind::Flying => Attack::Dive {
            countdown: Timer::spec_new((500 * dist / (DIVE_SPEED as int)) as u64, TimerMode::Once),
            start: enemy_pos,
            target: player_pos,
        },
        EnemyKind::Ground => Attack::Shot { target: player_pos },
        EnemyKind::Bomber => Attack::Lob {
            timer: Timer::spec_new(LOB_INTERVAL_MS, TimerMode::Repeating),
            target: player_pos,
        },
    }
}

/// Attack data for an enemy of the given kind engaging the player at the
/// given distance. The flying dive lasts half the time the distance would
/// take at the dive speed; ground and bomber enemies remember the
/// player's position as their firing target.
pub fn start_attack(kind: EnemyKind, enemy_pos: Vec2, player_pos: Vec2, dist: i64) -> (a: Attack)
    requires
        enemy_pos.in_bounds(),
        player_pos.in_bounds(),
        0 <= dist <= 6_000_000_000,
    ensures
        a.wf(),
        a == spec_start_attack(kind, enemy_pos, player_pos, dist as int),
        kind == EnemyKind::Flying ==> a == (Attack::Dive {
            countdown: Timer::spec_new((dist / 400) as u64, TimerMode::Once),
            start: enemy_pos,
            target: player_pos,
        }),
        kind == EnemyKind::Ground ==> a == (Attack::Shot { target: player_pos }),
        kind == EnemyKind::Bomber ==> a == (Attack::Lob {
            timer: Timer::spec_new(LOB_INTERVAL_MS, TimerMode::Repeating),
            target: player_pos,
        }),
    {
    match kind {
        EnemyKind::Flying => {
            // Half the time the distance would take at the dive speed,
            // in milliseconds.
            let dive_ms: u64 = (500 * dist / DIVE_SPEED) as u64;
            Attack::Dive {
                countdown: Timer::new(dive_ms, TimerMode::Once),
                start: enemy_pos,
                target: player_pos,
            }
        },
        EnemyKind::Ground => Attack::Shot { target: player_pos },
        EnemyKind::Bomber => Attack::Lob {
            timer: Timer::new(LOB_INTERVAL_MS, TimerMode::Repeating),
            target: player_pos,
        },
    }
}

} // verus!
