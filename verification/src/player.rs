//! The player's life phases. The player shares the damage pipeline with
//! the enemies — a hit either starts the hit-flash window or, when
//! lethal, the death fade — but has no movement or attack behavior to
//! suspend and restore.

use vstd::prelude::*;

verus! {

use crate::enemy::DAMAGED_FLASH_MS;
use crate::enemy::DEATH_FADE_MS;
use crate::timer::Timer;
use crate::timer::TimerMode;

/// Life phase of the player character.
#[derive(Clone, Copy, Debug, PartialEq, Eq, Structural)]
pub enum PlayerState {
    /// Playing normally.
    Alive,
    /// In the post-hit flash window.
    Flashing { timer: Timer },
    /// Terminal fade-out; the game ends when it completes.
    Dying { timer: Timer },
}

impl PlayerState {
    pub open spec fn wf(self) -> bool {
        match self {
            PlayerState::Flashing { timer } => timer.wf() && timer.mode == TimerMode::Once,
            PlayerState::Dying { timer } => timer.wf() && timer.mode == TimerMode::Once,
            PlayerState::Alive => true,
        }
    }

    pub open spec fn is_dying(self) -> bool {
        self is Dying
    }

    /// The phase after a hit: insert-if-absent, exactly as for enemies.
    pub open spec fn spec_on_damage(self, lethal: bool) -> PlayerState {
        if lethal {
            if self is Dying {
                self
            } else {
                PlayerState::Dying { timer: Timer::spec_new(DEATH_FADE_MS, TimerMode::Once) }
            }
        } else {
            if self is Alive {
                PlayerState::Flashing {
                    timer: Timer::spec_new(DAMAGED_FLASH_MS, TimerMode::Once),
                }
            } else {
                self
            }
        }
    }

    /// Apply a hit to the phase.
    pub fn on_damage(self, lethal: bool) -> (r: PlayerState)
        requires
            self.wf(),
        ensures
            r == self.spec_on_damage(lethal),
            r.wf(),
            lethal ==> r.is_dying(),
    {
        if lethal {
            match self {
                PlayerState::Dying { .. } => self,
                _ => PlayerState::Dying { timer: Timer::new(DEATH_FADE_MS, TimerMode::Once) },
            }
        } else {
            match self {
                PlayerState::Alive => PlayerState::Flashing {
                    timer: Timer::new(DAMAGED_FLASH_MS, TimerMode::Once),
                },
                _ => self,
            }
        }
    }

    /// The phase after its window advanced by `delta_ms`: a finished
    /// flash returns to `Alive`, the death fade keeps its ticked timer.
    pub open spec fn spec_tick(self, delta_ms: u64) -> PlayerState {
        match self {
            PlayerState::Flashing { timer } => {
                let ticked = timer.spec_tick(delta_ms);
                if ticked.just_finished {
                    PlayerState::Alive
                } else {
                    PlayerState::Flashing { timer: ticked }
                }
            },
            PlayerState::Dying { timer } => PlayerState::Dying { timer: timer.spec_tick(delta_ms) },
            PlayerState::Alive => self,
        }
    }

    /// Advance the phase's window; reports true exactly when the death
    /// fade just completed, at which point the player is removed and the
    /// game is over.
    pub fn tick(self, delta_ms: u64) -> (r: (PlayerState, bool))
        requires
            self.wf(),
        ensures
            r.0 == self.spec_tick(delta_ms),
            r.0.wf(),
            r.1 == (self matches PlayerState::Dying { timer } && timer.spec_tick(
                delta_ms,
            ).just_finished),
    {
        match self {
            PlayerState::Flashing { timer } => {
                let mut t = timer;
                t.tick(delta_ms);
                if t.just_finished() {
                    (PlayerState::Alive, false)
                } else {
                    (PlayerState::Flashing { timer: t }, false)
                }
            },
            PlayerState::Dying { timer } => {
                let mut t = timer;
                t.tick(delta_ms);
                let faded: bool = t.just_finished();
                (PlayerState::Dying { timer: t }, faded)
            },
            PlayerState::Alive => (self, false),
        }
    }
}

/// A lethal hit on the player starts the death fade exactly once; later
/// lethal hits leave the running fade untouched.
pub proof fn lemma_player_lethal_hit_once(p: PlayerState)
    ensures
        p.spec_on_damage(true).is_dying(),
        p.spec_on_damage(true).spec_on_damage(true) == p.spec_on_damage(true),
{
}

} // verus!
