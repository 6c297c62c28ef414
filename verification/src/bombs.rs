//! The three-stage bomb lifecycle: `Armed` counts down a placement fuse,
//! `WillExplode` counts down a short fixed secondary fuse, `Exploding` is
//! the terminal processing state in which the bomb emits its blast and is
//! destroyed. The two-stage fuse makes chain reactions look staggered
//! rather than instantaneous: a blast force-arms nearby bombs into
//! `WillExplode`, never directly into `Exploding`.

use vstd::prelude::*;

verus! {

use crate::ease::arc_bomb;
use crate::ease::spec_arc_bomb;
use crate::geom::dist_milli;
use crate::geom::lerp_vec;
use crate::geom::spec_clamp_coord;
use crate::geom::spec_isqrt;
use crate::geom::spec_lerp;
use crate::geom::Vec2;
use crate::geom::MAX_COORD;
use crate::timer::Timer;
use crate::timer::TimerMode;

/// Secondary fuse applied when a bomb is marked to explode, in
/// milliseconds.
pub const SECONDARY_FUSE_MS: u64 = 250;

/// Reach of a bomb's blast for chain-triggering other bombs, in
/// milli-units.
pub const BLAST_RANGE: i64 = 50_000;

/// Vertical peak of the bomb toss arc, in milli-units.
pub const TOSS_HEIGHT: i64 = 100_000;

/// Horizontal offset from the player at which a thrown bomb starts, in
/// milli-units.
pub const TOSS_START_OFFSET: i64 = 24_000;

/// Lifecycle state of a placed bomb.
#[derive(Clone, Copy, Debug, PartialEq, Eq, Structural)]
pub enum BombState {
    /// Counting down the placement fuse.
    Armed { fuse: Timer },
    /// Counting down the short secondary fuse.
    WillExplode { fuse: Timer },
    /// Terminal: the blast is emitted and the bomb destroyed this step.
    Exploding,
}

impl BombState {
    pub open spec fn wf(self) -> bool {
        match self {
            BombState::Armed { fuse } => fuse.wf() && fuse.mode == TimerMode::Once,
            BombState::WillExplode { fuse } => fuse.wf() && fuse.mode == TimerMode::Once,
            BombState::Exploding => true,
        }
    }

    pub open spec fn is_armed(self) -> bool {
        self is Armed
    }

    /// The state after one fuse tick of `delta_ms`: an armed fuse that
    /// finishes hands over to the secondary fuse, a finished secondary
    /// fuse hands over to `Exploding`.
    pub open spec fn spec_tick(self, delta_ms: u64) -> BombState {
        match self {
            BombState::Armed { fuse } => {
                let ticked = fuse.spec_tick(delta_ms);
                if ticked.just_finished {
                    BombState::WillExplode {
                        fuse: Timer::spec_new(SECONDARY_FUSE_MS, TimerMode::Once),
                    }
                } else {
                    BombState::Armed { fuse: ticked }
                }
            },
            BombState::WillExplode { fuse } => {
                let ticked = fuse.spec_tick(delta_ms);
                if ticked.just_finished {
                    BombState::Exploding
                } else {
                    BombState::WillExplode { fuse: ticked }
                }
            },
            BombState::Exploding => self,
        }
    }

    /// The state after a blast reached this bomb: only an armed bomb is
    /// force-advanced onto the secondary fuse; one already on it, or
    /// already exploding, is left alone.
    pub open spec fn spec_chain_trigger(self) -> BombState {
        match self {
            BombState::Armed { fuse } => BombState::WillExplode {
                fuse: Timer::spec_new(SECONDARY_FUSE_MS, TimerMode::Once),
            },
            _ => self,
        }
    }

    /// A fresh bomb on its placement fuse.
    pub fn new_armed(timeout_ms: u64) -> (s: BombState)
        ensures
            s.wf(),
            s == (BombState::Armed { fuse: Timer::spec_new(timeout_ms, TimerMode::Once) }),
    {
        BombState::Armed { fuse: Timer::new(timeout_ms, TimerMode::Once) }
    }

    /// Advance the bomb's fuse by `delta_ms`.
    pub fn tick(self, delta_ms: u64) -> (r: BombState)
        requires
            self.wf(),
        ensures
            r == self.spec_tick(delta_ms),
            r.wf(),
    {
        match self {
            BombState::Armed { fuse } => {
                let mut f = fuse;
                f.tick(delta_ms);
                if f.just_finished() {
                    BombState::WillExplode { fuse: Timer::new(SECONDARY_FUSE_MS, TimerMode::Once) }
                } else {
                    BombState::Armed { fuse: f }
                }
            },
            BombState::WillExplode { fuse } => {
                let mut f = fuse;
                f.tick(delta_ms);
                if f.just_finished() {
                    BombState::Exploding
                } else {
                    BombState::WillExplode { fuse: f }
                }
            },
            BombState::Exploding => self,
        }
    }

    /// React to a blast that reached this bomb.
    pub fn chain_trigger(self) -> (r: BombState)
        requires
            self.wf(),
        ensures
            r == self.spec_chain_trigger(),
            r.wf(),
            !r.is_armed(),
            !self.is_armed() ==> r == self,
    {
        match self {
            BombState::Armed { .. } => {
                BombState::WillExplode { fuse: Timer::new(SECONDARY_FUSE_MS, TimerMode::Once) }
            },
            _ => self,
        }
    }
}

/// Chain-triggering twice is the same as chain-triggering once: a bomb
/// already forced onto its secondary fuse is not reset by a second blast,
/// so a single explosion can never restart an ongoing cascade.
pub proof fn lemma_chain_trigger_idempotent(s: BombState)
    ensures
        s.spec_chain_trigger().spec_chain_trigger() == s.spec_chain_trigger(),
{
}

/// The in-flight throw of a freshly placed bomb: a linear glide from the
/// player towards the clicked target with an eased rise-and-bounce arc on
/// top.
#[derive(Clone, Copy, Debug, PartialEq, Eq, Structural)]
pub struct BombToss {
    /// Where the throw started, in milli-units.
    pub start: Vec2,
    /// Where the bomb will land, in milli-units.
    pub target: Vec2,
    /// Peak of the arc above the glide line, in milli-units.
    pub height: i64,
    /// Flight progress; the bomb lands when this one-shot timer finishes.
    pub countdown: Timer,
}

impl BombToss {
    pub open spec fn wf(self) -> bool {
        &&& self.start.in_bounds()
        &&& self.target.in_bounds()
        &&& 0 <= self.height <= MAX_COORD
        &&& self.countdown.wf()
        &&& self.countdown.mode == TimerMode::Once
    }

    /// The toss position at flight fraction `t` permille: linear between
    /// the endpoints, plus the two-phase arc scaled by the toss height.
    pub open spec fn spec_position(self, t: int) -> Vec2 {
        let base_x = spec_lerp(self.start.x as int, self.target.x as int, t);
        let base_y = spec_lerp(self.start.y as int, self.target.y as int, t);
        Vec2 {
            x: base_x as i64,
            y: spec_clamp_coord(base_y + self.height * spec_arc_bomb(t) / 1000) as i64,
        }
    }

    /// Where the bomb currently is along its throw.
    pub fn position(&self) -> (p: Vec2)
        requires
            self.wf(),
        ensures
            p == self.spec_position(self.countdown.spec_fraction_permille()),
            p.in_bounds(),
    {
        let t: i64 = self.countdown.fraction_permille() as i64;
        let base: Vec2 = lerp_vec(self.start, self.target, t);
        let factor: i64 = arc_bomb(t);
        proof {
            crate::geom::lemma_scale_permille_bounds(self.height as int, factor as int);
        }
        let lift: i64 = self.height * factor / 1000;
        let lifted: i64 = base.y + lift;
        let y: i64 = if lifted > MAX_COORD {
            MAX_COORD
        } else if lifted < -MAX_COORD {
            -MAX_COORD
        } else {
            lifted
        };
        Vec2 { x: base.x, y }
    }
}

/// Flight parameters for a bomb thrown from beside the player to a target
/// point: the throw starts a fixed offset to the player's right and takes
/// half the straight-line travel time at the given speed.
pub fn new_toss(player_pos: Vec2, target: Vec2, speed: i64) -> (t: BombToss)
    requires
        player_pos.in_bounds(),
        target.in_bounds(),
        0 < speed,
    ensures
        t.wf(),
        t.start.x == spec_clamp_coord(player_pos.x + TOSS_START_OFFSET),
        t.start.y == player_pos.y,
        t.target == target,
        t.height == TOSS_HEIGHT,
        t.countdown.duration_ms == 500 * spec_isqrt(
            crate::geom::dist2(
                Vec2 { x: spec_clamp_coord(player_pos.x + TOSS_START_OFFSET) as i64, y: player_pos.y },
                target,
            ),
        ) / (speed as int),
        t.countdown.elapsed_ms == 0,
        !t.countdown.finished,
        t.countdown.mode == TimerMode::Once,
{
    let sx: i64 = if player_pos.x + TOSS_START_OFFSET > MAX_COORD {
        MAX_COORD
    } else {
        player_pos.x + TOSS_START_OFFSET
    };
    let start: Vec2 = Vec2 { x: sx, y: player_pos.y };
    let d: i64 = dist_milli(start, target);
    let flight_ms: u64 = (500 * d / speed) as u64;
    BombToss {
        start,
        target,
        height: TOSS_HEIGHT,
        countdown: Timer::new(flight_ms, TimerMode::Once),
    }
}

} // verus!
