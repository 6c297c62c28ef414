//! The simulation world: an arena of entities, the event mailboxes, and
//! the wave director, advanced in discrete steps of three ordered phases
//! (tick timers, event response, behavior update). Entities are never
//! moved or reused: a despawned entity stays as a tombstone, so an
//! entity's id — its arena index — refers to the same entity forever.

use vstd::prelude::*;

verus! {

use crate::bombs::new_toss;
use crate::bombs::BombState;
use crate::bombs::BombToss;
use crate::enemy::Attack;
use crate::enemy::EnemyKind;
use crate::enemy::EnemyState;
use crate::events::BlastEvent;
use crate::events::DamageEvent;
use crate::geom::Vec2;
use crate::geom::MAX_COORD;
use crate::health::Health;
use crate::player::PlayerState;
use crate::timer::Timer;
use crate::timer::TimerMode;
use crate::wave::Director;
use crate::wave::WaveState;

/// Width of the visible playfield, in milli-units.
pub const SCREEN_WIDTH: i64 = 1_280_000;

/// Height of the visible playfield, in milli-units.
pub const SCREEN_HEIGHT: i64 = 720_000;

/// Enemies enter at the right screen edge, in milli-units.
pub const SPAWN_X: i64 = 640_000;

/// Vertical margin kept free of spawns at the screen edges, in
/// milli-units.
pub const SPAWN_Y_MARGIN: i64 = 64_000;

/// Radius within which a blast damages damageable entities, in
/// milli-units.
pub const BLAST_DAMAGE_RANGE: i64 = 100_000;

/// Hit points dealt by a blast to each entity in its damage radius.
pub const BLAST_DAMAGE: i32 = 1;

/// Hit points dealt by a flying enemy's contact dive and by a bullet.
pub const CONTACT_DAMAGE: i32 = 1;

/// Straight-line speed of a fired bullet, in milli-units per second.
pub const BULLET_SPEED: i64 = 300_000;

/// A bullet within this distance of the player hits, in milli-units.
pub const BULLET_HIT_RANGE: i64 = 15_000;

/// Vertical peak of a lobbed shot's arc, in milli-units.
pub const LOB_HEIGHT: i64 = 200_000;

/// Flight time of a lobbed shot, in milliseconds.
pub const LOB_FLIGHT_MS: u64 = 1000;

/// Lifetime of the explosion visual left behind by a blast, in
/// milliseconds.
pub const EXPLOSION_VFX_MS: u64 = 500;

/// Placement fuse of a thrown bomb, in milliseconds.
pub const BOMB_FUSE_MS: u64 = 2750;

/// Throw speed of a placed bomb, in milli-units per second.
pub const BOMB_TOSS_SPEED: i64 = 200_000;

/// Upper bound on any entity speed, in milli-units per second.
pub const MAX_SPEED: i64 = 10_000_000;

/// Upper bound on one step's elapsed time, in milliseconds.
pub const MAX_STEP_MS: u64 = 100_000;

/// Hit points a freshly spawned enemy starts with.
pub const ENEMY_HEALTH: i32 = 1;

/// Lower bound of the randomized enemy speed, in milli-units per second.
pub const ENEMY_SPEED_MIN: i64 = 64_000;

/// Upper bound (exclusive) of the randomized enemy speed, in milli-units
/// per second.
pub const ENEMY_SPEED_MAX: i64 = 128_000;

/// Base engagement distance of a spawned enemy, in milli-units.
pub const ENGAGE_BASE: i64 = 300_000;

/// Half-width of the random jitter applied to the engagement distance,
/// in milli-units.
pub const ENGAGE_JITTER: i64 = 50_000;

/// What one entity of the arena is.
#[derive(Clone, Copy, Debug, PartialEq, Eq, Structural)]
pub enum Body {
    /// The player character.
    Player { health: Health, phase: PlayerState },
    /// One enemy with its behavior state and attack data.
    Enemy {
        kind: EnemyKind,
        health: Health,
        phase: EnemyState,
        speed: i64,
        target_distance: i64,
        attack: Option<Attack>,
    },
    /// A placed bomb, possibly still in its throw.
    Bomb { state: BombState, toss: Option<BombToss> },
    /// A straight projectile fired at the player.
    Bullet { dir: Vec2, speed: i64 },
    /// An arcing projectile lobbed at the player.
    LobShot { flight: Timer, start: Vec2, target: Vec2, height: i64 },
    /// The short-lived visual left behind by a blast.
    Explosion { timer: Timer },
}

/// One slot of the arena. A despawned entity keeps its slot with
/// `alive == false`.
#[derive(Clone, Copy, Debug, PartialEq, Eq, Structural)]
pub struct Entity {
    pub alive: bool,
    pub pos: Vec2,
    pub body: Body,
}

impl Entity {
    pub open spec fn wf(self) -> bool {
        &&& self.pos.in_bounds()
        &&& match self.body {
            Body::Player { phase, .. } => phase.wf(),
            Body::Enemy { phase, speed, target_distance, attack, .. } => {
                &&& phase.wf()
                &&& match attack {
                    Option::Some(a) => a.wf(),
                    Option::None => true,
                }
                &&& 0 <= speed <= MAX_SPEED
                &&& 0 <= target_distance <= MAX_COORD
            },
            Body::Bomb { state, toss } => {
                &&& state.wf()
                &&& match toss {
                    Option::Some(t) => t.wf(),
                    Option::None => true,
                }
            },
            Body::Bullet { dir, speed } => {
                &&& -1000 <= dir.x <= 1000
                &&& -1000 <= dir.y <= 1000
                &&& 0 <= speed <= MAX_SPEED
            },
            Body::LobShot { flight, start, target, height } => {
                &&& flight.wf()
                &&& flight.mode == TimerMode::Once
                &&& start.in_bounds()
                &&& target.in_bounds()
                &&& 0 <= height <= MAX_COORD
            },
            Body::Explosion { timer } => timer.wf() && timer.mode == TimerMode::Once,
        }
    }

    /// Whether area-effect damage applies to this entity at all.
    pub open spec fn is_damageable(self) -> bool {
        self.body is Player || self.body is Enemy
    }

    /// Whether the entity is already on its terminal fade and hence
    /// skipped by the damage scan.
    pub open spec fn is_dead_phase(self) -> bool {
        match self.body {
            Body::Player { phase, .. } => phase is Dying,
            Body::Enemy { phase, .. } => phase is Dead,
            _ => false,
        }
    }

    /// A live enemy that still counts towards wave completion.
    pub open spec fn is_live_enemy(self) -> bool {
        self.alive && self.body is Enemy && !self.is_dead_phase()
    }

    /// An enemy of the given subtype still present in the world — a
    /// fading-out enemy keeps counting against the spawners' concurrency
    /// caps until it is removed.
    pub open spec fn is_present_enemy_of(self, kind: EnemyKind) -> bool {
        self.alive && (self.body matches Body::Enemy { kind: k, .. } && k == kind)
    }
}

/// How many of the first `n` entities are live enemies.
pub open spec fn spec_live_enemies(es: Seq<Entity>, n: int) -> int
    decreases n,
{
    if n <= 0 {
        0
    } else {
        spec_live_enemies(es, n - 1) + if es[n - 1].is_live_enemy() {
            1int
        } else {
            0int
        }
    }
}

/// How many of the first `n` entities are present enemies of `kind`.
pub open spec fn spec_present_enemies_of(es: Seq<Entity>, kind: EnemyKind, n: int) -> int
    decreases n,
{
    if n <= 0 {
        0
    } else {
        spec_present_enemies_of(es, kind, n - 1) + if es[n - 1].is_present_enemy_of(kind) {
            1int
        } else {
            0int
        }
    }
}

/// The entity after the tick-timers phase: bomb fuses advance (the
/// placement fuse hands over to the secondary fuse, the secondary fuse
/// to `Exploding`), a bomber's lob interval advances or re-arms, and an
/// explosion visual counts down and despawns itself.
pub open spec fn spec_tick_timers_entity(e: Entity, delta_ms: u64) -> Entity {
    if !e.alive {
        e
    } else {
        match e.body {
            Body::Bomb { state, toss } => Entity {
                body: Body::Bomb { state: state.spec_tick(delta_ms), toss },
                ..e
            },
            Body::Enemy { kind, health, phase, speed, target_distance, attack } => {
                if phase is Attacking {
                    match attack {
                        Option::Some(Attack::Lob { timer, target }) => {
                            let ticked = if timer.just_finished {
                                Timer { elapsed_ms: 0, finished: false, just_finished: false, ..timer }
                            } else {
                                timer.spec_tick(delta_ms)
                            };
                            Entity {
                                body: Body::Enemy {
                                    kind,
                                    health,
                                    phase,
                                    speed,
                                    target_distance,
                                    attack: Option::Some(Attack::Lob { timer: ticked, target }),
                                },
                                ..e
                            }
                        },
                        _ => e,
                    }
                } else {
                    e
                }
            },
            Body::Explosion { timer } => {
                let ticked = timer.spec_tick(delta_ms);
                Entity { alive: !ticked.just_finished, body: Body::Explosion { timer: ticked }, ..e }
            },
            _ => e,
        }
    }
}

/// Whether this entity fires a lobbed shot this step: a live attacking
/// bomber whose interval elapsed on the previous step's tick.
pub open spec fn spec_lob_fires(e: Entity) -> bool {
    &&& e.alive
    &&& e.body matches Body::Enemy { phase, attack, .. } && phase is Attacking && (
    attack matches Option::Some(Attack::Lob { timer, .. }) && timer.just_finished)
}

/// The lobbed shot fired by a bomber this step.
pub open spec fn spec_lob_shot_of(e: Entity) -> Entity {
    let target = match e.body {
        Body::Enemy { attack, .. } => match attack {
            Option::Some(Attack::Lob { target, .. }) => target,
            _ => e.pos,
        },
        _ => e.pos,
    };
    Entity {
        alive: true,
        pos: e.pos,
        body: Body::LobShot {
            flight: Timer::spec_new(LOB_FLIGHT_MS, TimerMode::Once),
            start: e.pos,
            target,
            height: LOB_HEIGHT,
        },
    }
}

/// The lobbed shots fired by the first `n` entities, in arena order.
pub open spec fn spec_lob_spawns(es: Seq<Entity>, n: int) -> Seq<Entity>
    decreases n,
{
    if n <= 0 {
        Seq::empty()
    } else {
        spec_lob_spawns(es, n - 1) + if spec_lob_fires(es[n - 1]) {
            seq![spec_lob_shot_of(es[n - 1])]
        } else {
            Seq::<Entity>::empty()
        }
    }
}

/// A bomb that reached its terminal state and blows up this step.
pub open spec fn spec_is_exploding_bomb(e: Entity) -> bool {
    e.alive && (e.body matches Body::Bomb { state, .. } && state is Exploding)
}

/// The entity after the explosion pass: an exploding bomb is destroyed,
/// everything else is untouched.
pub open spec fn spec_explode_entity(e: Entity) -> Entity {
    if spec_is_exploding_bomb(e) {
        Entity { alive: false, ..e }
    } else {
        e
    }
}

/// The blasts emitted by the first `n` entities: one per exploding bomb,
/// at its position, with the fixed chain range, in arena order.
pub open spec fn spec_blasts_upto(es: Seq<Entity>, n: int) -> Seq<BlastEvent>
    decreases n,
{
    if n <= 0 {
        Seq::empty()
    } else {
        spec_blasts_upto(es, n - 1) + if spec_is_exploding_bomb(es[n - 1]) {
            seq![
                (BlastEvent {
                    source: (n - 1) as u64,
                    location: es[n - 1].pos,
                    range: crate::bombs::BLAST_RANGE,
                }),
            ]
        } else {
            Seq::<BlastEvent>::empty()
        }
    }
}

/// The explosion visuals left behind by the first `n` entities.
pub open spec fn spec_vfx_spawns(es: Seq<Entity>, n: int) -> Seq<Entity>
    decreases n,
{
    if n <= 0 {
        Seq::empty()
    } else {
        spec_vfx_spawns(es, n - 1) + if spec_is_exploding_bomb(es[n - 1]) {
            seq![
                (Entity {
                    alive: true,
                    pos: es[n - 1].pos,
                    body: Body::Explosion {
                        timer: Timer::spec_new(EXPLOSION_VFX_MS, TimerMode::Once),
                    },
                }),
            ]
        } else {
            Seq::<Entity>::empty()
        }
    }
}

/// Whether some blast of this step reaches the bomb at index `i`: the
/// blast must come from another entity and the bomb must lie strictly
/// within the blast's range.
pub open spec fn spec_chain_hit(e: Entity, i: int, blasts: Seq<BlastEvent>) -> bool {
    &&& e.alive
    &&& e.body is Bomb
    &&& exists|k: int|
        0 <= k < blasts.len() && (#[trigger] blasts[k]).source != i && crate::geom::dist2(
            blasts[k].location,
            e.pos,
        ) < crate::geom::sq(blasts[k].range as int)
}

/// The entity after the chain-reaction pass: a bomb reached by another
/// bomb's blast is force-advanced onto its secondary fuse.
pub open spec fn spec_chain_entity(e: Entity, i: int, blasts: Seq<BlastEvent>) -> Entity {
    if spec_chain_hit(e, i, blasts) {
        match e.body {
            Body::Bomb { state, toss } => Entity {
                body: Body::Bomb { state: state.spec_chain_trigger(), toss },
                ..e
            },
            _ => e,
        }
    } else {
        e
    }
}

/// Whether the blast's area damage applies to this entity: it must be a
/// live damageable entity not already on its terminal fade, within the
/// fixed damage radius of the blast.
pub open spec fn spec_blast_damages(e: Entity, b: BlastEvent) -> bool {
    &&& e.alive
    &&& e.is_damageable()
    &&& !e.is_dead_phase()
    &&& crate::geom::dist2(b.location, e.pos) <= crate::geom::sq(BLAST_DAMAGE_RANGE as int)
}

/// The damage events one blast deals to the first `n` entities, in
/// arena order.
pub open spec fn spec_blast_damage_upto(es: Seq<Entity>, b: BlastEvent, n: int) -> Seq<DamageEvent>
    decreases n,
{
    if n <= 0 {
        Seq::empty()
    } else {
        spec_blast_damage_upto(es, b, n - 1) + if spec_blast_damages(es[n - 1], b) {
            seq![(DamageEvent { target: (n - 1) as u64, amount: BLAST_DAMAGE })]
        } else {
            Seq::<DamageEvent>::empty()
        }
    }
}

/// The damage events the first `m` blasts deal, blast by blast.
pub open spec fn spec_all_blast_damage(es: Seq<Entity>, blasts: Seq<BlastEvent>, m: int) -> Seq<
    DamageEvent,
>
    decreases m,
{
    if m <= 0 {
        Seq::empty()
    } else {
        spec_all_blast_damage(es, blasts, m - 1) + spec_blast_damage_upto(
            es,
            blasts[m - 1],
            es.len() as int,
        )
    }
}

/// The lobbed shot's position at flight fraction `f` permille: linear
/// between its endpoints with the two-phase circular arc on top.
pub open spec fn spec_lob_position(start: Vec2, target: Vec2, height: int, f: int) -> Vec2 {
    let bx = crate::geom::spec_lerp(start.x as int, target.x as int, f);
    let by = crate::geom::spec_lerp(start.y as int, target.y as int, f);
    Vec2 {
        x: bx as i64,
        y: crate::geom::spec_clamp_coord(by + height * crate::ease::spec_arc_lob(f) / 1000) as i64,
    }
}

/// The entity after the flight-and-movement pass of the update phase:
/// a thrown bomb advances along its toss and lands onto a fresh
/// secondary fuse, a lobbed shot flies its arc and expires, a bullet
/// moves straight on, and a `Moving` enemy marches towards the interior
/// at its own speed.
pub open spec fn spec_flight_entity(e: Entity, delta_ms: u64) -> Entity {
    if !e.alive {
        e
    } else {
        match e.body {
            Body::Bomb { state, toss } => match toss {
                Option::Some(t) => {
                    let ticked = t.countdown.spec_tick(delta_ms);
                    if ticked.just_finished {
                        Entity { body: Body::Bomb { state, toss: Option::None }, ..e }
                    } else {
                        let t2 = BombToss { countdown: ticked, ..t };
                        Entity {
                            pos: t2.spec_position(ticked.spec_fraction_permille()),
                            body: Body::Bomb { state, toss: Option::Some(t2) },
                            ..e
                        }
                    }
                },
                Option::None => e,
            },
            Body::LobShot { flight, start, target, height } => {
                let ticked = flight.spec_tick(delta_ms);
                if ticked.just_finished {
                    Entity {
                        alive: false,
                        body: Body::LobShot { flight: ticked, start, target, height },
                        ..e
                    }
                } else {
                    Entity {
                        pos: spec_lob_position(
                            start,
                            target,
                            height as int,
                            ticked.spec_fraction_permille(),
                        ),
                        body: Body::LobShot { flight: ticked, start, target, height },
                        ..e
                    }
                }
            },
            Body::Bullet { dir, speed } => {
                let scaled = speed * delta_ms;
                Entity {
                    pos: Vec2 {
                        x: crate::geom::spec_clamp_coord(
                            e.pos.x + crate::geom::spec_muldiv(dir.x as int, scaled, 1_000_000),
                        ) as i64,
                        y: crate::geom::spec_clamp_coord(
                            e.pos.y + crate::geom::spec_muldiv(dir.y as int, scaled, 1_000_000),
                        ) as i64,
                    },
                    ..e
                }
            },
            Body::Enemy { phase, speed, .. } => {
                if phase is Moving {
                    Entity {
                        pos: Vec2 {
                            x: crate::geom::spec_clamp_coord(
                                e.pos.x - speed * delta_ms / 1000,
                            ) as i64,
                            y: e.pos.y,
                        },
                        ..e
                    }
                } else {
                    e
                }
            },
            _ => e,
        }
    }
}

/// The entity after the lifecycle pass of the update phase: a hit-flash
/// window advances and restores the interrupted behavior when it ends;
/// a death fade advances and removes the entity when it completes.
pub open spec fn spec_lifecycle_entity(e: Entity, delta_ms: u64) -> Entity {
    if !e.alive {
        e
    } else {
        match e.body {
            Body::Enemy { kind, health, phase, speed, target_distance, attack } => {
                if phase is Damaged {
                    Entity {
                        body: Body::Enemy {
                            kind,
                            health,
                            phase: phase.spec_tick_damaged(delta_ms),
                            speed,
                            target_distance,
                            attack,
                        },
                        ..e
                    }
                } else if phase is Dead {
                    Entity {
                        alive: !spec_enemy_died(e, delta_ms),
                        body: Body::Enemy {
                            kind,
                            health,
                            phase: phase.spec_tick_dead(delta_ms),
                            speed,
                            target_distance,
                            attack,
                        },
                        ..e
                    }
                } else {
                    e
                }
            },
            Body::Player { health, phase } => Entity {
                alive: !spec_player_faded(e, delta_ms),
                body: Body::Player { health, phase: phase.spec_tick(delta_ms) },
                ..e
            },
            _ => e,
        }
    }
}

/// Whether this entity's death fade completes this step, emitting the
/// died signal the wave director listens for.
pub open spec fn spec_enemy_died(e: Entity, delta_ms: u64) -> bool {
    &&& e.alive
    &&& e.body matches Body::Enemy { phase, .. } && (phase matches EnemyState::Dead { timer }
        && timer.spec_tick(delta_ms).just_finished)
}

/// Whether the player's death fade completes this step, which ends the
/// game.
pub open spec fn spec_player_faded(e: Entity, delta_ms: u64) -> bool {
    &&& e.alive
    &&& e.body matches Body::Player { phase, .. } && (phase matches PlayerState::Dying { timer }
        && timer.spec_tick(delta_ms).just_finished)
}

/// How many of the first `n` entities finish their death fade this step.
pub open spec fn spec_died_count(es: Seq<Entity>, delta_ms: u64, n: int) -> int
    decreases n,
{
    if n <= 0 {
        0
    } else {
        spec_died_count(es, delta_ms, n - 1) + if spec_enemy_died(es[n - 1], delta_ms) {
            1int
        } else {
            0int
        }
    }
}

/// Whether a flying enemy's dive lands on the player this step.
pub open spec fn spec_dive_hits(e: Entity, delta_ms: u64) -> bool {
    &&& e.alive
    &&& e.body matches Body::Enemy { phase, attack, .. } && phase is Attacking && (
    attack matches Option::Some(Attack::Dive { countdown, .. }) && countdown.spec_tick(
        delta_ms,
    ).just_finished)
}

/// Whether a ground enemy fires its one shot this step.
pub open spec fn spec_shot_fires(e: Entity) -> bool {
    &&& e.alive
    &&& e.body matches Body::Enemy { phase, attack, .. } && phase is Attacking && (
    attack matches Option::Some(Attack::Shot { .. }))
}

/// The bullet a ground enemy fires: it starts at the enemy and flies
/// straight at the remembered target position.
pub open spec fn spec_bullet_of(e: Entity) -> Entity {
    let target = match e.body {
        Body::Enemy { attack, .. } => match attack {
            Option::Some(Attack::Shot { target }) => target,
            _ => e.pos,
        },
        _ => e.pos,
    };
    Entity {
        alive: true,
        pos: e.pos,
        body: Body::Bullet {
            dir: crate::geom::spec_dir_permille(e.pos, target),
            speed: BULLET_SPEED,
        },
    }
}

/// The bullets fired by the first `n` entities, in arena order.
pub open spec fn spec_bullet_spawns(es: Seq<Entity>, n: int) -> Seq<Entity>
    decreases n,
{
    if n <= 0 {
        Seq::empty()
    } else {
        spec_bullet_spawns(es, n - 1) + if spec_shot_fires(es[n - 1]) {
            seq![spec_bullet_of(es[n - 1])]
        } else {
            Seq::<Entity>::empty()
        }
    }
}

/// The contact damage dealt to the player by the dives landing this
/// step, in arena order.
pub open spec fn spec_dive_damage(es: Seq<Entity>, player: int, delta_ms: u64, n: int) -> Seq<
    DamageEvent,
>
    decreases n,
{
    if n <= 0 {
        Seq::empty()
    } else {
        spec_dive_damage(es, player, delta_ms, n - 1) + if spec_dive_hits(es[n - 1], delta_ms) {
            seq![(DamageEvent { target: player as u64, amount: CONTACT_DAMAGE })]
        } else {
            Seq::<DamageEvent>::empty()
        }
    }
}

/// The entity after the combat pass of the update phase, given the live
/// player's position: an attacking flyer advances along its eased dive
/// and dies dealing contact damage when it lands; an attacking ground
/// enemy fires and self-destructs; a `Moving` enemy whose engagement
/// distance now reaches the player switches to attacking.
pub open spec fn spec_combat_entity(e: Entity, ppos: Vec2, delta_ms: u64) -> Entity {
    if !e.alive {
        e
    } else {
        match e.body {
            Body::Enemy { kind, health, phase, speed, target_distance, attack } => {
                if phase is Attacking {
                    match attack {
                        Option::Some(Attack::Dive { countdown, start, target }) => {
                            let ticked = countdown.spec_tick(delta_ms);
                            if ticked.just_finished {
                                Entity {
                                    body: Body::Enemy {
                                        kind,
                                        health,
                                        phase: EnemyState::Dead {
                                            timer: Timer::spec_new(
                                                crate::enemy::DEATH_FADE_MS,
                                                TimerMode::Once,
                                            ),
                                        },
                                        speed,
                                        target_distance,
                                        attack: Option::None,
                                    },
                                    ..e
                                }
                            } else {
                                let eased = crate::ease::spec_ease_back_in(
                                    ticked.spec_fraction_permille(),
                                );
                                let f = if eased < 0 {
                                    0
                                } else {
                                    eased
                                };
                                Entity {
                                    pos: Vec2 {
                                        x: crate::geom::spec_lerp(
                                            start.x as int,
                                            target.x as int,
                                            f,
                                        ) as i64,
                                        y: crate::geom::spec_lerp(
                                            start.y as int,
                                            target.y as int,
                                            f,
                                        ) as i64,
                                    },
                                    body: Body::Enemy {
                                        kind,
                                        health,
                                        phase,
                                        speed,
                                        target_distance,
                                        attack: Option::Some(
                                            Attack::Dive { countdown: ticked, start, target },
                                        ),
                                    },
                                    ..e
                                }
                            }
                        },
                        Option::Some(Attack::Shot { .. }) => Entity {
                            body: Body::Enemy {
                                kind,
                                health,
                                phase: EnemyState::Dead {
                                    timer: Timer::spec_new(
                                        crate::enemy::DEATH_FADE_MS,
                                        TimerMode::Once,
                                    ),
                                },
                                speed,
                                target_distance,
                                attack: Option::None,
                            },
                            ..e
                        },
                        _ => e,
                    }
                } else if phase is Moving {
                    if crate::geom::dist2(e.pos, ppos) <= crate::geom::sq(target_distance as int) {
                        Entity {
                            body: Body::Enemy {
                                kind,
                                health,
                                phase: EnemyState::Attacking,
                                speed,
                                target_distance,
                                attack: Option::Some(
                                    crate::enemy::spec_start_attack(
                                        kind,
                                        e.pos,
                                        ppos,
                                        crate::geom::spec_isqrt(crate::geom::dist2(e.pos, ppos)),
                                    ),
                                ),
                            },
                            ..e
                        }
                    } else {
                        e
                    }
                } else {
                    e
                }
            },
            _ => e,
        }
    }
}

/// Whether this bullet reaches the player this step.
pub open spec fn spec_bullet_hits(e: Entity, ppos: Vec2) -> bool {
    &&& e.alive
    &&& e.body is Bullet
    &&& crate::geom::dist2(e.pos, ppos) <= crate::geom::sq(BULLET_HIT_RANGE as int)
}

/// The entity after the bullet-hit pass: a bullet that reached the
/// player is consumed.
pub open spec fn spec_bullet_hit_entity(e: Entity, ppos: Vec2) -> Entity {
    if spec_bullet_hits(e, ppos) {
        Entity { alive: false, ..e }
    } else {
        e
    }
}

/// The damage the bullets that hit this step deal to the player, in
/// arena order.
pub open spec fn spec_bullet_hit_damage(es: Seq<Entity>, ppos: Vec2, player: int, n: int) -> Seq<
    DamageEvent,
>
    decreases n,
{
    if n <= 0 {
        Seq::empty()
    } else {
        spec_bullet_hit_damage(es, ppos, player, n - 1) + if spec_bullet_hits(es[n - 1], ppos) {
            seq![(DamageEvent { target: player as u64, amount: CONTACT_DAMAGE })]
        } else {
            Seq::<DamageEvent>::empty()
        }
    }
}

/// The entity at index `i` after one damage event is consumed: only the
/// event's target is touched; its health drops and its phase reacts to
/// whether the hit was lethal.
pub open spec fn spec_apply_event_entity(e: Entity, i: int, ev: DamageEvent) -> Entity {
    if i == ev.target && e.alive && e.is_damageable() {
        match e.body {
            Body::Player { health, phase } => {
                let h = crate::health::spec_after_damage(health.current as int, ev.amount as int);
                Entity {
                    body: Body::Player {
                        health: Health { current: h as i32 },
                        phase: phase.spec_on_damage(h <= 0),
                    },
                    ..e
                }
            },
            Body::Enemy { kind, health, phase, speed, target_distance, attack } => {
                let h = crate::health::spec_after_damage(health.current as int, ev.amount as int);
                Entity {
                    body: Body::Enemy {
                        kind,
                        health: Health { current: h as i32 },
                        phase: phase.spec_on_damage(h <= 0),
                        speed,
                        target_distance,
                        attack,
                    },
                    ..e
                }
            },
            _ => e,
        }
    } else {
        e
    }
}

/// The arena after one damage event is consumed.
pub open spec fn spec_apply_event(es: Seq<Entity>, ev: DamageEvent) -> Seq<Entity> {
    Seq::new(es.len(), |i: int| spec_apply_event_entity(es[i], i, ev))
}

/// The arena after the first `m` damage events are consumed, in order.
pub open spec fn spec_apply_events(es: Seq<Entity>, evs: Seq<DamageEvent>, m: int) -> Seq<Entity>
    decreases m,
{
    if m <= 0 {
        es
    } else {
        spec_apply_event(spec_apply_events(es, evs, m - 1), evs[m - 1])
    }
}

/// At most one lobbed shot per entity and step.
pub proof fn lemma_lob_spawns_len(es: Seq<Entity>, n: int)
    ensures
        spec_lob_spawns(es, n).len() <= (if n >= 0 {
            n
        } else {
            0
        }),
    decreases n,
{
    if n > 0 {
        lemma_lob_spawns_len(es, n - 1);
    }
}

/// At most one explosion visual per entity and step.
pub proof fn lemma_vfx_spawns_len(es: Seq<Entity>, n: int)
    ensures
        spec_vfx_spawns(es, n).len() <= (if n >= 0 {
            n
        } else {
            0
        }),
    decreases n,
{
    if n > 0 {
        lemma_vfx_spawns_len(es, n - 1);
    }
}

/// At most one bullet per entity and step.
pub proof fn lemma_bullet_spawns_len(es: Seq<Entity>, n: int)
    ensures
        spec_bullet_spawns(es, n).len() <= (if n >= 0 {
            n
        } else {
            0
        }),
    decreases n,
{
    if n > 0 {
        lemma_bullet_spawns_len(es, n - 1);
    }
}

/// Consuming damage events never touches a despawned entity: a
/// tombstone stays exactly as it was.
pub proof fn lemma_apply_events_inert_tombstone(
    es: Seq<Entity>,
    evs: Seq<DamageEvent>,
    m: int,
    i: int,
)
    requires
        0 <= i < es.len(),
        !es[i].alive,
    ensures
        spec_apply_events(es, evs, m).len() == es.len(),
        spec_apply_events(es, evs, m)[i] == es[i],
    decreases m,
{
    if m > 0 {
        lemma_apply_events_inert_tombstone(es, evs, m - 1, i);
    }
}

/// What one step hands back to the host: the blasts that went off (the
/// audio and visual collaborators key off them), how many enemies died,
/// and how many were spawned.
pub struct StepReport {
    pub blasts: Vec<BlastEvent>,
    pub enemies_died: u64,
    pub enemies_spawned: u64,
}

/// The arena as the tick-timers phase leaves it: every entity's timers
/// advanced, with the fired lobs appended.
pub open spec fn spec_after_timers(es: Seq<Entity>, delta_ms: u64) -> Seq<Entity> {
    es.map_values(|e: Entity| spec_tick_timers_entity(e, delta_ms)) + spec_lob_spawns(
        es,
        es.len() as int,
    )
}

/// Prefixes that agree entity by entity emit the same blasts.
proof fn lemma_blasts_agree(es1: Seq<Entity>, es2: Seq<Entity>, n: int)
    requires
        n <= es1.len(),
        n <= es2.len(),
        forall|i: int| 0 <= i < n ==> es1[i] == es2[i],
    ensures
        spec_blasts_upto(es1, n) == spec_blasts_upto(es2, n),
    decreases n,
{
    if n > 0 {
        lemma_blasts_agree(es1, es2, n - 1);
    }
}

/// Entities that are not exploding bombs contribute no blasts.
proof fn lemma_blasts_skip_nonbombs(es: Seq<Entity>, from: int, to: int)
    requires
        0 <= from <= to <= es.len(),
        forall|i: int| from <= i < to ==> !spec_is_exploding_bomb(#[trigger] es[i]),
    ensures
        spec_blasts_upto(es, to) == spec_blasts_upto(es, from),
    decreases to - from,
{
    if to > from {
        lemma_blasts_skip_nonbombs(es, from, to - 1);
    }
}

/// An exploding bomb's blast is among the blasts of any prefix that
/// covers it.
proof fn lemma_blast_present(es: Seq<Entity>, a: int, n: int)
    requires
        0 <= a < n <= es.len(),
        spec_is_exploding_bomb(es[a]),
    ensures
        exists|k: int|
            0 <= k < spec_blasts_upto(es, n).len() && #[trigger] spec_blasts_upto(es, n)[k]
                == (BlastEvent {
                source: a as u64,
                location: es[a].pos,
                range: crate::bombs::BLAST_RANGE,
            }),
    decreases n,
{
    let bl = spec_blasts_upto(es, n);
    if n - 1 == a {
        let k = spec_blasts_upto(es, n - 1).len() as int;
        assert(bl[k] == (BlastEvent {
            source: a as u64,
            location: es[a].pos,
            range: crate::bombs::BLAST_RANGE,
        }));
    } else {
        lemma_blast_present(es, a, n - 1);
        let k = choose|k: int|
            0 <= k < spec_blasts_upto(es, n - 1).len() && #[trigger] spec_blasts_upto(es, n - 1)[k]
                == (BlastEvent {
                source: a as u64,
                location: es[a].pos,
                range: crate::bombs::BLAST_RANGE,
            });
        assert(bl[k] == spec_blasts_upto(es, n - 1)[k]);
    }
}

/// The chain reaction law: when bomb `a` explodes, then in the same
/// event-response phase its blast destroys `a` itself and forces every
/// other live armed bomb strictly within blast range onto a fresh
/// secondary fuse. The destroyed bomb is a tombstone from then on —
/// `step` never touches it again — so `b` going off later can never
/// re-trigger `a`: no infinite mutual cascade can arise from a single
/// explosion.
pub proof fn lemma_chain_reaction(es: Seq<Entity>, a: int, b: int)
    requires
        es.len() < 0x1_0000_0000_0000_0000,
        0 <= a < es.len(),
        0 <= b < es.len(),
        a != b,
        spec_is_exploding_bomb(es[a]),
        es[b].alive,
        es[b].body matches Body::Bomb { state, .. } && state is Armed,
        crate::geom::dist2(es[a].pos, es[b].pos) < crate::geom::sq(
            crate::bombs::BLAST_RANGE as int,
        ),
    ensures
        !spec_explode_entity(es[a]).alive,
        spec_chain_entity(
            spec_explode_entity(es[b]),
            b,
            spec_blasts_upto(es, es.len() as int),
        ).body matches Body::Bomb { state, .. } && state == (BombState::WillExplode {
            fuse: Timer::spec_new(crate::bombs::SECONDARY_FUSE_MS, TimerMode::Once),
        }),
{
    lemma_blast_present(es, a, es.len() as int);
    let blasts = spec_blasts_upto(es, es.len() as int);
    let eb = spec_explode_entity(es[b]);
    assert(eb == es[b]);
    let k = choose|k: int|
        0 <= k < blasts.len() && #[trigger] blasts[k] == (BlastEvent {
            source: a as u64,
            location: es[a].pos,
            range: crate::bombs::BLAST_RANGE,
        });
    assert(blasts[k].source != b && crate::geom::dist2(blasts[k].location, eb.pos)
        < crate::geom::sq(blasts[k].range as int));
    assert(spec_chain_hit(eb, b, blasts));
}

/// The overkill law: a damage event whose amount exceeds the target's
/// remaining health leaves the health at or below zero and the entity
/// on the death fade; a second lethal hit in the same step drains more
/// health but leaves the already-running fade untouched, so the death
/// fade starts exactly once.
pub proof fn lemma_lethal_damage_is_final(e: Entity, i: int, first: DamageEvent, second: DamageEvent)
    requires
        e.alive,
        first.target == i,
        second.target == i,
        second.amount >= 0,
        e.body matches Body::Enemy { health, phase, .. } && first.amount > health.current && !(
        phase is Dead),
    ensures
        spec_apply_event_entity(e, i, first).body matches Body::Enemy { health, phase, .. }
            && health.current <= 0 && phase == (EnemyState::Dead {
            timer: Timer::spec_new(crate::enemy::DEATH_FADE_MS, TimerMode::Once),
        }),
        spec_apply_event_entity(spec_apply_event_entity(e, i, first), i, second).body matches Body::Enemy { phase, .. }
            && phase == (EnemyState::Dead {
            timer: Timer::spec_new(crate::enemy::DEATH_FADE_MS, TimerMode::Once),
        }),
{
}

/// The whole simulation.
pub struct World {
    /// The entity arena; indices are entity ids and are never reused.
    pub entities: Vec<Entity>,
    /// Damage events awaiting the next event-response phase.
    pub pending_damage: Vec<DamageEvent>,
    /// The wave director.
    pub director: Director,
    /// Set when the player's death fade has completed.
    pub game_over: bool,
}

impl World {
    pub open spec fn wf(self) -> bool {
        &&& forall|i: int|
            0 <= i < self.entities@.len() ==> (#[trigger] self.entities@[i]).wf()
        &&& self.director.wf()
    }

    /// An empty world with an idle wave director.
    pub fn new() -> (w: World)
        ensures
            w.wf(),
            w.entities@.len() == 0,
            w.pending_damage@.len() == 0,
            w.director.state == WaveState::Idle,
            !w.game_over,
    {
        World {
            entities: Vec::new(),
            pending_damage: Vec::new(),
            director: Director::new(),
            game_over: false,
        }
    }

    /// Append an entity; its id is its arena index.
    fn push_entity(&mut self, e: Entity) -> (id: u64)
        requires
            old(self).wf(),
            e.wf(),
        ensures
            final(self).wf(),
            final(self).entities@ == old(self).entities@.push(e),
            id == old(self).entities@.len(),
            final(self).pending_damage == old(self).pending_damage,
            final(self).director == old(self).director,
            final(self).game_over == old(self).game_over,
    {
        let id: u64 = self.entities.len() as u64;
        self.entities.push(e);
        id
    }

    /// Create the player character with the given starting health.
    pub fn spawn_player(&mut self, pos: Vec2, health: i32) -> (id: u64)
        requires
            old(self).wf(),
            pos.in_bounds(),
        ensures
            final(self).wf(),
            final(self).entities@ == old(self).entities@.push(
                Entity {
                    alive: true,
                    pos,
                    body: Body::Player {
                        health: Health { current: health },
                        phase: PlayerState::Alive,
                    },
                },
            ),
            id == old(self).entities@.len(),
            final(self).pending_damage == old(self).pending_damage,
            final(self).director == old(self).director,
            final(self).game_over == old(self).game_over,
    {
        self.push_entity(
            Entity {
                alive: true,
                pos,
                body: Body::Player { health: Health::new(health), phase: PlayerState::Alive },
            },
        )
    }

    /// Create one enemy at the right screen edge, moving towards the
    /// interior. The vertical position, speed and engagement distance
    /// come from the caller; the world's own spawning draws them at
    /// random within the documented ranges.
    pub fn spawn_enemy(&mut self, kind: EnemyKind, y: i64, speed: i64, target_distance: i64) -> (id:
        u64)
        requires
            old(self).wf(),
            -MAX_COORD <= y <= MAX_COORD,
            0 <= speed <= MAX_SPEED,
            0 <= target_distance <= MAX_COORD,
        ensures
            final(self).wf(),
            final(self).entities@ == old(self).entities@.push(
                Entity {
                    alive: true,
                    pos: Vec2 { x: SPAWN_X, y },
                    body: Body::Enemy {
                        kind,
                        health: Health { current: ENEMY_HEALTH },
                        phase: EnemyState::Moving,
                        speed,
                        target_distance,
                        attack: Option::None,
                    },
                },
            ),
            id == old(self).entities@.len(),
            final(self).pending_damage == old(self).pending_damage,
            final(self).director == old(self).director,
            final(self).game_over == old(self).game_over,
    {
        self.push_entity(
            Entity {
                alive: true,
                pos: Vec2 { x: SPAWN_X, y },
                body: Body::Enemy {
                    kind,
                    health: Health::new(ENEMY_HEALTH),
                    phase: EnemyState::Moving,
                    speed,
                    target_distance,
                    attack: Option::None,
                },
            },
        )
    }

    /// Advance one entity's own timers by `delta_ms`.
    fn tick_timers_entity(e: Entity, delta_ms: u64) -> (r: Entity)
        requires
            e.wf(),
        ensures
            r == spec_tick_timers_entity(e, delta_ms),
            r.wf(),
    {
        if !e.alive {
            return e;
        }
        match e.body {
            Body::Bomb { state, toss } => Entity {
                body: Body::Bomb { state: state.tick(delta_ms), toss },
                ..e
            },
            Body::Enemy { kind, health, phase, speed, target_distance, attack } => {
                if matches!(phase, EnemyState::Attacking) {
                    match attack {
                        Option::Some(Attack::Lob { timer, target }) => {
                            let mut t = timer;
                            if t.just_finished() {
                                t.reset();
                            } else {
                                t.tick(delta_ms);
                            }
                            Entity {
                                body: Body::Enemy {
                                    kind,
                                    health,
                                    phase,
                                    speed,
                                    target_distance,
                                    attack: Option::Some(Attack::Lob { timer: t, target }),
                                },
                                ..e
                            }
                        },
                        _ => e,
                    }
                } else {
                    e
                }
            },
            Body::Explosion { timer } => {
                let mut t = timer;
                t.tick(delta_ms);
                let still: bool = !t.just_finished();
                Entity { alive: still, body: Body::Explosion { timer: t }, ..e }
            },
            _ => e,
        }
    }

    /// Phase one of a step: every entity's own timers advance — bomb
    /// fuses run their two stages, explosion visuals expire, bomber lob
    /// intervals elapse — and every lob that came due is fired.
    pub fn tick_timers_phase(&mut self, delta_ms: u64)
        requires
            old(self).wf(),
        ensures
            final(self).wf(),
            final(self).entities@ == old(self).entities@.map_values(
                |e: Entity| spec_tick_timers_entity(e, delta_ms),
            ) + spec_lob_spawns(old(self).entities@, old(self).entities@.len() as int),
            forall|i: int|
                0 <= i < old(self).entities@.len() ==> final(self).entities@[i]
                    == spec_tick_timers_entity(#[trigger] old(self).entities@[i], delta_ms),
            final(self).pending_damage == old(self).pending_damage,
            final(self).director == old(self).director,
            final(self).game_over == old(self).game_over,
    {
        let ghost orig: Seq<Entity> = self.entities@;
        let n: usize = self.entities.len();
        let mut lobs: Vec<Entity> = Vec::new();
        let mut i: usize = 0;
        while i < n
            invariant
                n == self.entities@.len() == orig.len(),
                0 <= i <= n,
                self.pending_damage == old(self).pending_damage,
                self.director == old(self).director,
                self.director.wf(),
                self.game_over == old(self).game_over,
                forall|j: int| 0 <= j < orig.len() ==> (#[trigger] orig[j]).wf(),
                forall|j: int| i <= j < n ==> self.entities@[j] == orig[j],
                forall|j: int|
                    0 <= j < i ==> self.entities@[j] == spec_tick_timers_entity(
                        #[trigger] orig[j],
                        delta_ms,
                    ),
                forall|j: int| 0 <= j < n ==> (#[trigger] self.entities@[j]).wf(),
                lobs@ == spec_lob_spawns(orig, i as int),
                forall|k: int| 0 <= k < lobs@.len() ==> (#[trigger] lobs@[k]).wf(),
            decreases n - i,
        {
            let e: Entity = self.entities[i];
            let fires: bool = e.alive && match &e.body {
                Body::Enemy { phase, attack, .. } => matches!(phase, EnemyState::Attacking)
                    && match attack {
                    Option::Some(Attack::Lob { timer, .. }) => timer.just_finished,
                    _ => false,
                },
                _ => false,
            };
            if fires {
                let target: Vec2 = match &e.body {
                    Body::Enemy { attack, .. } => match attack {
                        Option::Some(Attack::Lob { target, .. }) => *target,
                        _ => e.pos,
                    },
                    _ => e.pos,
                };
                lobs.push(
                    Entity {
                        alive: true,
                        pos: e.pos,
                        body: Body::LobShot {
                            flight: Timer::new(LOB_FLIGHT_MS, TimerMode::Once),
                            start: e.pos,
                            target,
                            height: LOB_HEIGHT,
                        },
                    },
                );
            }
            let ticked: Entity = Self::tick_timers_entity(e, delta_ms);
            self.entities.set(i, ticked);
            i = i + 1;
        }
        self.entities.append(&mut lobs);
        proof {
            assert(self.entities@ =~= orig.map_values(
                |e: Entity| spec_tick_timers_entity(e, delta_ms),
            ) + spec_lob_spawns(orig, orig.len() as int));
        }
    }

    /// First pass of the event-response phase: every bomb in
    /// `Exploding` emits exactly one blast at its position, leaves an
    /// explosion visual behind, and is destroyed — all in this same
    /// step, before the blasts are consumed.
    pub fn resolve_explosions(&mut self) -> (blasts: Vec<BlastEvent>)
        requires
            old(self).wf(),
            old(self).entities@.len() < 0x8000_0000_0000_0000,
        ensures
            final(self).wf(),
            final(self).entities@ == old(self).entities@.map_values(
                |e: Entity| spec_explode_entity(e),
            ) + spec_vfx_spawns(old(self).entities@, old(self).entities@.len() as int),
            forall|i: int|
                0 <= i < old(self).entities@.len() ==> final(self).entities@[i]
                    == spec_explode_entity(#[trigger] old(self).entities@[i]),
            blasts@ == spec_blasts_upto(old(self).entities@, old(self).entities@.len() as int),
            forall|k: int|
                0 <= k < blasts@.len() ==> (#[trigger] blasts@[k]).location.in_bounds() && 0
                    <= blasts@[k].range <= MAX_COORD,
            final(self).pending_damage == old(self).pending_damage,
            final(self).director == old(self).director,
            final(self).game_over == old(self).game_over,
    {
        let ghost orig: Seq<Entity> = self.entities@;
        let n: usize = self.entities.len();
        let mut blasts: Vec<BlastEvent> = Vec::new();
        let mut vfx: Vec<Entity> = Vec::new();
        let mut i: usize = 0;
        while i < n
            invariant
                n == self.entities@.len() == orig.len() < 0x8000_0000_0000_0000,
                0 <= i <= n,
                self.pending_damage == old(self).pending_damage,
                self.director == old(self).director,
                self.director.wf(),
                self.game_over == old(self).game_over,
                forall|j: int| 0 <= j < orig.len() ==> (#[trigger] orig[j]).wf(),
                forall|j: int| i <= j < n ==> self.entities@[j] == orig[j],
                forall|j: int|
                    0 <= j < i ==> self.entities@[j] == spec_explode_entity(#[trigger] orig[j]),
                forall|j: int| 0 <= j < n ==> (#[trigger] self.entities@[j]).wf(),
                blasts@ == spec_blasts_upto(orig, i as int),
                forall|k: int|
                    0 <= k < blasts@.len() ==> (#[trigger] blasts@[k]).location.in_bounds() && 0
                        <= blasts@[k].range <= MAX_COORD,
                vfx@ == spec_vfx_spawns(orig, i as int),
                forall|k: int| 0 <= k < vfx@.len() ==> (#[trigger] vfx@[k]).wf(),
            decreases n - i,
        {
            let e: Entity = self.entities[i];
            let exploding: bool = e.alive && match &e.body {
                Body::Bomb { state, .. } => matches!(state, BombState::Exploding),
                _ => false,
            };
            if exploding {
                blasts.push(
                    BlastEvent {
                        source: i as u64,
                        location: e.pos,
                        range: crate::bombs::BLAST_RANGE,
                    },
                );
                vfx.push(
                    Entity {
                        alive: true,
                        pos: e.pos,
                        body: Body::Explosion {
                            timer: Timer::new(EXPLOSION_VFX_MS, TimerMode::Once),
                        },
                    },
                );
                self.entities.set(i, Entity { alive: false, ..e });
            }
            i = i + 1;
        }
        self.entities.append(&mut vfx);
        proof {
            assert(self.entities@ =~= orig.map_values(|e: Entity| spec_explode_entity(e))
                + spec_vfx_spawns(orig, orig.len() as int));
        }
        blasts
    }

    /// Whether any of the given blasts, from another source, strictly
    /// reaches the given position.
    fn blast_reaches(blasts: &Vec<BlastEvent>, i: u64, pos: Vec2) -> (r: bool)
        requires
            pos.in_bounds(),
            forall|k: int|
                0 <= k < blasts@.len() ==> (#[trigger] blasts@[k]).location.in_bounds() && 0
                    <= blasts@[k].range <= MAX_COORD,
        ensures
            r == exists|k: int|
                0 <= k < blasts@.len() && (#[trigger] blasts@[k]).source != i && crate::geom::dist2(
                    blasts@[k].location,
                    pos,
                ) < crate::geom::sq(blasts@[k].range as int),
    {
        let m: usize = blasts.len();
        let mut k: usize = 0;
        while k < m
            invariant
                m == blasts@.len(),
                0 <= k <= m,
                pos.in_bounds(),
                forall|j: int|
                    0 <= j < m ==> (#[trigger] blasts@[j]).location.in_bounds() && 0
                        <= blasts@[j].range <= MAX_COORD,
                forall|j: int|
                    0 <= j < k ==> !((#[trigger] blasts@[j]).source != i && crate::geom::dist2(
                        blasts@[j].location,
                        pos,
                    ) < crate::geom::sq(blasts@[j].range as int)),
            decreases m - k,
        {
            let b: &BlastEvent = &blasts[k];
            if b.source != i && crate::geom::within_strict(b.location, pos, b.range) {
                return true;
            }
            k = k + 1;
        }
        false
    }

    /// Second pass of the event-response phase: every live bomb that
    /// another bomb's blast strictly reaches is force-advanced onto the
    /// secondary fuse. A bomb is never triggered by its own blast.
    pub fn chain_blasts(&mut self, blasts: &Vec<BlastEvent>)
        requires
            old(self).wf(),
            forall|k: int|
                0 <= k < blasts@.len() ==> (#[trigger] blasts@[k]).location.in_bounds() && 0
                    <= blasts@[k].range <= MAX_COORD,
        ensures
            final(self).wf(),
            final(self).entities@.len() == old(self).entities@.len(),
            forall|i: int|
                0 <= i < old(self).entities@.len() ==> final(self).entities@[i]
                    == spec_chain_entity(#[trigger] old(self).entities@[i], i, blasts@),
            final(self).pending_damage == old(self).pending_damage,
            final(self).director == old(self).director,
            final(self).game_over == old(self).game_over,
    {
        let ghost orig: Seq<Entity> = self.entities@;
        let n: usize = self.entities.len();
        let mut i: usize = 0;
        while i < n
            invariant
                n == self.entities@.len() == orig.len(),
                0 <= i <= n,
                self.pending_damage == old(self).pending_damage,
                self.director == old(self).director,
                self.director.wf(),
                self.game_over == old(self).game_over,
                forall|k: int|
                    0 <= k < blasts@.len() ==> (#[trigger] blasts@[k]).location.in_bounds() && 0
                        <= blasts@[k].range <= MAX_COORD,
                forall|j: int| 0 <= j < orig.len() ==> (#[trigger] orig[j]).wf(),
                forall|j: int| i <= j < n ==> self.entities@[j] == orig[j],
                forall|j: int|
                    0 <= j < i ==> self.entities@[j] == spec_chain_entity(
                        #[trigger] orig[j],
                        j,
                        blasts@,
                    ),
                forall|j: int| 0 <= j < n ==> (#[trigger] self.entities@[j]).wf(),
            decreases n - i,
        {
            let e: Entity = self.entities[i];
            let is_bomb: bool = e.alive && matches!(e.body, Body::Bomb { .. });
            if is_bomb {
                if Self::blast_reaches(blasts, i as u64, e.pos) {
                    match e.body {
                        Body::Bomb { state, toss } => {
                            self.entities.set(
                                i,
                                Entity { body: Body::Bomb { state: state.chain_trigger(), toss }, ..e },
                            );
                        },
                        _ => {},
                    }
                }
            }
            i = i + 1;
        }
    }

    /// Third pass of the event-response phase: every blast deals the
    /// fixed area damage to each live damageable entity within the
    /// damage radius that is not already fading out. The damage events
    /// queue up for the application pass of this same step.
    pub fn blast_damage(&mut self, blasts: &Vec<BlastEvent>)
        requires
            old(self).wf(),
            old(self).entities@.len() < 0x8000_0000_0000_0000,
            forall|k: int|
                0 <= k < blasts@.len() ==> (#[trigger] blasts@[k]).location.in_bounds(),
        ensures
            final(self).wf(),
            final(self).entities == old(self).entities,
            final(self).pending_damage@ == old(self).pending_damage@ + spec_all_blast_damage(
                old(self).entities@,
                blasts@,
                blasts@.len() as int,
            ),
            final(self).director == old(self).director,
            final(self).game_over == old(self).game_over,
    {
        let ghost orig: Seq<Entity> = self.entities@;
        let ghost pending0: Seq<DamageEvent> = self.pending_damage@;
        let m: usize = blasts.len();
        let n: usize = self.entities.len();
        let mut bi: usize = 0;
        while bi < m
            invariant
                m == blasts@.len(),
                n == self.entities@.len() == orig.len() < 0x8000_0000_0000_0000,
                0 <= bi <= m,
                self.entities@ == orig,
                self.entities == old(self).entities,
                self.director == old(self).director,
                self.director.wf(),
                self.game_over == old(self).game_over,
                forall|j: int| 0 <= j < orig.len() ==> (#[trigger] orig[j]).wf(),
                forall|k: int| 0 <= k < m ==> (#[trigger] blasts@[k]).location.in_bounds(),
                self.pending_damage@ == pending0 + spec_all_blast_damage(orig, blasts@, bi as int),
            decreases m - bi,
        {
            let b: BlastEvent = blasts[bi];
            let mut i: usize = 0;
            while i < n
                invariant
                    m == blasts@.len(),
                    n == self.entities@.len() == orig.len() < 0x8000_0000_0000_0000,
                    0 <= bi < m,
                    0 <= i <= n,
                    b == blasts@[bi as int],
                    self.entities@ == orig,
                    self.entities == old(self).entities,
                    self.director == old(self).director,
                    self.director.wf(),
                    self.game_over == old(self).game_over,
                    forall|j: int| 0 <= j < orig.len() ==> (#[trigger] orig[j]).wf(),
                    forall|k: int| 0 <= k < m ==> (#[trigger] blasts@[k]).location.in_bounds(),
                    self.pending_damage@ == pending0 + spec_all_blast_damage(
                        orig,
                        blasts@,
                        bi as int,
                    ) + spec_blast_damage_upto(orig, b, i as int),
                decreases n - i,
            {
                let e: &Entity = &self.entities[i];
                let hit: bool = e.alive && match &e.body {
                    Body::Player { phase, .. } => !matches!(phase, PlayerState::Dying { .. }),
                    Body::Enemy { phase, .. } => !matches!(phase, EnemyState::Dead { .. }),
                    _ => false,
                };
                if hit {
                    if crate::geom::within(b.location, e.pos, BLAST_DAMAGE_RANGE) {
                        self.pending_damage.push(
                            DamageEvent { target: i as u64, amount: BLAST_DAMAGE },
                        );
                    }
                }
                i = i + 1;
            }
            bi = bi + 1;
        }
    }

    /// Final pass of the event-response phase: consume every queued
    /// damage event, in order. Each event decrements its target's
    /// health; a hit that leaves the target at or below zero starts the
    /// death fade (insert-if-absent), any other hit starts the hit-flash
    /// window (insert-if-absent).
    pub fn apply_damage_events(&mut self)
        requires
            old(self).wf(),
        ensures
            final(self).wf(),
            final(self).entities@ == spec_apply_events(
                old(self).entities@,
                old(self).pending_damage@,
                old(self).pending_damage@.len() as int,
            ),
            final(self).entities@.len() == old(self).entities@.len(),
            final(self).pending_damage@.len() == 0,
            final(self).director == old(self).director,
            final(self).game_over == old(self).game_over,
    {
        let ghost orig: Seq<Entity> = self.entities@;
        let ghost evs: Seq<DamageEvent> = self.pending_damage@;
        let m: usize = self.pending_damage.len();
        let mut ei: usize = 0;
        while ei < m
            invariant
                m == self.pending_damage@.len() == evs.len(),
                self.pending_damage@ == evs,
                0 <= ei <= m,
                self.director == old(self).director,
                self.director.wf(),
                self.game_over == old(self).game_over,
                self.entities@ == spec_apply_events(orig, evs, ei as int),
                self.entities@.len() == orig.len(),
                forall|j: int| 0 <= j < orig.len() ==> (#[trigger] orig[j]).wf(),
                forall|j: int|
                    0 <= j < self.entities@.len() ==> (#[trigger] self.entities@[j]).wf(),
            decreases m - ei,
        {
            let ghost before: Seq<Entity> = self.entities@;
            let ev: DamageEvent = self.pending_damage[ei];
            let t: u64 = ev.target;
            if t < self.entities.len() as u64 {
                let ti: usize = t as usize;
                let e: Entity = self.entities[ti];
                if e.alive {
                    match e.body {
                        Body::Player { health, phase } => {
                            let mut h = health;
                            let lethal: bool = h.apply_damage(ev.amount);
                            self.entities.set(
                                ti,
                                Entity {
                                    body: Body::Player {
                                        health: h,
                                        phase: phase.on_damage(lethal),
                                    },
                                    ..e
                                },
                            );
                        },
                        Body::Enemy { kind, health, phase, speed, target_distance, attack } => {
                            let mut h = health;
                            let lethal: bool = h.apply_damage(ev.amount);
                            self.entities.set(
                                ti,
                                Entity {
                                    body: Body::Enemy {
                                        kind,
                                        health: h,
                                        phase: phase.on_damage(lethal),
                                        speed,
                                        target_distance,
                                        attack,
                                    },
                                    ..e
                                },
                            );
                        },
                        _ => {},
                    }
                }
            }
            proof {
                assert(self.entities@ =~= spec_apply_event(before, ev));
            }
            ei = ei + 1;
        }
        self.pending_damage.clear();
    }

    /// Advance one entity's flight or march by `delta_ms`.
    fn flight_entity(e: Entity, delta_ms: u64) -> (r: Entity)
        requires
            e.wf(),
            delta_ms <= MAX_STEP_MS,
        ensures
            r == spec_flight_entity(e, delta_ms),
            r.wf(),
    {
        if !e.alive {
            return e;
        }
        match e.body {
            Body::Bomb { state, toss } => match toss {
                Option::Some(t) => {
                    let mut countdown = t.countdown;
                    countdown.tick(delta_ms);
                    if countdown.just_finished() {
                        Entity { body: Body::Bomb { state, toss: Option::None }, ..e }
                    } else {
                        let t2 = BombToss { countdown, ..t };
                        let p: Vec2 = t2.position();
                        Entity { pos: p, body: Body::Bomb { state, toss: Option::Some(t2) }, ..e }
                    }
                },
                Option::None => e,
            },
            Body::LobShot { flight, start, target, height } => {
                let mut fl = flight;
                fl.tick(delta_ms);
                if fl.just_finished() {
                    Entity {
                        alive: false,
                        body: Body::LobShot { flight: fl, start, target, height },
                        ..e
                    }
                } else {
                    let f: i64 = fl.fraction_permille() as i64;
                    let base: Vec2 = crate::geom::lerp_vec(start, target, f);
                    let factor: i64 = crate::ease::arc_lob(f);
                    proof {
                        crate::geom::lemma_scale_permille_bounds(height as int, factor as int);
                    }
                    let lift: i64 = height * factor / 1000;
                    let p: Vec2 = Vec2 { x: base.x, y: crate::geom::clamp_coord(base.y + lift) };
                    Entity { pos: p, body: Body::LobShot { flight: fl, start, target, height }, ..e }
                }
            },
            Body::Bullet { dir, speed } => {
                proof {
                    assert(0 <= speed * delta_ms <= 1_000_000_000_000) by (nonlinear_arith)
                        requires
                            0 <= speed <= 10_000_000,
                            0 <= delta_ms <= 100_000,
                    ;
                    assert(-1_000_000_000_000_000 <= dir.x * (speed * delta_ms)
                        <= 1_000_000_000_000_000 && -1_000_000_000_000_000 <= dir.y * (speed
                        * delta_ms) <= 1_000_000_000_000_000 && -1_000_000_000_000_000 <= (-dir.x)
                        * (speed * delta_ms) <= 1_000_000_000_000_000 && -1_000_000_000_000_000 <= (
                    -dir.y) * (speed * delta_ms) <= 1_000_000_000_000_000) by (nonlinear_arith)
                        requires
                            0 <= speed * delta_ms <= 1_000_000_000_000,
                            -1000 <= dir.x <= 1000,
                            -1000 <= dir.y <= 1000,
                    ;
                }
                let scaled: i64 = speed * delta_ms as i64;
                let dx: i64 = if dir.x >= 0 {
                    dir.x * scaled / 1_000_000
                } else {
                    -((-dir.x) * scaled / 1_000_000)
                };
                let dy: i64 = if dir.y >= 0 {
                    dir.y * scaled / 1_000_000
                } else {
                    -((-dir.y) * scaled / 1_000_000)
                };
                Entity {
                    pos: Vec2 {
                        x: crate::geom::clamp_coord(e.pos.x + dx),
                        y: crate::geom::clamp_coord(e.pos.y + dy),
                    },
                    ..e
                }
            },
            Body::Enemy { phase, speed, .. } => {
                if matches!(phase, EnemyState::Moving) {
                    proof {
                        assert(0 <= speed * delta_ms <= 1_000_000_000_000) by (nonlinear_arith)
                            requires
                                0 <= speed <= 10_000_000,
                                0 <= delta_ms <= 100_000,
                        ;
                    }
                    let d: i64 = speed * delta_ms as i64 / 1000;
                    Entity {
                        pos: Vec2 { x: crate::geom::clamp_coord(e.pos.x - d), y: e.pos.y },
                        ..e
                    }
                } else {
                    e
                }
            },
            _ => e,
        }
    }

    /// Flight-and-movement pass of the update phase: thrown bombs glide
    /// and land, lobbed shots arc and expire, bullets fly straight and
    /// `Moving` enemies march towards the interior.
    pub fn update_flight(&mut self, delta_ms: u64)
        requires
            old(self).wf(),
            delta_ms <= MAX_STEP_MS,
        ensures
            final(self).wf(),
            final(self).entities@.len() == old(self).entities@.len(),
            forall|i: int|
                0 <= i < old(self).entities@.len() ==> final(self).entities@[i]
                    == spec_flight_entity(#[trigger] old(self).entities@[i], delta_ms),
            final(self).pending_damage == old(self).pending_damage,
            final(self).director == old(self).director,
            final(self).game_over == old(self).game_over,
    {
        let ghost orig: Seq<Entity> = self.entities@;
        let n: usize = self.entities.len();
        let mut i: usize = 0;
        while i < n
            invariant
                n == self.entities@.len() == orig.len(),
                0 <= i <= n,
                delta_ms <= MAX_STEP_MS,
                self.pending_damage == old(self).pending_damage,
                self.director == old(self).director,
                self.director.wf(),
                self.game_over == old(self).game_over,
                forall|j: int| 0 <= j < orig.len() ==> (#[trigger] orig[j]).wf(),
                forall|j: int| i <= j < n ==> self.entities@[j] == orig[j],
                forall|j: int|
                    0 <= j < i ==> self.entities@[j] == spec_flight_entity(
                        #[trigger] orig[j],
                        delta_ms,
                    ),
                forall|j: int| 0 <= j < n ==> (#[trigger] self.entities@[j]).wf(),
            decreases n - i,
        {
            let e: Entity = self.entities[i];
            let moved: Entity = Self::flight_entity(e, delta_ms);
            self.entities.set(i, moved);
            i = i + 1;
        }
    }

    /// Lifecycle pass of the update phase: hit-flash windows and death
    /// fades advance; an enemy whose fade completes is removed and
    /// counted as died, and the game ends when the player's fade
    /// completes.
    pub fn update_lifecycle(&mut self, delta_ms: u64) -> (died: u64)
        requires
            old(self).wf(),
            old(self).entities@.len() < 0x8000_0000_0000_0000,
        ensures
            final(self).wf(),
            final(self).entities@.len() == old(self).entities@.len(),
            forall|i: int|
                0 <= i < old(self).entities@.len() ==> final(self).entities@[i]
                    == spec_lifecycle_entity(#[trigger] old(self).entities@[i], delta_ms),
            died == spec_died_count(
                old(self).entities@,
                delta_ms,
                old(self).entities@.len() as int,
            ),
            final(self).pending_damage == old(self).pending_damage,
            final(self).director == old(self).director,
            final(self).game_over == (old(self).game_over || exists|i: int|
                0 <= i < old(self).entities@.len() && spec_player_faded(
                    #[trigger] old(self).entities@[i],
                    delta_ms,
                )),
    {
        let ghost orig: Seq<Entity> = self.entities@;
        let n: usize = self.entities.len();
        let mut died: u64 = 0;
        let mut i: usize = 0;
        while i < n
            invariant
                n == self.entities@.len() == orig.len() < 0x8000_0000_0000_0000,
                0 <= i <= n,
                self.pending_damage == old(self).pending_damage,
                self.director == old(self).director,
                self.director.wf(),
                forall|j: int| 0 <= j < orig.len() ==> (#[trigger] orig[j]).wf(),
                forall|j: int| i <= j < n ==> self.entities@[j] == orig[j],
                forall|j: int|
                    0 <= j < i ==> self.entities@[j] == spec_lifecycle_entity(
                        #[trigger] orig[j],
                        delta_ms,
                    ),
                forall|j: int| 0 <= j < n ==> (#[trigger] self.entities@[j]).wf(),
                died == spec_died_count(orig, delta_ms, i as int),
                died <= i,
                self.game_over == (old(self).game_over || exists|j: int|
                    0 <= j < i && spec_player_faded(#[trigger] orig[j], delta_ms)),
            decreases n - i,
        {
            let e: Entity = self.entities[i];
            if e.alive {
                match e.body {
                    Body::Enemy { kind, health, phase, speed, target_distance, attack } => {
                        if matches!(phase, EnemyState::Damaged { .. }) {
                            let ticked: (EnemyState, bool) = phase.tick_damaged(delta_ms);
                            self.entities.set(
                                i,
                                Entity {
                                    body: Body::Enemy {
                                        kind,
                                        health,
                                        phase: ticked.0,
                                        speed,
                                        target_distance,
                                        attack,
                                    },
                                    ..e
                                },
                            );
                        } else if matches!(phase, EnemyState::Dead { .. }) {
                            let ticked: (EnemyState, bool) = phase.tick_dead(delta_ms);
                            if ticked.1 {
                                died = died + 1;
                            }
                            self.entities.set(
                                i,
                                Entity {
                                    alive: !ticked.1,
                                    body: Body::Enemy {
                                        kind,
                                        health,
                                        phase: ticked.0,
                                        speed,
                                        target_distance,
                                        attack,
                                    },
                                    ..e
                                },
                            );
                        }
                    },
                    Body::Player { health, phase } => {
                        let ticked: (PlayerState, bool) = phase.tick(delta_ms);
                        if ticked.1 {
                            self.game_over = true;
                        }
                        self.entities.set(
                            i,
                            Entity {
                                alive: !ticked.1,
                                body: Body::Player { health, phase: ticked.0 },
                                ..e
                            },
                        );
                    },
                    _ => {},
                }
            }
            i = i + 1;
        }
        died
    }

    /// Advance one entity's combat behavior, given the player position.
    fn combat_entity(e: Entity, ppos: Vec2, delta_ms: u64) -> (r: Entity)
        requires
            e.wf(),
            ppos.in_bounds(),
        ensures
            r == spec_combat_entity(e, ppos, delta_ms),
            r.wf(),
    {
        if !e.alive {
            return e;
        }
        match e.body {
            Body::Enemy { kind, health, phase, speed, target_distance, attack } => {
                if matches!(phase, EnemyState::Attacking) {
                    match attack {
                        Option::Some(Attack::Dive { countdown, start, target }) => {
                            let mut cd = countdown;
                            cd.tick(delta_ms);
                            if cd.just_finished() {
                                Entity {
                                    body: Body::Enemy {
                                        kind,
                                        health,
                                        phase: EnemyState::Dead {
                                            timer: Timer::new(
                                                crate::enemy::DEATH_FADE_MS,
                                                TimerMode::Once,
                                            ),
                                        },
                                        speed,
                                        target_distance,
                                        attack: Option::None,
                                    },
                                    ..e
                                }
                            } else {
                                let eased: i64 = crate::ease::ease_back_in(
                                    cd.fraction_permille() as i64,
                                );
                                let f: i64 = if eased < 0 {
                                    0
                                } else {
                                    eased
                                };
                                let p: Vec2 = crate::geom::lerp_vec(start, target, f);
                                Entity {
                                    pos: p,
                                    body: Body::Enemy {
                                        kind,
                                        health,
                                        phase,
                                        speed,
                                        target_distance,
                                        attack: Option::Some(
                                            Attack::Dive { countdown: cd, start, target },
                                        ),
                                    },
                                    ..e
                                }
                            }
                        },
                        Option::Some(Attack::Shot { .. }) => Entity {
                            body: Body::Enemy {
                                kind,
                                health,
                                phase: EnemyState::Dead {
                                    timer: Timer::new(crate::enemy::DEATH_FADE_MS, TimerMode::Once),
                                },
                                speed,
                                target_distance,
                                attack: Option::None,
                            },
                            ..e
                        },
                        _ => e,
                    }
                } else if matches!(phase, EnemyState::Moving) {
                    if crate::geom::within(e.pos, ppos, target_distance) {
                        let dist: i64 = crate::geom::dist_milli(e.pos, ppos);
                        Entity {
                            body: Body::Enemy {
                                kind,
                                health,
                                phase: EnemyState::Attacking,
                                speed,
                                target_distance,
                                attack: Option::Some(
                                    crate::enemy::start_attack(kind, e.pos, ppos, dist),
                                ),
                            },
                            ..e
                        }
                    } else {
                        e
                    }
                } else {
                    e
                }
            },
            _ => e,
        }
    }

    /// Combat pass of the update phase, given the live player's arena
    /// index: attacking enemies carry out their subtype's attack —
    /// landing dives deal contact damage and fired shots become bullets
    /// — and `Moving` enemies within their engagement distance of the
    /// player switch to attacking.
    pub fn update_combat(&mut self, delta_ms: u64, player: usize)
        requires
            old(self).wf(),
            delta_ms <= MAX_STEP_MS,
            player < old(self).entities@.len(),
            old(self).entities@[player as int].alive,
            old(self).entities@[player as int].body is Player,
        ensures
            final(self).wf(),
            final(self).entities@ == old(self).entities@.map_values(
                |e: Entity| spec_combat_entity(e, old(self).entities@[player as int].pos, delta_ms),
            ) + spec_bullet_spawns(old(self).entities@, old(self).entities@.len() as int),
            forall|i: int|
                0 <= i < old(self).entities@.len() ==> final(self).entities@[i]
                    == spec_combat_entity(
                    #[trigger] old(self).entities@[i],
                    old(self).entities@[player as int].pos,
                    delta_ms,
                ),
            final(self).pending_damage@ == old(self).pending_damage@ + spec_dive_damage(
                old(self).entities@,
                player as int,
                delta_ms,
                old(self).entities@.len() as int,
            ),
            final(self).director == old(self).director,
            final(self).game_over == old(self).game_over,
    {
        let ghost orig: Seq<Entity> = self.entities@;
        let ghost pending0: Seq<DamageEvent> = self.pending_damage@;
        let ppos: Vec2 = self.entities[player].pos;
        let n: usize = self.entities.len();
        let mut bullets: Vec<Entity> = Vec::new();
        let mut i: usize = 0;
        while i < n
            invariant
                n == self.entities@.len() == orig.len(),
                0 <= i <= n,
                delta_ms <= MAX_STEP_MS,
                ppos == orig[player as int].pos,
                ppos.in_bounds(),
                player < n,
                self.director == old(self).director,
                self.director.wf(),
                self.game_over == old(self).game_over,
                forall|j: int| 0 <= j < orig.len() ==> (#[trigger] orig[j]).wf(),
                forall|j: int| i <= j < n ==> self.entities@[j] == orig[j],
                forall|j: int|
                    0 <= j < i ==> self.entities@[j] == spec_combat_entity(
                        #[trigger] orig[j],
                        ppos,
                        delta_ms,
                    ),
                forall|j: int| 0 <= j < n ==> (#[trigger] self.entities@[j]).wf(),
                bullets@ == spec_bullet_spawns(orig, i as int),
                forall|k: int| 0 <= k < bullets@.len() ==> (#[trigger] bullets@[k]).wf(),
                self.pending_damage@ == pending0 + spec_dive_damage(
                    orig,
                    player as int,
                    delta_ms,
                    i as int,
                ),
            decreases n - i,
        {
            let e: Entity = self.entities[i];
            let fires: bool = e.alive && match &e.body {
                Body::Enemy { phase, attack, .. } => matches!(phase, EnemyState::Attacking)
                    && matches!(attack, Option::Some(Attack::Shot { .. })),
                _ => false,
            };
            if fires {
                let target: Vec2 = match &e.body {
                    Body::Enemy { attack, .. } => match attack {
                        Option::Some(Attack::Shot { target }) => *target,
                        _ => e.pos,
                    },
                    _ => e.pos,
                };
                bullets.push(
                    Entity {
                        alive: true,
                        pos: e.pos,
                        body: Body::Bullet {
                            dir: crate::geom::dir_permille(e.pos, target),
                            speed: BULLET_SPEED,
                        },
                    },
                );
            }
            let dives: bool = e.alive && match &e.body {
                Body::Enemy { phase, attack, .. } => matches!(phase, EnemyState::Attacking)
                    && match attack {
                    Option::Some(Attack::Dive { countdown, .. }) => {
                        let mut cd = *countdown;
                        cd.tick(delta_ms);
                        cd.just_finished()
                    },
                    _ => false,
                },
                _ => false,
            };
            if dives {
                self.pending_damage.push(
                    DamageEvent { target: player as u64, amount: CONTACT_DAMAGE },
                );
            }
            let fought: Entity = Self::combat_entity(e, ppos, delta_ms);
            self.entities.set(i, fought);
            i = i + 1;
        }
        self.entities.append(&mut bullets);
        proof {
            assert(self.entities@ =~= orig.map_values(
                |e: Entity| spec_combat_entity(e, orig[player as int].pos, delta_ms),
            ) + spec_bullet_spawns(orig, orig.len() as int));
        }
    }

    /// Bullet-hit pass of the update phase, given the live player's
    /// arena index: every bullet within hit range of the player is
    /// consumed and deals its contact damage.
    pub fn update_bullet_hits(&mut self, player: usize)
        requires
            old(self).wf(),
            player < old(self).entities@.len(),
            old(self).entities@[player as int].alive,
            old(self).entities@[player as int].body is Player,
        ensures
            final(self).wf(),
            final(self).entities@.len() == old(self).entities@.len(),
            forall|i: int|
                0 <= i < old(self).entities@.len() ==> final(self).entities@[i]
                    == spec_bullet_hit_entity(
                    #[trigger] old(self).entities@[i],
                    old(self).entities@[player as int].pos,
                ),
            final(self).pending_damage@ == old(self).pending_damage@ + spec_bullet_hit_damage(
                old(self).entities@,
                old(self).entities@[player as int].pos,
                player as int,
                old(self).entities@.len() as int,
            ),
            final(self).director == old(self).director,
            final(self).game_over == old(self).game_over,
    {
        let ghost orig: Seq<Entity> = self.entities@;
        let ghost pending0: Seq<DamageEvent> = self.pending_damage@;
        let ppos: Vec2 = self.entities[player].pos;
        let n: usize = self.entities.len();
        let mut i: usize = 0;
        while i < n
            invariant
                n == self.entities@.len() == orig.len(),
                0 <= i <= n,
                ppos == orig[player as int].pos,
                ppos.in_bounds(),
                player < n,
                self.director == old(self).director,
                self.director.wf(),
                self.game_over == old(self).game_over,
                forall|j: int| 0 <= j < orig.len() ==> (#[trigger] orig[j]).wf(),
                forall|j: int| i <= j < n ==> self.entities@[j] == orig[j],
                forall|j: int|
                    0 <= j < i ==> self.entities@[j] == spec_bullet_hit_entity(
                        #[trigger] orig[j],
                        ppos,
                    ),
                forall|j: int| 0 <= j < n ==> (#[trigger] self.entities@[j]).wf(),
                self.pending_damage@ == pending0 + spec_bullet_hit_damage(
                    orig,
                    ppos,
                    player as int,
                    i as int,
                ),
            decreases n - i,
        {
            let e: Entity = self.entities[i];
            let hits: bool = e.alive && matches!(e.body, Body::Bullet { .. })
                && crate::geom::within(e.pos, ppos, BULLET_HIT_RANGE);
            if hits {
                self.pending_damage.push(
                    DamageEvent { target: player as u64, amount: CONTACT_DAMAGE },
                );
                self.entities.set(i, Entity { alive: false, ..e });
            }
            i = i + 1;
        }
    }

    /// Spawning pass: count the live enemies of each subtype, give every
    /// spawner its step, and create one enemy at the right screen edge
    /// for each spawner that fired, with randomized vertical position,
    /// speed and engagement distance.
    pub fn run_spawners(&mut self, delta_ms: u64) -> (spawned: u64)
        requires
            old(self).wf(),
            old(self).entities@.len() < 0x8000_0000_0000_0000,
        ensures
            final(self).wf(),
            final(self).director.state == old(self).director.state,
            final(self).director.wave == old(self).director.wave,
            final(self).director.announce == old(self).director.announce,
            old(self).director.state != WaveState::Running ==> final(self).director == old(
                self,
            ).director && final(self).entities@ == old(self).entities@ && spawned == 0,
            old(self).director.state == WaveState::Running ==> {
                let af = spec_present_enemies_of(
                    old(self).entities@,
                    EnemyKind::Flying,
                    old(self).entities@.len() as int,
                ) as u64;
                let ag = spec_present_enemies_of(
                    old(self).entities@,
                    EnemyKind::Ground,
                    old(self).entities@.len() as int,
                ) as u64;
                let ab = spec_present_enemies_of(
                    old(self).entities@,
                    EnemyKind::Bomber,
                    old(self).entities@.len() as int,
                ) as u64;
                let requests = crate::wave::spec_spawn_requests(
                    old(self).director.spawners@,
                    af,
                    ag,
                    ab,
                    delta_ms,
                );
                &&& final(self).director.spawners@ == crate::wave::spec_ticked_spawners(
                    old(self).director.spawners@,
                    af,
                    ag,
                    ab,
                    delta_ms,
                )
                &&& spawned == requests.len()
                &&& final(self).entities@.len() == old(self).entities@.len() + requests.len()
                &&& forall|i: int|
                    0 <= i < old(self).entities@.len() ==> final(self).entities@[i] == #[trigger] old(
                        self,
                    ).entities@[i]
                &&& forall|k: int|
                    0 <= k < requests.len() ==> {
                        let ent = #[trigger] final(self).entities@[old(self).entities@.len() + k];
                        &&& ent.alive
                        &&& ent.pos.x == SPAWN_X
                        &&& -SCREEN_HEIGHT / 2 + SPAWN_Y_MARGIN <= ent.pos.y < SCREEN_HEIGHT / 2
                            - SPAWN_Y_MARGIN
                        &&& ent.body matches Body::Enemy {
                            kind,
                            health,
                            phase,
                            speed,
                            target_distance,
                            attack,
                        } && kind == requests[k] && health.current == ENEMY_HEALTH && phase
                            == EnemyState::Moving && ENEMY_SPEED_MIN <= speed < ENEMY_SPEED_MAX
                            && ENGAGE_BASE - ENGAGE_JITTER <= target_distance < ENGAGE_BASE
                            + ENGAGE_JITTER && attack is None
                    }
            },
            final(self).pending_damage == old(self).pending_damage,
            final(self).game_over == old(self).game_over,
    {
        let af: u64 = self.present_enemy_count_of(EnemyKind::Flying);
        let ag: u64 = self.present_enemy_count_of(EnemyKind::Ground);
        let ab: u64 = self.present_enemy_count_of(EnemyKind::Bomber);
        let requests: Vec<EnemyKind> = self.director.tick_spawners(delta_ms, af, ag, ab);
        let ghost mid: Seq<Entity> = self.entities@;
        let ghost dir1: Director = self.director;
        let m: usize = requests.len();
        let mut k: usize = 0;
        while k < m
            invariant
                m == requests@.len(),
                0 <= k <= m,
                self.wf(),
                self.entities@.len() == mid.len() + k,
                self.pending_damage == old(self).pending_damage,
                self.game_over == old(self).game_over,
                self.director == dir1,
                self.director.wf(),
                forall|i: int| 0 <= i < mid.len() ==> self.entities@[i] == #[trigger] mid[i],
                forall|j: int|
                    0 <= j < k ==> {
                        let ent = #[trigger] self.entities@[mid.len() + j];
                        &&& ent.alive
                        &&& ent.pos.x == SPAWN_X
                        &&& -SCREEN_HEIGHT / 2 + SPAWN_Y_MARGIN <= ent.pos.y < SCREEN_HEIGHT / 2
                            - SPAWN_Y_MARGIN
                        &&& ent.body matches Body::Enemy {
                            kind,
                            health,
                            phase,
                            speed,
                            target_distance,
                            attack,
                        } && kind == requests@[j] && health.current == ENEMY_HEALTH && phase
                            == EnemyState::Moving && ENEMY_SPEED_MIN <= speed < ENEMY_SPEED_MAX
                            && ENGAGE_BASE - ENGAGE_JITTER <= target_distance < ENGAGE_BASE
                            + ENGAGE_JITTER && attack is None
                    },
            decreases m - k,
        {
            let kind: EnemyKind = requests[k];
            let y: i64 = crate::rng::random_in_range(
                -(SCREEN_HEIGHT / 2 - SPAWN_Y_MARGIN),
                SCREEN_HEIGHT / 2 - SPAWN_Y_MARGIN,
            );
            let speed: i64 = crate::rng::random_in_range(ENEMY_SPEED_MIN, ENEMY_SPEED_MAX);
            let jitter: i64 = crate::rng::random_in_range(-ENGAGE_JITTER, ENGAGE_JITTER);
            let target_distance: i64 = ENGAGE_BASE + jitter;
            self.spawn_enemy(kind, y, speed, target_distance);
            k = k + 1;
        }
        proof {
            if self.entities@.len() == mid.len() {
                assert(self.entities@ =~= mid);
            }
        }
        m as u64
    }

    /// Advance the whole simulation by one step of `delta_ms`
    /// milliseconds, through the three ordered phases.
    ///
    /// Tick timers: every entity's own timers advance (bomb fuses, lob
    /// intervals, explosion visuals) and the spawners emit this step's
    /// enemies. Event response: exploding bombs emit their blasts, which
    /// chain-trigger nearby bombs and queue area damage, and all queued
    /// damage is applied. Update: throws and projectiles fly, hit-flash
    /// and death fades advance (removed enemies announce their death),
    /// enemies engage and attack, bullets land, and the wave director
    /// takes its transition.
    ///
    /// Entities despawned before the step are tombstones: nothing in
    /// the step touches them again, so an exploded bomb can never be
    /// re-triggered.
    pub fn step(&mut self, delta_ms: u64) -> (report: StepReport)
        requires
            old(self).wf(),
            delta_ms <= MAX_STEP_MS,
            old(self).entities@.len() < 0x0400_0000_0000_0000,
        ensures
            final(self).wf(),
            final(self).entities@.len() >= old(self).entities@.len(),
            forall|i: int|
                0 <= i < old(self).entities@.len() && !(#[trigger] old(self).entities@[i]).alive
                    ==> final(self).entities@[i] == old(self).entities@[i],
            old(self).game_over ==> final(self).game_over,
            crate::wave::spec_wave_edge(old(self).director.state, final(self).director.state),
            report.blasts@ == spec_blasts_upto(
                spec_after_timers(old(self).entities@, delta_ms),
                spec_after_timers(old(self).entities@, delta_ms).len() as int,
            ),
    {
        let ghost len0: int = self.entities@.len() as int;
        let ghost es0: Seq<Entity> = self.entities@;

        // Phase one: timers and spawning.
        self.tick_timers_phase(delta_ms);
        proof {
            lemma_lob_spawns_len(es0, len0);
        }
        let ghost es1: Seq<Entity> = self.entities@;
        let spawned: u64 = self.run_spawners(delta_ms);
        let ghost es2: Seq<Entity> = self.entities@;
        proof {
            crate::wave::lemma_spawn_requests_len(
                old(self).director.spawners@,
                spec_present_enemies_of(es1, EnemyKind::Flying, es1.len() as int) as u64,
                spec_present_enemies_of(es1, EnemyKind::Ground, es1.len() as int) as u64,
                spec_present_enemies_of(es1, EnemyKind::Bomber, es1.len() as int) as u64,
                delta_ms,
            );
            assert(es2.len() <= es1.len() + 8);
        }

        // Phase two: blasts and damage.
        let blasts: Vec<BlastEvent> = self.resolve_explosions();
        proof {
            lemma_vfx_spawns_len(es2, es2.len() as int);
            // The enemies spawned after the tick phase are no bombs, so
            // the step's blasts are exactly those of the ticked arena.
            assert(es1 =~= spec_after_timers(es0, delta_ms));
            assert forall|i: int|
                es1.len() <= i < es2.len() implies !spec_is_exploding_bomb(es2[i]) by {
                let k = i - es1.len();
                assert(es2[es1.len() + k].body is Enemy);
            }
            lemma_blasts_skip_nonbombs(es2, es1.len() as int, es2.len() as int);
            lemma_blasts_agree(es2, es1, es1.len() as int);
        }
        let ghost es3: Seq<Entity> = self.entities@;
        self.chain_blasts(&blasts);
        let ghost es4: Seq<Entity> = self.entities@;
        self.blast_damage(&blasts);
        let ghost evs: Seq<DamageEvent> = self.pending_damage@;
        self.apply_damage_events();
        let ghost es5: Seq<Entity> = self.entities@;

        // Phase three: flight, lifecycle, combat, and the director.
        self.update_flight(delta_ms);
        let ghost es6: Seq<Entity> = self.entities@;
        let died: u64 = self.update_lifecycle(delta_ms);
        let ghost es7: Seq<Entity> = self.entities@;
        let ghost mut es7b: Seq<Entity> = es7;
        let player: Option<usize> = self.find_player();
        match player {
            Option::Some(pi) => {
                self.update_combat(delta_ms, pi);
                proof {
                    es7b = self.entities@;
                    lemma_bullet_spawns_len(es7, es7.len() as int);
                }
                self.update_bullet_hits(pi);
            },
            Option::None => {},
        }
        let ghost es8: Seq<Entity> = self.entities@;
        let live: u64 = self.live_enemy_count();
        self.director.advance(delta_ms, live, died > 0);

        proof {
            assert forall|i: int|
                0 <= i < len0 && !(#[trigger] es0[i]).alive implies self.entities@[i] == es0[i] by {
                assert(es1[i] == spec_tick_timers_entity(es0[i], delta_ms));
                assert(es1[i] == es0[i]);
                assert(es2[i] == es0[i]);
                assert(es3[i] == spec_explode_entity(es2[i]));
                assert(es4[i] == spec_chain_entity(es3[i], i, blasts@));
                lemma_apply_events_inert_tombstone(es4, evs, evs.len() as int, i);
                assert(es5[i] == es0[i]);
                assert(es6[i] == spec_flight_entity(es5[i], delta_ms));
                assert(es7[i] == spec_lifecycle_entity(es6[i], delta_ms));
                assert(es7[i] == es0[i]);
                match player {
                    Option::Some(pi) => {
                        assert(es7b[i] == spec_combat_entity(
                            es7[i],
                            es7[pi as int].pos,
                            delta_ms,
                        ));
                        assert(es8[i] == spec_bullet_hit_entity(es7b[i], es7b[pi as int].pos));
                    },
                    Option::None => {
                        assert(es8[i] == es0[i]);
                    },
                }
            }
        }

        StepReport { blasts, enemies_died: died, enemies_spawned: spawned }
    }

    /// Index of the live player, if any.
    fn find_player(&self) -> (r: Option<usize>)
        ensures
            match r {
                Option::Some(i) => 0 <= i < self.entities@.len() && self.entities@[i as int].alive
                    && self.entities@[i as int].body is Player,
                Option::None => forall|i: int|
                    0 <= i < self.entities@.len() ==> !((#[trigger] self.entities@[i]).alive
                        && self.entities@[i].body is Player),
            },
    {
        let n: usize = self.entities.len();
        let mut i: usize = 0;
        while i < n
            invariant
                n == self.entities@.len(),
                0 <= i <= n,
                forall|j: int|
                    0 <= j < i ==> !((#[trigger] self.entities@[j]).alive && self.entities@[j].body
                        is Player),
            decreases n - i,
        {
            let e: &Entity = &self.entities[i];
            if e.alive && matches!(e.body, Body::Player { .. }) {
                return Option::Some(i);
            }
            i = i + 1;
        }
        Option::None
    }

    /// Throw a bomb at the given target, as the player's bomb-placement
    /// trigger does: the throw starts beside the player, carries the
    /// placement fuse, and glides to the target over half the distance's
    /// travel time. Without a live player nothing happens.
    pub fn place_bomb(&mut self, target: Vec2) -> (r: Option<u64>)
        requires
            old(self).wf(),
            target.in_bounds(),
        ensures
            final(self).wf(),
            r is Some ==> {
                &&& final(self).entities@.len() == old(self).entities@.len() + 1
                &&& r == Option::Some(old(self).entities@.len() as u64)
                &&& final(self).entities@.last().alive
                &&& final(self).entities@.last().body matches Body::Bomb { state, toss } && state
                    == (BombState::Armed {
                    fuse: Timer::spec_new(BOMB_FUSE_MS, TimerMode::Once),
                }) && toss is Some
            },
            r is None ==> *final(self) == *old(self),
            r is Some <==> exists|i: int|
                0 <= i < old(self).entities@.len() && (#[trigger] old(self).entities@[i]).alive
                    && old(self).entities@[i].body is Player,
    {
        let player: Option<usize> = self.find_player();
        match player {
            Option::Some(pi) => {
                let ppos: Vec2 = self.entities[pi].pos;
                let toss: BombToss = new_toss(ppos, target, BOMB_TOSS_SPEED);
                let e: Entity = Entity {
                    alive: true,
                    pos: toss.start,
                    body: Body::Bomb {
                        state: BombState::new_armed(BOMB_FUSE_MS),
                        toss: Option::Some(toss),
                    },
                };
                let id: u64 = self.push_entity(e);
                Option::Some(id)
            },
            Option::None => Option::None,
        }
    }

    /// Begin the wave cycle; does nothing once it has begun.
    pub fn start_waves(&mut self)
        requires
            old(self).wf(),
        ensures
            final(self).wf(),
            final(self).entities == old(self).entities,
            old(self).director.state == WaveState::Idle ==> final(self).director.state
                == WaveState::Announce,
            old(self).director.state != WaveState::Idle ==> final(self).director == old(
                self,
            ).director,
    {
        self.director.start();
    }

    /// The player's remaining hit points, for the health readout.
    pub fn player_health(&self) -> (r: Option<i32>)
        ensures
            match r {
                Option::Some(h) => exists|i: int|
                    0 <= i < self.entities@.len() && (#[trigger] self.entities@[i]).alive && (
                    self.entities@[i].body matches Body::Player { health, .. } && health.current
                        == h),
                Option::None => forall|i: int|
                    0 <= i < self.entities@.len() ==> !((#[trigger] self.entities@[i]).alive
                        && self.entities@[i].body is Player),
            },
    {
        let player: Option<usize> = self.find_player();
        match player {
            Option::Some(i) => {
                match &self.entities[i].body {
                    Body::Player { health, .. } => Option::Some(health.current),
                    _ => Option::None,
                }
            },
            Option::None => Option::None,
        }
    }

    /// How many enemies are alive and not yet fading out, for the wave
    /// progress readout and the completion predicate.
    pub fn live_enemy_count(&self) -> (r: u64)
        requires
            self.entities@.len() < 0x8000_0000_0000_0000,
        ensures
            r == spec_live_enemies(self.entities@, self.entities@.len() as int),
    {
        let n: usize = self.entities.len();
        let mut count: u64 = 0;
        let mut i: usize = 0;
        while i < n
            invariant
                n == self.entities@.len() < 0x8000_0000_0000_0000,
                0 <= i <= n,
                count == spec_live_enemies(self.entities@, i as int),
                count <= i,
            decreases n - i,
        {
            let e: &Entity = &self.entities[i];
            let live: bool = e.alive && match &e.body {
                Body::Enemy { phase, .. } => !matches!(phase, EnemyState::Dead { .. }),
                _ => false,
            };
            if live {
                count = count + 1;
            }
            i = i + 1;
        }
        count
    }

    /// How many enemies of one subtype are still in the world,
    /// fading-out ones included, for the spawners' concurrency caps.
    pub fn present_enemy_count_of(&self, kind: EnemyKind) -> (r: u64)
        requires
            self.entities@.len() < 0x8000_0000_0000_0000,
        ensures
            r == spec_present_enemies_of(self.entities@, kind, self.entities@.len() as int),
    {
        let n: usize = self.entities.len();
        let mut count: u64 = 0;
        let mut i: usize = 0;
        while i < n
            invariant
                n == self.entities@.len() < 0x8000_0000_0000_0000,
                0 <= i <= n,
                count == spec_present_enemies_of(self.entities@, kind, i as int),
                count <= i,
            decreases n - i,
        {
            let e: &Entity = &self.entities[i];
            let present: bool = e.alive && match &e.body {
                Body::Enemy { kind: k, .. } => *k == kind,
                _ => false,
            };
            if present {
                count = count + 1;
            }
            i = i + 1;
        }
        count
    }

    /// The announced wave number.
    pub fn wave_level(&self) -> (r: u32)
        ensures
            r == self.director.wave.level,
    {
        self.director.wave.level
    }

    /// Where the director stands in the wave cycle.
    pub fn wave_state(&self) -> (r: WaveState)
        ensures
            r == self.director.state,
    {
        self.director.state
    }

    /// Whether the player's death fade has completed.
    pub fn is_game_over(&self) -> (r: bool)
        ensures
            r == self.game_over,
    {
        self.game_over
    }

    /// Whether the entity with the given id is still in the world.
    pub fn is_alive(&self, id: u64) -> (r: bool)
        ensures
            r == (id < self.entities@.len() && self.entities@[id as int].alive),
    {
        if id < self.entities.len() as u64 {
            self.entities[id as usize].alive
        } else {
            false
        }
    }

    /// The current position of an entity.
    pub fn position_of(&self, id: u64) -> (r: Option<Vec2>)
        ensures
            id < self.entities@.len() ==> r == Option::Some(self.entities@[id as int].pos),
            id >= self.entities@.len() ==> r is None,
    {
        if id < self.entities.len() as u64 {
            Option::Some(self.entities[id as usize].pos)
        } else {
            Option::None
        }
    }

    /// The lifecycle state of a bomb entity.
    pub fn bomb_state_of(&self, id: u64) -> (r: Option<BombState>)
        ensures
            match r {
                Option::Some(s) => id < self.entities@.len() && (self.entities@[id as int].body
                    matches Body::Bomb { state, .. } && state == s),
                Option::None => id >= self.entities@.len() || !(self.entities@[id as int].body
                    is Bomb),
            },
    {
        if id < self.entities.len() as u64 {
            match &self.entities[id as usize].body {
                Body::Bomb { state, .. } => Option::Some(*state),
                _ => Option::None,
            }
        } else {
            Option::None
        }
    }

    /// The behavior phase of an enemy entity.
    pub fn enemy_state_of(&self, id: u64) -> (r: Option<EnemyState>)
        ensures
            match r {
                Option::Some(p) => id < self.entities@.len() && (self.entities@[id as int].body
                    matches Body::Enemy { phase, .. } && phase == p),
                Option::None => id >= self.entities@.len() || !(self.entities@[id as int].body
                    is Enemy),
            },
    {
        if id < self.entities.len() as u64 {
            match &self.entities[id as usize].body {
                Body::Enemy { phase, .. } => Option::Some(*phase),
                _ => Option::None,
            }
        } else {
            Option::None
        }
    }
}

} // verus!
