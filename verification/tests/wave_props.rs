use bomby::enemy::EnemyKind;
use bomby::geom::Vec2;
use bomby::spawner::Spawner;
use bomby::timer::{Timer, TimerMode};
use bomby::wave::{announce_alpha_permille, wave_complete, Director, Wave, WaveState, ANNOUNCE_MS, SPAWN_RATE_MS};
use bomby::world::{Body, World};

#[test]
fn spawner_stops_for_good_after_quota() {
    let mut s = Spawner::new(EnemyKind::Flying, 3, 2, 1000);
    let mut emitted = 0;
    for _ in 0..10 {
        if s.tick(0, 1000) {
            emitted += 1;
        }
    }
    assert_eq!(emitted, 3);
    assert!(s.all_spawned);
    let before = s;
    for _ in 0..5 {
        assert!(!s.tick(0, 100_000));
    }
    assert_eq!(s, before);
}

#[test]
fn spawner_respects_concurrency_cap() {
    let mut s = Spawner::new(EnemyKind::Ground, 5, 2, 1000);
    assert!(!s.tick(3, 1000));
    assert_eq!(s.timer.elapsed_ms, 0);
    assert!(s.tick(2, 1000));
}

#[test]
fn zero_quota_spawner_starts_exhausted() {
    let s = Spawner::new(EnemyKind::Bomber, 0, 2, 1000);
    assert!(s.all_spawned);
}

#[test]
fn completion_needs_silence_and_exhaustion() {
    let done = Spawner {
        kind: EnemyKind::Flying,
        all_spawned: true,
        limit: 5,
        max_at_once: 2,
        spawned: 5,
        timer: Timer::new(1000, TimerMode::Repeating),
    };
    let busy = Spawner { all_spawned: false, spawned: 3, ..done };
    assert!(wave_complete(0, &vec![done, done]));
    assert!(!wave_complete(1, &vec![done, done]));
    assert!(!wave_complete(0, &vec![done, busy]));
    assert!(!wave_complete(2, &vec![busy]));
    assert!(wave_complete(0, &vec![]));
}

#[test]
fn escalation_grows_quota_first() {
    let mut w = Wave { level: 1, limit: 5, limit_growth: 2, max_at_once: 2 };
    w.escalate();
    assert_eq!(w, Wave { level: 2, limit: 7, limit_growth: 2, max_at_once: 2 });
}

#[test]
fn escalation_raises_cap_when_it_lags() {
    let mut w = Wave { level: 4, limit: 12, limit_growth: 2, max_at_once: 3 };
    w.escalate();
    assert_eq!(w, Wave { level: 5, limit: 12, limit_growth: 2, max_at_once: 4 });
}

#[test]
fn director_cycles_announce_to_running() {
    let mut w = World::new();
    w.spawn_player(Vec2::new(-616_000, 0), 1000);
    w.start_waves();
    assert_eq!(w.wave_state(), WaveState::Announce);
    w.step(3000);
    assert_eq!(w.wave_state(), WaveState::Init);
    w.step(16);
    assert_eq!(w.wave_state(), WaveState::Running);
    assert_eq!(w.director.spawners.len(), 2);
    let r = w.step(1000);
    assert_eq!(r.enemies_spawned, 2);
    assert_eq!(w.live_enemy_count(), 2);
    assert_eq!(w.wave_level(), 1);
}

#[test]
fn completed_wave_escalates_and_reannounces() {
    let exhausted = Spawner {
        kind: EnemyKind::Flying,
        all_spawned: true,
        limit: 5,
        max_at_once: 2,
        spawned: 5,
        timer: Timer::new(SPAWN_RATE_MS, TimerMode::Repeating),
    };
    let mut d = Director {
        state: WaveState::Running,
        wave: Wave { level: 1, limit: 5, limit_growth: 2, max_at_once: 2 },
        announce: Timer::new(ANNOUNCE_MS, TimerMode::Once),
        spawners: vec![exhausted, Spawner { kind: EnemyKind::Ground, ..exhausted }],
    };
    d.advance(16, 0, true);
    assert_eq!(d.state, WaveState::Done);
    d.advance(16, 0, false);
    assert_eq!(d.state, WaveState::Announce);
    assert_eq!(d.spawners.len(), 0);
    assert_eq!(d.wave, Wave { level: 2, limit: 7, limit_growth: 2, max_at_once: 2 });
}

#[test]
fn running_wave_waits_for_a_death_signal() {
    let mut d = Director {
        state: WaveState::Running,
        wave: Wave { level: 1, limit: 5, limit_growth: 2, max_at_once: 2 },
        announce: Timer::new(ANNOUNCE_MS, TimerMode::Once),
        spawners: vec![],
    };
    d.advance(16, 0, false);
    assert_eq!(d.state, WaveState::Running);
    d.advance(16, 3, true);
    assert_eq!(d.state, WaveState::Running);
    d.advance(16, 0, true);
    assert_eq!(d.state, WaveState::Done);
}

#[test]
fn spawned_enemies_draw_parameters_within_ranges() {
    let mut w = World::new();
    w.director.state = WaveState::Running;
    w.director.spawners = vec![Spawner::new(EnemyKind::Flying, 4, 4, 0)];
    let r = w.step(16);
    assert_eq!(r.enemies_spawned, 1);
    match &w.entities[0].body {
        Body::Enemy { kind, speed, target_distance, .. } => {
            assert_eq!(*kind, EnemyKind::Flying);
            assert!((64_000..128_000).contains(speed));
            assert!((250_000..350_000).contains(target_distance));
        }
        _ => panic!("expected a spawned enemy"),
    }
    // Spawned at the right screen edge, then marched one frame towards
    // the interior at its drawn speed.
    assert!((637_953..=638_976).contains(&w.entities[0].pos.x));
    assert!(w.entities[0].pos.y >= -296_000 && w.entities[0].pos.y < 296_000);
}

#[test]
fn wave_completes_when_quota_dies_out() {
    let mut w = World::new();
    w.spawn_player(Vec2::new(-616_000, 0), 1000);
    w.director.state = WaveState::Running;
    w.director.spawners = vec![
        Spawner::new(EnemyKind::Flying, 5, 2, 1000),
        Spawner::new(EnemyKind::Ground, 5, 2, 1000),
    ];
    let mut elapsed = 0u64;
    while w.wave_state() == WaveState::Running && elapsed < 60_000 {
        // Kill everything that shows up; the spawners still have to
        // deliver their whole quota before the wave can end.
        for i in 0..w.entities.len() {
            if w.entities[i].alive {
                if let Body::Enemy { .. } = w.entities[i].body {
                    w.pending_damage.push(bomby::events::DamageEvent {
                        target: i as u64,
                        amount: 100,
                    });
                }
            }
        }
        w.step(250);
        elapsed += 250;
    }
    assert_eq!(w.wave_state(), WaveState::Done);
    assert!(w.director.spawners.iter().all(|s| s.all_spawned));
    assert_eq!(w.live_enemy_count(), 0);
    // The next step cleans up and announces the escalated round.
    w.step(16);
    assert_eq!(w.wave_state(), WaveState::Announce);
    assert_eq!(w.director.wave.level, 2);
    assert_eq!(w.director.wave.limit, 7);
    assert_eq!(w.director.spawners.len(), 0);
}

#[test]
fn announce_banner_fades_in_and_out() {
    let mut t = Timer::new(1000, TimerMode::Once);
    t.tick(250);
    assert_eq!(announce_alpha_permille(&t), 500);
    t.tick(500);
    assert_eq!(announce_alpha_permille(&t), 500);
}
