use bomby::enemy::{EnemyKind, EnemyState};
use bomby::events::DamageEvent;
use bomby::geom::Vec2;
use bomby::health::Health;
use bomby::player::PlayerState;
use bomby::world::{Body, Entity, World};

#[test]
fn overkill_hit_kills_and_health_goes_nonpositive() {
    let mut w = World::new();
    let id = w.spawn_enemy(EnemyKind::Flying, 0, 100_000, 300_000);
    w.pending_damage.push(DamageEvent { target: id, amount: 5 });
    w.apply_damage_events();
    match w.enemy_state_of(id) {
        Some(EnemyState::Dead { timer }) => assert_eq!(timer.elapsed_ms, 0),
        other => panic!("expected the death fade, got {:?}", other),
    }
    match &w.entities[id as usize].body {
        Body::Enemy { health, .. } => assert!(health.current <= 0),
        _ => panic!("expected an enemy"),
    }
}

#[test]
fn second_lethal_hit_does_not_restart_death_fade() {
    let mut w = World::new();
    let id = w.spawn_enemy(EnemyKind::Ground, 0, 100_000, 300_000);
    w.pending_damage.push(DamageEvent { target: id, amount: 10 });
    w.apply_damage_events();
    w.update_lifecycle(200);
    w.pending_damage.push(DamageEvent { target: id, amount: 10 });
    w.apply_damage_events();
    match w.enemy_state_of(id) {
        Some(EnemyState::Dead { timer }) => assert_eq!(timer.elapsed_ms, 200),
        other => panic!("expected the death fade, got {:?}", other),
    }
}

#[test]
fn nonlethal_hit_flash_is_not_restarted_and_resumes_movement() {
    let mut w = World::new();
    w.entities.push(Entity {
        alive: true,
        pos: Vec2::new(0, 0),
        body: Body::Enemy {
            kind: EnemyKind::Flying,
            health: Health { current: 5 },
            phase: EnemyState::Moving,
            speed: 100_000,
            target_distance: 0,
            attack: None,
        },
    });
    w.pending_damage.push(DamageEvent { target: 0, amount: 1 });
    w.apply_damage_events();
    match w.enemy_state_of(0) {
        Some(EnemyState::Damaged { was_moving, timer, .. }) => {
            assert!(was_moving);
            assert_eq!(timer.elapsed_ms, 0);
        }
        other => panic!("expected the hit flash, got {:?}", other),
    }
    w.update_lifecycle(100);
    w.pending_damage.push(DamageEvent { target: 0, amount: 1 });
    w.apply_damage_events();
    match w.enemy_state_of(0) {
        Some(EnemyState::Damaged { was_moving, timer, .. }) => {
            assert!(was_moving);
            assert_eq!(timer.elapsed_ms, 100);
        }
        other => panic!("expected the flash window untouched, got {:?}", other),
    }
    w.update_lifecycle(400);
    assert_eq!(w.enemy_state_of(0), Some(EnemyState::Moving));
}

#[test]
fn damage_to_missing_target_is_skipped() {
    let mut w = World::new();
    w.pending_damage.push(DamageEvent { target: 7, amount: 1 });
    w.apply_damage_events();
    assert_eq!(w.pending_damage.len(), 0);
}

#[test]
fn health_saturates_instead_of_wrapping() {
    let mut w = World::new();
    w.entities.push(Entity {
        alive: true,
        pos: Vec2::new(0, 0),
        body: Body::Enemy {
            kind: EnemyKind::Bomber,
            health: Health { current: i32::MIN + 1 },
            phase: EnemyState::Moving,
            speed: 100_000,
            target_distance: 0,
            attack: None,
        },
    });
    w.pending_damage.push(DamageEvent { target: 0, amount: i32::MAX });
    w.apply_damage_events();
    match &w.entities[0].body {
        Body::Enemy { health, .. } => assert_eq!(health.current, i32::MIN),
        _ => panic!("expected an enemy"),
    }
}

#[test]
fn player_overkill_ends_the_game_after_the_fade() {
    let mut w = World::new();
    let pid = w.spawn_player(Vec2::new(0, 0), 1000);
    w.pending_damage.push(DamageEvent { target: pid, amount: 1500 });
    w.step(16);
    assert_eq!(w.player_health(), Some(-500));
    match &w.entities[pid as usize].body {
        Body::Player { phase, .. } => assert!(matches!(phase, PlayerState::Dying { .. })),
        _ => panic!("expected the player"),
    }
    assert!(!w.is_game_over());
    w.step(1000);
    assert!(w.is_game_over());
    assert!(!w.is_alive(pid));
    assert_eq!(w.player_health(), None);
}
