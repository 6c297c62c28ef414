use bomby::enemy::{Attack, EnemyKind, EnemyState};
use bomby::geom::Vec2;
use bomby::health::Health;
use bomby::world::{Body, Entity, World};

fn world_with_player_and_enemy(kind: EnemyKind, enemy_pos: Vec2) -> (World, u64) {
    let mut w = World::new();
    w.spawn_player(Vec2::new(0, 0), 100);
    w.entities.push(Entity {
        alive: true,
        pos: enemy_pos,
        body: Body::Enemy {
            kind,
            health: Health { current: 1 },
            phase: EnemyState::Moving,
            speed: 100_000,
            target_distance: 300_000,
            attack: None,
        },
    });
    (w, 1)
}

#[test]
fn enemy_engages_within_target_distance() {
    let (mut w, eid) = world_with_player_and_enemy(EnemyKind::Flying, Vec2::new(200_000, 0));
    w.step(16);
    assert_eq!(w.enemy_state_of(eid), Some(EnemyState::Attacking));
    match &w.entities[eid as usize].body {
        Body::Enemy { attack: Some(Attack::Dive { countdown, .. }), .. } => {
            // It marched 1.6 units closer first; the dive takes half the
            // travel time at 200 units per second.
            assert_eq!(countdown.duration_ms, 496);
        }
        _ => panic!("expected a dive attack"),
    }
}

#[test]
fn distant_enemy_keeps_marching() {
    let (mut w, eid) = world_with_player_and_enemy(EnemyKind::Flying, Vec2::new(500_000, 0));
    w.step(16);
    assert_eq!(w.enemy_state_of(eid), Some(EnemyState::Moving));
    assert_eq!(w.entities[eid as usize].pos.x, 498_400);
}

#[test]
fn flying_dive_lands_contact_damage_and_dies() {
    let (mut w, eid) = world_with_player_and_enemy(EnemyKind::Flying, Vec2::new(200_000, 0));
    w.step(16);
    w.step(496);
    assert!(matches!(w.enemy_state_of(eid), Some(EnemyState::Dead { .. })));
    w.step(16);
    assert_eq!(w.player_health(), Some(99));
}

#[test]
fn ground_enemy_fires_one_bullet_then_self_destructs() {
    let (mut w, eid) = world_with_player_and_enemy(EnemyKind::Ground, Vec2::new(200_000, 0));
    w.step(16);
    assert_eq!(w.enemy_state_of(eid), Some(EnemyState::Attacking));
    let before = w.entities.len();
    w.step(16);
    assert_eq!(w.entities.len(), before + 1);
    match &w.entities[before].body {
        Body::Bullet { speed, .. } => assert_eq!(*speed, 300_000),
        _ => panic!("expected a bullet"),
    }
    assert!(matches!(w.enemy_state_of(eid), Some(EnemyState::Dead { .. })));
}

#[test]
fn bullet_reaching_player_hits_for_contact_damage() {
    let mut w = World::new();
    w.spawn_player(Vec2::new(0, 0), 50);
    w.entities.push(Entity {
        alive: true,
        pos: Vec2::new(10_000, 0),
        body: Body::Bullet { dir: Vec2::new(-1000, 0), speed: 300_000 },
    });
    w.step(16);
    assert!(!w.is_alive(1));
    w.step(16);
    assert_eq!(w.player_health(), Some(49));
}

#[test]
fn bomber_lobs_on_a_fixed_interval() {
    let (mut w, eid) = world_with_player_and_enemy(EnemyKind::Bomber, Vec2::new(200_000, 0));
    w.step(16);
    assert_eq!(w.enemy_state_of(eid), Some(EnemyState::Attacking));
    let before = w.entities.len();
    w.step(1000);
    assert_eq!(w.entities.len(), before);
    w.step(16);
    assert_eq!(w.entities.len(), before + 1);
    assert!(matches!(w.entities[before].body, Body::LobShot { .. }));
    w.step(1000);
    assert!(!w.entities[before].alive);
}
