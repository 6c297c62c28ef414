use bomby::bombs::BombState;
use bomby::geom::Vec2;
use bomby::world::World;

#[test]
fn bomb_two_stage_fuse_and_chain_reaction() {
    let mut w = World::new();
    w.spawn_player(Vec2::new(0, 0), 1000);
    let a = w.place_bomb(Vec2::new(0, 0)).unwrap();
    // One second in: the placement fuse keeps running after the throw
    // lands.
    for _ in 0..4 {
        w.step(250);
    }
    match w.bomb_state_of(a) {
        Some(BombState::Armed { fuse }) => assert_eq!(fuse.elapsed_ms, 1000),
        other => panic!("expected the bomb still armed, got {:?}", other),
    }
    let b = w.place_bomb(Vec2::new(10_000, 0)).unwrap();
    for _ in 0..6 {
        let r = w.step(250);
        assert_eq!(r.blasts.len(), 0);
    }
    // At 2750 ms the 2.75 s placement fuse hands over to the 0.25 s
    // secondary fuse.
    w.step(250);
    match w.bomb_state_of(a) {
        Some(BombState::WillExplode { fuse }) => {
            assert_eq!(fuse.duration_ms, 250);
            assert_eq!(fuse.elapsed_ms, 0);
        }
        other => panic!("expected the secondary fuse, got {:?}", other),
    }
    assert!(matches!(w.bomb_state_of(b), Some(BombState::Armed { .. })));
    // At 3000 ms the bomb explodes: exactly one blast with the 50-unit
    // chain range, and the second bomb within that range is forced onto
    // its secondary fuse in the same step.
    let r = w.step(250);
    assert_eq!(r.blasts.len(), 1);
    assert_eq!(r.blasts[0].source, a);
    assert_eq!(r.blasts[0].range, 50_000);
    assert!(!w.is_alive(a));
    match w.bomb_state_of(b) {
        Some(BombState::WillExplode { fuse }) => assert_eq!(fuse.elapsed_ms, 0),
        other => panic!("expected the chain trigger, got {:?}", other),
    }
    // At 3250 ms the second bomb goes off; the first stays destroyed, so
    // the cascade never loops back.
    let r2 = w.step(250);
    assert_eq!(r2.blasts.len(), 1);
    assert_eq!(r2.blasts[0].source, b);
    assert!(!w.is_alive(a));
    assert!(!w.is_alive(b));
}

#[test]
fn blast_does_not_reach_distant_bomb() {
    let mut w = World::new();
    w.spawn_player(Vec2::new(0, 0), 1000);
    let a = w.place_bomb(Vec2::new(0, 0)).unwrap();
    for _ in 0..4 {
        w.step(250);
    }
    // This one rests about a hundred units from the first: outside the
    // 50-unit chain range.
    let c = w.place_bomb(Vec2::new(200_000, 0)).unwrap();
    for _ in 0..7 {
        w.step(250);
    }
    let r = w.step(250);
    assert_eq!(r.blasts.len(), 1);
    assert_eq!(r.blasts[0].source, a);
    assert!(matches!(w.bomb_state_of(c), Some(BombState::Armed { .. })));
}

#[test]
fn bomb_needs_a_live_thrower() {
    let mut w = World::new();
    assert!(w.place_bomb(Vec2::new(0, 0)).is_none());
}
