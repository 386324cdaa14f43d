use flappy_core::actor::Role;
use flappy_core::scene::{setup_scene, spawn_gate, spawn_pipes};
use flappy_core::world::World;

#[test]
fn new_world_starts_fresh() {
    let w = World::new(17);
    assert_eq!(w.state.score, 0);
    assert_eq!(w.state.highscore, 17);
    assert_eq!(w.state.lives, 3);
    assert_eq!(w.state.well_done_timer, 0);
    assert_eq!(w.state.try_again_timer, 0);
    assert_eq!(w.state.safe_timer, 0);
    assert!(!w.state.pause);
    assert!(w.actors.is_empty());
}

#[test]
fn gate_actors_stand_in_formation() {
    let mut w = World::new(0);
    spawn_gate(&mut w, 1500, -120);
    assert_eq!(w.actors.len(), 3);
    let coin = &w.actors[0];
    let top = &w.actors[1];
    let bottom = &w.actors[2];
    assert_eq!(coin.role, Role::Coin);
    assert_eq!(top.role, Role::PipeTop);
    assert_eq!(bottom.role, Role::PipeBottom);
    // One gate: coin on the lane, the halves one gap above and below.
    assert_eq!(coin.pos.x, 2000);
    assert_eq!(top.pos.x, 2000);
    assert_eq!(bottom.pos.x, 2000);
    assert_eq!(coin.pos.y, -120);
    assert_eq!(top.pos.y, 580);
    assert_eq!(bottom.pos.y, -820);
    assert_eq!(coin.scale.x, 50);
}

#[test]
fn random_gate_stays_in_the_lane_band() {
    let mut w = World::new(0);
    spawn_pipes(&mut w, 0);
    assert_eq!(w.actors.len(), 3);
    let y = w.actors[0].pos.y;
    assert!((-200..200).contains(&y));
    assert_eq!(w.actors[1].pos.y, y + 700);
    assert_eq!(w.actors[2].pos.y, y - 700);
}

#[test]
fn scene_has_one_player_and_eight_gates() {
    let mut w = World::new(3);
    setup_scene(&mut w);
    assert_eq!(w.actors.len(), 26);
    assert_eq!(w.actors[0].role, Role::Background);
    assert_eq!(w.actors[1].role, Role::Player);
    assert_eq!(w.actors[1].pos.x, 0);
    assert_eq!(w.actors[1].pos.y, 0);
    assert_eq!(w.actors[1].scale.x, 200);
    for g in 0..8 {
        let coin = &w.actors[2 + 3 * g];
        let top = &w.actors[3 + 3 * g];
        let bottom = &w.actors[4 + 3 * g];
        assert_eq!(coin.role, Role::Coin);
        assert_eq!(top.role, Role::PipeTop);
        assert_eq!(bottom.role, Role::PipeBottom);
        let x = 500 + 500 * g as i64;
        assert_eq!(coin.pos.x, x);
        assert_eq!(top.pos.x, x);
        assert_eq!(bottom.pos.x, x);
        assert!((-200..200).contains(&coin.pos.y));
        assert_eq!(top.pos.y, coin.pos.y + 700);
        assert_eq!(bottom.pos.y, coin.pos.y - 700);
    }
    assert_eq!(w.state.highscore, 3);
}
