use flappy_core::actor::{Actor, Role};
use flappy_core::geom::Vec3i;
use flappy_core::motion::{player_update, update_pipes};
use flappy_core::session::SessionState;
use flappy_core::world::World;

fn v3(x: i64, y: i64, z: i64) -> Vec3i {
    Vec3i { x, y, z }
}

fn base_state(safe: i32, pause: bool) -> SessionState {
    SessionState {
        score: 0,
        highscore: 0,
        lives: 3,
        well_done_timer: 0,
        try_again_timer: 0,
        safe_timer: safe,
        pause,
    }
}

fn motion_player(y: i64) -> Actor {
    Actor {
        role: Role::Player,
        pos: v3(0, y, 0),
        rot: v3(0, 0, 0),
        scale: v3(200, 200, 200),
        half: v3(50, 50, 50),
    }
}

fn motion_pipe(x: i64) -> Actor {
    Actor {
        role: Role::PipeBottom,
        pos: v3(x, -700, 0),
        rot: v3(0, 0, 0),
        scale: v3(100, 100, 50),
        half: v3(100, 500, 100),
    }
}

fn motion_coin(x: i64, y: i64, scale: i64) -> Actor {
    Actor {
        role: Role::Coin,
        pos: v3(x, y, 0),
        rot: v3(0, 0, 0),
        scale: v3(scale, scale, scale),
        half: v3(50, 50, 50),
    }
}

#[test]
fn player_falls_and_tips_forward() {
    let mut w = World { actors: vec![motion_player(0)], state: base_state(0, false) };
    player_update(&mut w);
    assert_eq!(w.actors[0].pos, v3(0, -5, 0));
    // A negative roll of 70 hundredths of a degree, stored modulo a turn.
    assert_eq!(w.actors[0].rot, v3(0, 0, 35930));
}

#[test]
fn player_rests_on_the_floor() {
    let mut w = World { actors: vec![motion_player(-500)], state: base_state(0, false) };
    player_update(&mut w);
    assert_eq!(w.actors[0].pos, v3(0, -500, 0));
    assert_eq!(w.actors[0].rot, v3(0, 0, 0));
}

#[test]
fn invulnerable_player_blinks_visible() {
    let mut w = World { actors: vec![motion_player(0)], state: base_state(10, false) };
    w.actors[0].scale = v3(0, 0, 0);
    player_update(&mut w);
    // (10 / 5) % 2 == 0: the visible phase restores the full scale.
    assert_eq!(w.actors[0].scale, v3(200, 200, 200));
}

#[test]
fn invulnerable_player_blinks_hidden() {
    let mut w = World { actors: vec![motion_player(0)], state: base_state(5, false) };
    player_update(&mut w);
    // (5 / 5) % 2 == 1: the hidden phase zeroes the scale.
    assert_eq!(w.actors[0].scale, v3(0, 0, 0));
}

#[test]
fn vulnerable_player_keeps_its_scale() {
    let mut w = World { actors: vec![motion_player(0)], state: base_state(0, false) };
    player_update(&mut w);
    assert_eq!(w.actors[0].scale, v3(200, 200, 200));
}

#[test]
fn paused_player_update_is_noop() {
    let mut w = World { actors: vec![motion_player(0)], state: base_state(10, true) };
    player_update(&mut w);
    assert_eq!(w.actors[0].pos, v3(0, 0, 0));
    assert_eq!(w.actors[0].scale, v3(200, 200, 200));
}

#[test]
fn gates_and_coins_scroll_left() {
    let mut w = World {
        actors: vec![motion_pipe(1000), motion_coin(1000, 0, 50)],
        state: base_state(0, false),
    };
    update_pipes(&mut w);
    assert_eq!(w.actors[0].pos.x, 995);
    assert_eq!(w.actors[1].pos.x, 995);
    // The coin always spins, the pipe never does.
    assert_eq!(w.actors[0].rot, v3(0, 0, 0));
    assert_eq!(w.actors[1].rot, v3(0, 500, 0));
}

#[test]
fn gate_recycles_one_cycle_forward() {
    let mut w = World { actors: vec![motion_pipe(-1998)], state: base_state(0, false) };
    update_pipes(&mut w);
    // -1998 - 5 = -2003 passes the edge and wraps forward by 4000.
    assert_eq!(w.actors[0].pos.x, 1997);
    assert_eq!(w.actors[0].pos.y, -700);
}

#[test]
fn collected_coin_recycles_back_into_its_lane() {
    // A collected coin: zero scale, parked 1000 above its lane at 0.
    let mut w = World { actors: vec![motion_coin(-1998, 1000, 0)], state: base_state(0, false) };
    update_pipes(&mut w);
    assert_eq!(w.actors[0].pos.x, 1997);
    assert_eq!(w.actors[0].scale, v3(50, 50, 50));
    assert_eq!(w.actors[0].pos.y, 0);
    assert_eq!(w.actors[0].rot, v3(0, 500, 0));
}

#[test]
fn in_lane_coin_recycles_without_dropping() {
    let mut w = World { actors: vec![motion_coin(-1998, 150, 50)], state: base_state(0, false) };
    update_pipes(&mut w);
    assert_eq!(w.actors[0].pos.x, 1997);
    assert_eq!(w.actors[0].pos.y, 150);
    assert_eq!(w.actors[0].scale, v3(50, 50, 50));
}

#[test]
fn scroll_ignores_player_and_background() {
    let background = Actor {
        role: Role::Background,
        pos: v3(0, 0, -800),
        rot: v3(0, 0, 0),
        scale: v3(100, 100, 100),
        half: v3(1000, 1000, 10),
    };
    let mut w = World {
        actors: vec![motion_player(0), background],
        state: base_state(0, false),
    };
    update_pipes(&mut w);
    assert_eq!(w.actors[0].pos, v3(0, 0, 0));
    assert_eq!(w.actors[1].pos, v3(0, 0, -800));
}

#[test]
fn paused_scroll_is_noop() {
    let mut w = World { actors: vec![motion_pipe(1000)], state: base_state(0, true) };
    update_pipes(&mut w);
    assert_eq!(w.actors[0].pos.x, 1000);
}
