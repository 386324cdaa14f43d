use flappy_core::actor::{Actor, Role};
use flappy_core::collision::check_collision;
use flappy_core::effects::{AudioCue, Effect};
use flappy_core::geom::Vec3i;
use flappy_core::motion::{player_update, update_pipes};
use flappy_core::session::SessionState;
use flappy_core::timers::update_ui_timers;
use flappy_core::world::World;

#[test]
fn one_full_tick_collects_a_coin() {
    // One simulation tick in the original order: timer bank, controlled
    // actor, scrolling actors, collision resolver.
    let player = Actor {
        role: Role::Player,
        pos: Vec3i { x: 0, y: 0, z: 0 },
        rot: Vec3i { x: 0, y: 0, z: 0 },
        scale: Vec3i { x: 200, y: 200, z: 200 },
        half: Vec3i { x: 50, y: 50, z: 50 },
    };
    let coin = Actor {
        role: Role::Coin,
        pos: Vec3i { x: 0, y: 0, z: 0 },
        rot: Vec3i { x: 0, y: 0, z: 0 },
        scale: Vec3i { x: 50, y: 50, z: 50 },
        half: Vec3i { x: 50, y: 50, z: 50 },
    };
    let mut w = World {
        actors: vec![player, coin],
        state: SessionState {
            score: 3,
            highscore: 9,
            lives: 3,
            well_done_timer: 0,
            try_again_timer: 2,
            safe_timer: 0,
            pause: false,
        },
    };
    update_ui_timers(&mut w);
    player_update(&mut w);
    update_pipes(&mut w);
    let effects = check_collision(&mut w);
    // The timer bank ran first.
    assert_eq!(w.state.try_again_timer, 1);
    // The player fell, the coin scrolled, and they still intersect.
    assert_eq!(w.actors[0].pos.y, -5);
    assert_eq!(w.actors[1].pos.x, -5);
    assert_eq!(w.state.score, 4);
    assert_eq!(w.actors[1].scale, Vec3i { x: 0, y: 0, z: 0 });
    assert_eq!(effects, vec![Effect::PlayAudio(AudioCue::Collect)]);
}

#[test]
fn paused_tick_changes_nothing() {
    let player = Actor {
        role: Role::Player,
        pos: Vec3i { x: 0, y: 0, z: 0 },
        rot: Vec3i { x: 0, y: 0, z: 0 },
        scale: Vec3i { x: 200, y: 200, z: 200 },
        half: Vec3i { x: 50, y: 50, z: 50 },
    };
    let mut w = World {
        actors: vec![player],
        state: SessionState {
            score: 3,
            highscore: 9,
            lives: 3,
            well_done_timer: 6,
            try_again_timer: 2,
            safe_timer: 4,
            pause: true,
        },
    };
    let before_state = w.state;
    update_ui_timers(&mut w);
    player_update(&mut w);
    update_pipes(&mut w);
    let effects = check_collision(&mut w);
    assert_eq!(w.state, before_state);
    assert_eq!(w.actors[0].pos, Vec3i { x: 0, y: 0, z: 0 });
    assert!(effects.is_empty());
}
