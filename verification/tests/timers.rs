use flappy_core::session::SessionState;
use flappy_core::timers::update_ui_timers;
use flappy_core::world::World;

fn timer_world(well: i32, try_again: i32, safe: i32, pause: bool) -> World {
    World {
        actors: vec![],
        state: SessionState {
            score: 4,
            highscore: 9,
            lives: 3,
            well_done_timer: well,
            try_again_timer: try_again,
            safe_timer: safe,
            pause,
        },
    }
}

#[test]
fn timers_count_down_by_one() {
    let mut w = timer_world(120, 5, 1, false);
    update_ui_timers(&mut w);
    assert_eq!(w.state.well_done_timer, 119);
    assert_eq!(w.state.try_again_timer, 4);
    assert_eq!(w.state.safe_timer, 0);
    assert_eq!(w.state.score, 4);
    assert_eq!(w.state.lives, 3);
}

#[test]
fn timers_never_go_negative() {
    let mut w = timer_world(0, 0, 1, false);
    update_ui_timers(&mut w);
    update_ui_timers(&mut w);
    update_ui_timers(&mut w);
    assert_eq!(w.state.well_done_timer, 0);
    assert_eq!(w.state.try_again_timer, 0);
    assert_eq!(w.state.safe_timer, 0);
}

#[test]
fn paused_tick_leaves_every_timer_alone() {
    let mut w = timer_world(3, 4, 5, true);
    update_ui_timers(&mut w);
    assert_eq!(w.state.well_done_timer, 3);
    assert_eq!(w.state.try_again_timer, 4);
    assert_eq!(w.state.safe_timer, 5);
}
