use flappy_core::banner::{popup_banner, Banner};
use flappy_core::session::SessionState;

fn banner_state(score: i32, well: i32, try_again: i32) -> SessionState {
    SessionState {
        score,
        highscore: 0,
        lives: 3,
        well_done_timer: well,
        try_again_timer: try_again,
        safe_timer: 0,
        pause: false,
    }
}

#[test]
fn well_done_shows_while_armed_with_a_score() {
    assert_eq!(popup_banner(&banner_state(10, 120, 0)), Banner::WellDone);
}

#[test]
fn try_again_shows_only_after_a_reset() {
    assert_eq!(popup_banner(&banner_state(0, 0, 120)), Banner::TryAgain);
    // With a score standing, the try-again banner stays hidden.
    assert_eq!(popup_banner(&banner_state(4, 0, 120)), Banner::Hidden);
}

#[test]
fn well_done_takes_precedence() {
    // Both timers armed: a zero score blocks the milestone banner, and the
    // try-again banner takes over.
    assert_eq!(popup_banner(&banner_state(0, 120, 120)), Banner::TryAgain);
    assert_eq!(popup_banner(&banner_state(10, 120, 120)), Banner::WellDone);
}

#[test]
fn idle_timers_show_nothing() {
    assert_eq!(popup_banner(&banner_state(10, 0, 0)), Banner::Hidden);
}
