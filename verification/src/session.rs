//! Session scalars: score, persisted high score, lives, the pause flag, and
//! the named countdown timers, as one typed record.

use vstd::prelude::*;

verus! {

/// Duration, in ticks, to which every banner or invulnerability timer is
/// armed (two seconds at the 60 Hz reference rate).
pub const TIMER_DURATION: i32 = 120;

/// Lives are reset to this count on the game-over transition.
pub const FULL_LIVES: i32 = 3;

/// Every this many points, a collectible pickup is a milestone.
pub const MILESTONE_STEP: i32 = 10;

/// All named scalar state of one session.
#[derive(Clone, Copy, PartialEq, Eq, Structural, Debug)]
pub struct SessionState {
    /// Running score, reset to zero on game over.
    pub score: i32,
    /// Best score seen, kept in sync with the persisted copy.
    pub highscore: i32,
    /// Remaining lives, bounded by `FULL_LIVES`; zero only transiently,
    /// as the game-over transition resets it in the same tick.
    pub lives: i32,
    /// "Well done" banner countdown.
    pub well_done_timer: i32,
    /// "Try again" banner countdown.
    pub try_again_timer: i32,
    /// Invulnerability countdown; positive means the player is safe.
    pub safe_timer: i32,
    /// Global pause flag: gates every per-tick rule and the jump.
    pub pause: bool,
}

pub open spec fn state_wf(s: SessionState) -> bool {
    &&& 0 <= s.score
    &&& 0 <= s.lives <= FULL_LIVES
    &&& 0 <= s.well_done_timer
    &&& 0 <= s.try_again_timer
    &&& 0 <= s.safe_timer
}

/// The session scalars at the start of a session with the given stored
/// high score.
pub open spec fn spec_initial_state(highscore: i32) -> SessionState {
    SessionState {
        score: 0,
        highscore: highscore,
        lives: FULL_LIVES,
        well_done_timer: 0,
        try_again_timer: 0,
        safe_timer: 0,
        pause: false,
    }
}

impl SessionState {
    /// Fresh session scalars: no score, full lives, all timers idle,
    /// unpaused, with the given stored high score.
    pub fn new(highscore: i32) -> (s: SessionState)
        ensures
            s == spec_initial_state(highscore),
            state_wf(s),
    {
        SessionState {
            score: 0,
            highscore: highscore,
            lives: FULL_LIVES,
            well_done_timer: 0,
            try_again_timer: 0,
            safe_timer: 0,
            pause: false,
        }
    }
}

} // verus!
