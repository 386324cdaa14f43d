//! Which centered banner the session state asks for: the "well done"
//! milestone banner takes precedence and shows only while its timer runs
//! and a score stands; the "try again" banner shows only while its timer
//! runs right after a game-over score reset.

use vstd::prelude::*;
use crate::session::SessionState;

verus! {

/// The banner to draw this frame, if any.
#[derive(Clone, Copy, PartialEq, Eq, Structural, Debug)]
pub enum Banner {
    WellDone,
    TryAgain,
    Hidden,
}

pub open spec fn spec_banner(s: SessionState) -> Banner {
    if s.well_done_timer > 0 && s.score > 0 {
        Banner::WellDone
    } else if s.try_again_timer > 0 && s.score == 0 {
        Banner::TryAgain
    } else {
        Banner::Hidden
    }
}

/// Picks the banner for the current frame.
pub fn popup_banner(state: &SessionState) -> (b: Banner)
    ensures
        b == spec_banner(*state),
{
    if state.well_done_timer > 0 && state.score > 0 {
        Banner::WellDone
    } else if state.try_again_timer > 0 && state.score == 0 {
        Banner::TryAgain
    } else {
        Banner::Hidden
    }
}

} // verus!
