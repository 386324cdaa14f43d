//! The timer bank: one decrement per unpaused tick for each named
//! countdown, never below zero.

use vstd::prelude::*;
use crate::world::World;

verus! {

/// One unpaused tick of a single countdown: strictly positive values are
/// decremented by one, everything else is left alone.
pub open spec fn spec_tick_timer(t: int) -> int {
    if t > 0 {
        t - 1
    } else {
        t
    }
}

/// Counts every banner and invulnerability timer down by one tick. A no-op
/// when the pause flag is set; no timer ever drops below zero.
pub fn update_ui_timers(world: &mut World)
    ensures
        final(world).actors@ == old(world).actors@,
        final(world).state.score == old(world).state.score,
        final(world).state.highscore == old(world).state.highscore,
        final(world).state.lives == old(world).state.lives,
        final(world).state.pause == old(world).state.pause,
        old(world).state.pause ==> final(world).state == old(world).state,
        !old(world).state.pause ==> {
            &&& final(world).state.well_done_timer == spec_tick_timer(
                old(world).state.well_done_timer as int,
            )
            &&& final(world).state.try_again_timer == spec_tick_timer(
                old(world).state.try_again_timer as int,
            )
            &&& final(world).state.safe_timer == spec_tick_timer(
                old(world).state.safe_timer as int,
            )
        },
        old(world).state.well_done_timer >= 0 ==> final(world).state.well_done_timer >= 0,
        old(world).state.try_again_timer >= 0 ==> final(world).state.try_again_timer >= 0,
        old(world).state.safe_timer >= 0 ==> final(world).state.safe_timer >= 0,
        old(world).wf() ==> final(world).wf(),
{
    if !world.state.pause {
        if world.state.well_done_timer > 0 {
            world.state.well_done_timer = world.state.well_done_timer - 1;
        }
        if world.state.try_again_timer > 0 {
            world.state.try_again_timer = world.state.try_again_timer - 1;
        }
        if world.state.safe_timer > 0 {
            world.state.safe_timer = world.state.safe_timer - 1;
        }
    }
    proof {
        if old(world).wf() {
            assert forall|i: int| 0 <= i < world@.actors.len() implies crate::actor::actor_wf(
                #[trigger] world@.actors[i],
            ) by {
                assert(world@.actors[i] == old(world)@.actors[i]);
            }
        }
    }
}

} // verus!
