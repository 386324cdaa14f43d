//! The input reactor: discrete, edge-triggered reactions to the two input
//! surfaces, jump and pause-toggle.

use vstd::prelude::*;
use crate::actor::{Actor, Role, CEILING_Y, actor_wf};
use crate::effects::{AudioCue, Effect};
use crate::geom::Vec3i;
use crate::world::{World, lemma_view_wf_same_actors, spec_find_player, lemma_find_role_from_props,
    find_role};

verus! {

/// Upward nudge applied by one jump press.
pub const JUMP_RISE: i64 = 100;

/// Fixed tilt-up angle set by a jump, in hundredths of a degree.
pub const JUMP_TILT: i64 = 3500;

/// The player actor after one jump nudge: lifted by `JUMP_RISE`, rotation
/// set to the fixed tilt-up angle.
pub open spec fn spec_jumped(a: Actor) -> Actor {
    Actor {
        pos: Vec3i { x: a.pos.x, y: (a.pos.y + JUMP_RISE) as i64, z: a.pos.z },
        rot: Vec3i { x: 0, y: 0, z: JUMP_TILT },
        ..a
    }
}

/// The actor sequence after one jump press: the controlled actor is nudged
/// only if it exists and is below the ceiling.
pub open spec fn spec_jump_actors(actors: Seq<Actor>) -> Seq<Actor> {
    match spec_find_player(actors) {
        Some(p) => if actors[p].pos.y < CEILING_Y {
            actors.update(p, spec_jumped(actors[p]))
        } else {
            actors
        },
        None => actors,
    }
}

/// Reacts to a jump press. A no-op when paused; otherwise the whoosh cue
/// fires unconditionally and the player, if present and below the ceiling,
/// is nudged up and tilted. Scalars are never touched.
pub fn player_jump(world: &mut World) -> (effects: Vec<Effect>)
    requires
        old(world).wf(),
    ensures
        final(world).wf(),
        final(world).state == old(world).state,
        old(world).state.pause ==> final(world)@.actors == old(world)@.actors && effects@
            == Seq::<Effect>::empty(),
        !old(world).state.pause ==> final(world)@.actors == spec_jump_actors(old(world)@.actors)
            && effects@ == seq![Effect::PlayAudio(AudioCue::Whoosh)],
{
    let mut effects: Vec<Effect> = Vec::new();
    if world.state.pause {
        proof {
            assert(effects@ =~= Seq::<Effect>::empty());
        }
        return effects;
    }
    effects.push(Effect::PlayAudio(AudioCue::Whoosh));
    proof {
        assert(effects@ =~= seq![Effect::PlayAudio(AudioCue::Whoosh)]);
        lemma_find_role_from_props(world@.actors, Role::Player, 0);
    }
    let player = find_role(&world.actors, Role::Player);
    match player {
        Some(p) => {
            let a: Actor = world.actors[p];
            if a.pos.y < CEILING_Y {
                let jumped = Actor {
                    pos: Vec3i { x: a.pos.x, y: a.pos.y + JUMP_RISE, z: a.pos.z },
                    rot: Vec3i { x: 0, y: 0, z: JUMP_TILT },
                    ..a
                };
                world.actors.set(p, jumped);
                proof {
                    assert(jumped == spec_jumped(a));
                    assert(world@.actors =~= spec_jump_actors(old(world)@.actors));
                    assert forall|i: int| 0 <= i < world@.actors.len() implies actor_wf(
                        #[trigger] world@.actors[i],
                    ) by {
                        if i != p {
                            assert(world@.actors[i] == old(world)@.actors[i]);
                        }
                    }
                }
            }
        },
        None => {},
    }
    effects
}

/// The same scalars with the pause flag inverted.
pub open spec fn spec_pause_flipped(s: crate::session::SessionState) -> crate::session::SessionState {
    crate::session::SessionState { pause: !s.pause, ..s }
}

/// Reacts to the pause button: unconditionally flips the pause flag and
/// asks the host to toggle the background music track with it. This is the
/// one reaction that is never gated by the flag it mutates.
pub fn toggle_pause(world: &mut World) -> (effects: Vec<Effect>)
    ensures
        final(world)@.actors == old(world)@.actors,
        final(world).state == spec_pause_flipped(old(world).state),
        effects@ == seq![Effect::ToggleMusicPause],
        old(world).wf() ==> final(world).wf(),
{
    world.state.pause = !world.state.pause;
    let mut effects: Vec<Effect> = Vec::new();
    effects.push(Effect::ToggleMusicPause);
    proof {
        assert(effects@ =~= seq![Effect::ToggleMusicPause]);
        if old(world).wf() {
            lemma_view_wf_same_actors(old(world)@, world@);
        }
    }
    effects
}

} // verus!
