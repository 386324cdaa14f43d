//! The collision resolver: one scan of the registry against the controlled
//! actor's bounds per tick, and the score / lives / timer / audio /
//! persistence bookkeeping that the scan's findings trigger.
//!
//! The scan yields two independent findings: whether a collectible was
//! picked up, and whether an obstacle ended the scan. A pickup does not
//! short-circuit the scan, so on a tick where a collectible and an obstacle
//! both intersect, in that registry order, the pickup's bookkeeping (score,
//! high score, milestone) applies and so does the obstacle's (life loss,
//! reset). An obstacle hit is terminal for the tick: collectibles after it
//! in registry order are not collected.

use vstd::prelude::*;
use crate::actor::{Actor, Role, is_obstacle, actor_wf, spec_uniform, spec_actor_box, actor_box,
    lemma_parked_coin_never_hits, DESPAWN_RISE};
use crate::effects::{AudioCue, Effect};
use crate::geom::{Vec3i, Aabb, spec_intersects, boxes_intersect};
use crate::session::{SessionState, TIMER_DURATION, FULL_LIVES, MILESTONE_STEP};
use crate::world::{World, WorldView, spec_find_player, lemma_find_role_from_props, find_role};

verus! {

/// The tick's terminal outcome: nothing, a collectible pickup, or an
/// obstacle hit. An obstacle hit outranks a pickup here; whether a pickup
/// also landed on the same tick is the scan's separate finding.
#[derive(Clone, Copy, PartialEq, Eq, Structural, Debug)]
pub enum CollisionState {
    Coin,
    Pipe,
    Clear,
}

/// A collected coin: shrunk to zero scale and lifted far above the play
/// field, pending its next recycle.
pub open spec fn spec_despawned(a: Actor) -> Actor {
    Actor {
        scale: spec_uniform(0),
        pos: Vec3i { x: a.pos.x, y: (a.pos.y + DESPAWN_RISE) as i64, z: a.pos.z },
        ..a
    }
}

/// The controlled actor sent back to its canonical spawn: position and
/// rotation both zeroed, scale untouched.
pub open spec fn spec_reset_player(a: Actor) -> Actor {
    Actor { pos: Vec3i { x: 0, y: 0, z: 0 }, rot: Vec3i { x: 0, y: 0, z: 0 }, ..a }
}

/// The registry scan, from index `i`, with `collected` the pickup finding
/// so far. The result is (a coin was picked up, an obstacle ended the scan,
/// the registry after the scan). An intersecting coin is despawned and the
/// scan goes on — a pickup never short-circuits; an intersecting obstacle,
/// unless the tick is safe, ends the scan at once, so no coin after it in
/// registry order is collected that tick.
pub open spec fn spec_scan(
    actors: Seq<Actor>,
    pbox: Aabb,
    safe: bool,
    i: int,
    collected: bool,
) -> (bool, bool, Seq<Actor>)
    decreases actors.len() - i,
{
    if i < 0 || i >= actors.len() {
        (collected, false, actors)
    } else {
        let a = actors[i];
        if a.role == Role::Coin && spec_intersects(spec_actor_box(a), pbox) {
            spec_scan(actors.update(i, spec_despawned(a)), pbox, safe, i + 1, true)
        } else if !safe && is_obstacle(a.role) && spec_intersects(spec_actor_box(a), pbox) {
            (collected, true, actors)
        } else {
            spec_scan(actors, pbox, safe, i + 1, collected)
        }
    }
}

/// Whether this tick picked up a collectible (false while paused or
/// without a controlled actor).
pub open spec fn spec_collected(v: WorldView) -> bool {
    if v.state.pause {
        false
    } else {
        match spec_find_player(v.actors) {
            Some(p) => spec_scan(
                v.actors,
                spec_actor_box(v.actors[p]),
                v.state.safe_timer > 0,
                0,
                false,
            ).0,
            None => false,
        }
    }
}

/// This tick's terminal outcome: an obstacle hit outranks a pickup, a
/// pickup alone reports the pickup, and a paused or playerless tick
/// reports nothing.
pub open spec fn spec_outcome(v: WorldView) -> CollisionState {
    if v.state.pause {
        CollisionState::Clear
    } else {
        match spec_find_player(v.actors) {
            Some(p) => {
                let scan = spec_scan(
                    v.actors,
                    spec_actor_box(v.actors[p]),
                    v.state.safe_timer > 0,
                    0,
                    false,
                );
                if scan.1 {
                    CollisionState::Pipe
                } else if scan.0 {
                    CollisionState::Coin
                } else {
                    CollisionState::Clear
                }
            },
            None => CollisionState::Clear,
        }
    }
}

/// Everything one resolver tick produces: the registry and scalars after
/// the tick, and the ordered effects handed to the host.
pub ghost struct Resolution {
    pub actors: Seq<Actor>,
    pub state: SessionState,
    pub effects: Seq<Effect>,
}

/// The full resolver transition. A pickup scores a point (saturating at
/// `i32::MAX` rather than wrap); a new record is stored and persisted at
/// once, and a milestone pickup (post-increment score a positive multiple
/// of ten) arms the well-done banner and fires the milestone cue instead of
/// the plain one. An obstacle hit resets the controlled actor and costs a
/// life; losing the last life resets the running score to zero — after the
/// pickup's record bookkeeping, so a record set on the same tick stands —
/// restores full lives, arms the try-again banner and fires the game-over
/// cue; a survivable hit arms invulnerability and fires the hit cue. When a
/// pickup and an obstacle hit land on the same tick both apply, and the
/// effects come in bookkeeping order: the high-score write, the obstacle
/// cue, the pickup cue.
pub open spec fn spec_resolve(v: WorldView) -> Resolution {
    let s = v.state;
    if s.pause {
        Resolution { actors: v.actors, state: s, effects: Seq::empty() }
    } else {
        match spec_find_player(v.actors) {
            None => Resolution { actors: v.actors, state: s, effects: Seq::empty() },
            Some(p) => {
                let safe = s.safe_timer > 0;
                let pbox = spec_actor_box(v.actors[p]);
                let scan = spec_scan(v.actors, pbox, safe, 0, false);
                let collected = scan.0;
                let pipe_hit = scan.1;
                let scanned = scan.2;
                let actors = if pipe_hit {
                    scanned.update(p, spec_reset_player(scanned[p]))
                } else {
                    scanned
                };
                let lives_after: int = if pipe_hit {
                    s.lives - 1
                } else {
                    s.lives as int
                };
                let game_over = pipe_hit && lives_after <= 0;
                let inc_score: int = if collected {
                    if s.score < i32::MAX {
                        s.score + 1
                    } else {
                        s.score as int
                    }
                } else {
                    s.score as int
                };
                let record = collected && inc_score > s.highscore;
                let new_high: int = if record {
                    inc_score
                } else {
                    s.highscore as int
                };
                let milestone = collected && inc_score > 0 && inc_score % (MILESTONE_STEP as int)
                    == 0;
                let state1 = SessionState {
                    score: if game_over {
                        0
                    } else {
                        inc_score as i32
                    },
                    highscore: new_high as i32,
                    lives: if game_over {
                        FULL_LIVES
                    } else {
                        lives_after as i32
                    },
                    well_done_timer: if milestone {
                        TIMER_DURATION
                    } else {
                        s.well_done_timer
                    },
                    try_again_timer: if game_over {
                        TIMER_DURATION
                    } else {
                        s.try_again_timer
                    },
                    safe_timer: if pipe_hit && !game_over {
                        TIMER_DURATION
                    } else {
                        s.safe_timer
                    },
                    pause: s.pause,
                };
                let persist_effects: Seq<Effect> = if record {
                    seq![Effect::PersistHighScore(new_high as i32)]
                } else {
                    Seq::empty()
                };
                let obstacle_effects: Seq<Effect> = if pipe_hit {
                    if game_over {
                        seq![Effect::PlayAudio(AudioCue::GameOver)]
                    } else {
                        seq![Effect::PlayAudio(AudioCue::Hit)]
                    }
                } else {
                    Seq::empty()
                };
                let pickup_effects: Seq<Effect> = if collected {
                    if milestone {
                        seq![Effect::PlayAudio(AudioCue::CollectTen)]
                    } else {
                        seq![Effect::PlayAudio(AudioCue::Collect)]
                    }
                } else {
                    Seq::empty()
                };
                Resolution {
                    actors,
                    state: state1,
                    effects: persist_effects + obstacle_effects + pickup_effects,
                }
            },
        }
    }
}

/// Scans all actors against the controlled actor's bounds and applies the
/// findings, as `spec_resolve` states. Returns the effects for the host to
/// apply, in order.
pub fn check_collision(world: &mut World) -> (effects: Vec<Effect>)
    requires
        old(world).wf(),
    ensures
        final(world).wf(),
        final(world)@.actors == spec_resolve(old(world)@).actors,
        final(world).state == spec_resolve(old(world)@).state,
        effects@ == spec_resolve(old(world)@).effects,
{
    let mut effects: Vec<Effect> = Vec::new();
    if world.state.pause {
        proof {
            assert(effects@ =~= Seq::<Effect>::empty());
        }
        return effects;
    }
    proof {
        lemma_find_role_from_props(world@.actors, Role::Player, 0);
    }
    let player = find_role(&world.actors, Role::Player);
    let p: usize = match player {
        Some(p) => p,
        None => {
            proof {
                assert(effects@ =~= Seq::<Effect>::empty());
            }
            return effects;
        },
    };
    let ghost orig = world@.actors;
    let pa: Actor = world.actors[p];
    let pbox: Aabb = actor_box(&pa);
    let safe: bool = world.state.safe_timer > 0;
    let ghost scan0 = spec_scan(orig, pbox, safe, 0, false);
    let mut collected: bool = false;
    let mut pipe_hit: bool = false;
    let n: usize = world.actors.len();
    let mut i: usize = 0;
    while i < n
        invariant_except_break
            0 <= i <= n,
            n == world@.actors.len(),
            world.state == old(world).state,
            !pipe_hit,
            scan0 == spec_scan(world@.actors, pbox, safe, i as int, collected),
            p < n,
            world@.actors[p as int] == orig[p as int],
            orig[p as int].role == Role::Player,
            actor_wf(orig[p as int]),
            pbox == spec_actor_box(orig[p as int]),
            forall|j: int| 0 <= j < n ==> actor_wf(#[trigger] world@.actors[j]),
        ensures
            n == world@.actors.len(),
            world.state == old(world).state,
            collected == scan0.0,
            pipe_hit == scan0.1,
            world@.actors == scan0.2,
            p < n,
            world@.actors[p as int] == orig[p as int],
            forall|j: int| 0 <= j < n ==> actor_wf(#[trigger] world@.actors[j]),
        decreases n - i,
    {
        let ghost pre = world@.actors;
        let ghost collected_pre = collected;
        let a: Actor = world.actors[i];
        if a.role == Role::Coin && boxes_intersect(&actor_box(&a), &pbox) {
            let na = Actor {
                scale: Vec3i { x: 0, y: 0, z: 0 },
                pos: Vec3i { x: a.pos.x, y: a.pos.y + DESPAWN_RISE, z: a.pos.z },
                ..a
            };
            world.actors.set(i, na);
            collected = true;
            proof {
                if a.scale == spec_uniform(0) {
                    lemma_parked_coin_never_hits(a, orig[p as int]);
                    assert(false);
                }
                assert(na == spec_despawned(a));
                assert(actor_wf(na));
                assert(spec_scan(pre, pbox, safe, i as int, collected_pre) == spec_scan(
                    world@.actors,
                    pbox,
                    safe,
                    i + 1,
                    true,
                ));
            }
        } else if !safe && (a.role == Role::PipeTop || a.role == Role::PipeBottom)
            && boxes_intersect(&actor_box(&a), &pbox) {
            pipe_hit = true;
            proof {
                assert(spec_scan(world@.actors, pbox, safe, i as int, collected_pre) == (
                    collected_pre,
                    true,
                    world@.actors,
                ));
            }
            break ;
        }
        i = i + 1;
    }
    // Apply the findings: player reset, lives, score, high score, game-over
    // score reset, lives respawn, then audio and timers.
    let ghost scanned = world@.actors;
    if pipe_hit {
        let cur: Actor = world.actors[p];
        let reset = Actor {
            pos: Vec3i { x: 0, y: 0, z: 0 },
            rot: Vec3i { x: 0, y: 0, z: 0 },
            ..cur
        };
        world.actors.set(p, reset);
        proof {
            assert(reset == spec_reset_player(scanned[p as int]));
        }
    }
    let mut live_tracker: i32 = world.state.lives;
    if pipe_hit {
        world.state.lives = world.state.lives - 1;
        live_tracker = world.state.lives;
    }
    let mut current_score: i32 = world.state.score;
    if collected {
        if world.state.score < i32::MAX {
            world.state.score = world.state.score + 1;
        }
        current_score = world.state.score;
    }
    // The record is judged on the post-increment score, before any
    // game-over reset: a point scored on the tick you die still counts.
    if collected {
        if current_score > world.state.highscore {
            world.state.highscore = current_score;
            effects.push(Effect::PersistHighScore(current_score));
        }
    }
    if pipe_hit && live_tracker <= 0 {
        world.state.score = 0;
        world.state.lives = FULL_LIVES;
    }
    if pipe_hit {
        if live_tracker <= 0 {
            effects.push(Effect::PlayAudio(AudioCue::GameOver));
            world.state.try_again_timer = TIMER_DURATION;
        } else {
            effects.push(Effect::PlayAudio(AudioCue::Hit));
            world.state.safe_timer = TIMER_DURATION;
        }
    }
    if collected {
        if current_score > 0 && current_score % MILESTONE_STEP == 0 {
            effects.push(Effect::PlayAudio(AudioCue::CollectTen));
            world.state.well_done_timer = TIMER_DURATION;
        } else {
            effects.push(Effect::PlayAudio(AudioCue::Collect));
        }
    }
    proof {
        let r = spec_resolve(old(world)@);
        assert(world@.actors =~= r.actors);
        assert(world.state == r.state);
        assert(effects@ =~= r.effects);
        assert forall|j: int| 0 <= j < world@.actors.len() implies actor_wf(
            #[trigger] world@.actors[j],
        ) by {
            if pipe_hit && j == p as int {
                assert(actor_wf(scanned[j]));
            }
        }
    }
    effects
}

} // verus!
