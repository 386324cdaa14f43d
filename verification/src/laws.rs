//! Laws of the collision resolver, proved over the same spec functions its
//! contract uses.

use vstd::prelude::*;
use crate::actor::{Actor, is_obstacle, spec_actor_box, Role};
use crate::collision::{spec_scan, spec_resolve, spec_collected};
use crate::effects::Effect;
use crate::geom::{Aabb, spec_intersects};
use crate::world::{WorldView, spec_find_player, lemma_find_role_from_props};

verus! {

/// The scan only rewrites coins: its length, every actor's role, and every
/// non-coin actor are left exactly as they were.
pub proof fn lemma_scan_touches_only_coins(
    actors: Seq<Actor>,
    pbox: Aabb,
    safe: bool,
    i: int,
    collected: bool,
)
    ensures
        spec_scan(actors, pbox, safe, i, collected).2.len() == actors.len(),
        forall|j: int| 0 <= j < actors.len() ==> (#[trigger] spec_scan(
            actors,
            pbox,
            safe,
            i,
            collected,
        ).2[j]).role == actors[j].role,
        forall|j: int| 0 <= j < actors.len() && actors[j].role != Role::Coin ==> spec_scan(
            actors,
            pbox,
            safe,
            i,
            collected,
        ).2[j] == actors[j],
    decreases actors.len() - i,
{
    if 0 <= i < actors.len() {
        let a = actors[i];
        if a.role == Role::Coin && spec_intersects(spec_actor_box(a), pbox) {
            lemma_scan_touches_only_coins(
                actors.update(i, crate::collision::spec_despawned(a)),
                pbox,
                safe,
                i + 1,
                true,
            );
        } else if !safe && is_obstacle(a.role) && spec_intersects(spec_actor_box(a), pbox) {
        } else {
            lemma_scan_touches_only_coins(actors, pbox, safe, i + 1, collected);
        }
    }
}

/// On a safe tick the scan can never report an obstacle hit.
pub proof fn lemma_scan_safe_no_pipe(actors: Seq<Actor>, pbox: Aabb, i: int, collected: bool)
    ensures
        !spec_scan(actors, pbox, true, i, collected).1,
    decreases actors.len() - i,
{
    if 0 <= i < actors.len() {
        let a = actors[i];
        if a.role == Role::Coin && spec_intersects(spec_actor_box(a), pbox) {
            lemma_scan_safe_no_pipe(
                actors.update(i, crate::collision::spec_despawned(a)),
                pbox,
                i + 1,
                true,
            );
        } else {
            lemma_scan_safe_no_pipe(actors, pbox, i + 1, collected);
        }
    }
}

/// Safety exemption is absolute: on a tick where the invulnerability timer
/// is positive, no obstacle intersection can cost a life or move the
/// controlled actor — lives are unchanged and the controlled actor is left
/// exactly as it was.
pub proof fn lemma_safe_hit_exemption(v: WorldView)
    requires
        v.state.safe_timer > 0,
    ensures
        spec_resolve(v).state.lives == v.state.lives,
        spec_find_player(v.actors) matches Some(p) ==> spec_resolve(v).actors[p] == v.actors[p],
{
    if !v.state.pause {
        match spec_find_player(v.actors) {
            Some(p) => {
                let pbox = spec_actor_box(v.actors[p]);
                lemma_scan_safe_no_pipe(v.actors, pbox, 0, false);
                lemma_scan_touches_only_coins(v.actors, pbox, true, 0, false);
                lemma_find_role_from_props(v.actors, Role::Player, 0);
            },
            None => {},
        }
    }
}

/// A scan that meets no intersecting coin or obstacle reports nothing and
/// rewrites nothing.
pub proof fn lemma_scan_no_hits(
    actors: Seq<Actor>,
    pbox: Aabb,
    safe: bool,
    i: int,
    collected: bool,
)
    requires
        forall|j: int| i <= j < actors.len() && ((#[trigger] actors[j]).role == Role::Coin
            || is_obstacle(actors[j].role)) ==> !spec_intersects(spec_actor_box(actors[j]), pbox),
    ensures
        spec_scan(actors, pbox, safe, i, collected) == (collected, false, actors),
    decreases actors.len() - i,
{
    if 0 <= i < actors.len() {
        lemma_scan_no_hits(actors, pbox, safe, i + 1, collected);
    }
}

/// Resolving a tick on which no coin or obstacle bounding box intersects
/// the controlled actor's is a no-op: score, lives, high score, all timers,
/// every actor, and the effect list are unchanged or empty.
pub proof fn lemma_no_intersection_is_noop(v: WorldView)
    requires
        spec_find_player(v.actors) matches Some(p) ==> forall|j: int|
            0 <= j < v.actors.len() && ((#[trigger] v.actors[j]).role == Role::Coin || is_obstacle(
                v.actors[j].role,
            )) ==> !spec_intersects(spec_actor_box(v.actors[j]), spec_actor_box(v.actors[p])),
    ensures
        spec_resolve(v).state == v.state,
        spec_resolve(v).actors == v.actors,
        spec_resolve(v).effects == Seq::<Effect>::empty(),
{
    if !v.state.pause {
        match spec_find_player(v.actors) {
            Some(p) => {
                let pbox = spec_actor_box(v.actors[p]);
                lemma_scan_no_hits(v.actors, pbox, v.state.safe_timer > 0, 0, false);
                assert(spec_resolve(v).effects =~= Seq::<Effect>::empty());
            },
            None => {},
        }
    }
}

/// High-score persistence: the stored high score changes, with a
/// synchronous write of exactly the new value emitted first in the effect
/// list, if and only if a collectible pickup pushed the score above the
/// stored high score. Every other tick leaves the stored high score alone
/// and emits no write at all.
pub proof fn lemma_high_score_persistence(v: WorldView)
    ensures
        spec_resolve(v).state.highscore != v.state.highscore ==> {
            &&& spec_collected(v)
            &&& spec_resolve(v).state.highscore > v.state.highscore
            &&& spec_resolve(v).effects[0] == Effect::PersistHighScore(
                spec_resolve(v).state.highscore,
            )
        },
        spec_resolve(v).state.highscore == v.state.highscore ==> forall|s: i32|
            !spec_resolve(v).effects.contains(Effect::PersistHighScore(s)),
{
    let r = spec_resolve(v);
    if !v.state.pause && spec_find_player(v.actors) is Some {
        if r.state.highscore == v.state.highscore {
            assert forall|s: i32| !r.effects.contains(Effect::PersistHighScore(s)) by {
                if r.effects.contains(Effect::PersistHighScore(s)) {
                    let k = choose|k: int|
                        0 <= k < r.effects.len() && r.effects[k] == Effect::PersistHighScore(s);
                }
            }
        }
    } else {
        assert(r.effects.len() == 0);
    }
}

} // verus!
