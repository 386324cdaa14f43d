//! Actors: the player, the two halves of each obstacle gate, the
//! collectible coins, and the background, each with a fixed-point transform
//! and base half-extents from which the bounding box is derived.

use vstd::prelude::*;
use crate::geom::{Vec3i, Aabb, rot_wf, vec3_bounded, spec_scaled_half, scaled_half, spec_intersects};

verus! {

/// The closed set of actor roles. Exactly one `Player` is expected at a
/// time; gates and coins are recycled, never destroyed.
#[derive(Clone, Copy, PartialEq, Eq, Structural, Debug)]
pub enum Role {
    Player,
    PipeTop,
    PipeBottom,
    Coin,
    Background,
}

/// Obstacle halves are the two pipes of a gate.
pub open spec fn is_obstacle(r: Role) -> bool {
    r == Role::PipeTop || r == Role::PipeBottom
}

/// An actor of the scene: role, transform, and base half-extents.
/// The bounding box is `pos ± half * scale / 100` on each axis.
#[derive(Clone, Copy, PartialEq, Eq, Structural, Debug)]
pub struct Actor {
    pub role: Role,
    pub pos: Vec3i,
    pub rot: Vec3i,
    pub scale: Vec3i,
    pub half: Vec3i,
}

/// Player scale when visible (factor two) and when blink-hidden.
pub const PLAYER_SCALE: i64 = 200;

/// Canonical collectible scale (factor one half).
pub const COIN_SCALE: i64 = 50;

/// Base half-extent of the player and of a coin, per axis.
pub const SMALL_HALF: i64 = 50;

/// The player falls until its height reaches this floor.
pub const FLOOR_Y: i64 = -500;

/// Jumps only fire below this ceiling height.
pub const CEILING_Y: i64 = 500;

/// Scrolling actors that pass this edge are recycled forward.
pub const RECYCLE_X: i64 = -2000;

/// Horizontal length of one full recycle cycle.
pub const CYCLE_LEN: i64 = 4000;

/// A recycled coin above this height is dropped back into its lane.
pub const REALIGN_Y: i64 = 500;

/// How far a collected coin is lifted above the play field, and how far a
/// recycled coin is dropped back down.
pub const DESPAWN_RISE: i64 = 1000;

/// Largest magnitude a lane offset can have: offsets are drawn from
/// `[-LANE_BOUND, LANE_BOUND)`.
pub const LANE_BOUND: i64 = 200;

pub open spec fn spec_uniform(c: int) -> Vec3i {
    Vec3i { x: c as i64, y: c as i64, z: c as i64 }
}

/// Role-specific well-formedness. Besides loose bounds that keep all box
/// arithmetic exact, it pins what the tick rules preserve: the player stays
/// between floor and ceiling with its small half-extents; a coin is either
/// in its lane at canonical scale or collected (zero scale, lifted by
/// `DESPAWN_RISE` above the lane); scrolling actors stay inside one cycle.
pub open spec fn actor_wf(a: Actor) -> bool {
    &&& vec3_bounded(a.pos, 100000)
    &&& vec3_bounded(a.half, 1000)
    &&& 0 <= a.half.x && 0 <= a.half.y && 0 <= a.half.z
    &&& vec3_bounded(a.scale, 1000)
    &&& 0 <= a.scale.x && 0 <= a.scale.y && 0 <= a.scale.z
    &&& rot_wf(a.rot)
    &&& match a.role {
        Role::Player => {
            &&& a.half.x <= SMALL_HALF && a.half.y <= SMALL_HALF && a.half.z <= SMALL_HALF
            &&& a.scale.x <= PLAYER_SCALE && a.scale.y <= PLAYER_SCALE && a.scale.z <= PLAYER_SCALE
            &&& FLOOR_Y - 5 <= a.pos.y <= CEILING_Y + 100 - 1
        },
        Role::Coin => {
            &&& RECYCLE_X - 5 <= a.pos.x <= CYCLE_LEN
            &&& {
                ||| a.scale == spec_uniform(COIN_SCALE as int) && -LANE_BOUND <= a.pos.y
                    < LANE_BOUND
                ||| a.scale == spec_uniform(0) && DESPAWN_RISE - LANE_BOUND <= a.pos.y
                    < DESPAWN_RISE + LANE_BOUND
            }
        },
        Role::PipeTop => RECYCLE_X - 5 <= a.pos.x <= CYCLE_LEN,
        Role::PipeBottom => RECYCLE_X - 5 <= a.pos.x <= CYCLE_LEN,
        Role::Background => true,
    }
}

/// The axis-aligned bounding box derived from the actor's transform.
pub open spec fn spec_actor_box(a: Actor) -> Aabb {
    Aabb {
        min: Vec3i {
            x: (a.pos.x - spec_scaled_half(a.half.x as int, a.scale.x as int)) as i64,
            y: (a.pos.y - spec_scaled_half(a.half.y as int, a.scale.y as int)) as i64,
            z: (a.pos.z - spec_scaled_half(a.half.z as int, a.scale.z as int)) as i64,
        },
        max: Vec3i {
            x: (a.pos.x + spec_scaled_half(a.half.x as int, a.scale.x as int)) as i64,
            y: (a.pos.y + spec_scaled_half(a.half.y as int, a.scale.y as int)) as i64,
            z: (a.pos.z + spec_scaled_half(a.half.z as int, a.scale.z as int)) as i64,
        },
    }
}

/// Recomputes the actor's bounding box from its current transform.
pub fn actor_box(a: &Actor) -> (b: Aabb)
    requires
        actor_wf(*a),
    ensures
        b == spec_actor_box(*a),
{
    let hx: i64 = scaled_half(a.half.x, a.scale.x);
    let hy: i64 = scaled_half(a.half.y, a.scale.y);
    let hz: i64 = scaled_half(a.half.z, a.scale.z);
    Aabb {
        min: Vec3i { x: a.pos.x - hx, y: a.pos.y - hy, z: a.pos.z - hz },
        max: Vec3i { x: a.pos.x + hx, y: a.pos.y + hy, z: a.pos.z + hz },
    }
}

/// A collected coin, lifted above the play field, can never intersect the
/// player's box again before it is recycled: the lifted coin sits strictly
/// above everything the player's box can reach.
pub proof fn lemma_parked_coin_never_hits(coin: Actor, player: Actor)
    requires
        actor_wf(coin),
        actor_wf(player),
        coin.role == Role::Coin,
        player.role == Role::Player,
        coin.scale == spec_uniform(0),
    ensures
        !spec_intersects(spec_actor_box(coin), spec_actor_box(player)),
{
    assert(spec_scaled_half(coin.half.y as int, 0) == 0);
    assert(spec_scaled_half(player.half.y as int, player.scale.y as int) <= 100)
        by (nonlinear_arith)
        requires
            0 <= player.half.y <= 50,
            0 <= player.scale.y <= 200,
    ;
    assert(spec_scaled_half(player.half.y as int, player.scale.y as int) >= 0)
        by (nonlinear_arith)
        requires
            0 <= player.half.y,
            0 <= player.scale.y,
    ;
}

} // verus!
