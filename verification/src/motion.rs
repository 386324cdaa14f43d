//! The actor motion model: per-tick gravity and tilt for the player (with
//! the invulnerability blink), constant leftward scroll with wraparound
//! recycling for gates and coins, and the constant coin spin.

use vstd::prelude::*;
use crate::actor::{Actor, Role, is_obstacle, actor_wf, spec_uniform, PLAYER_SCALE, COIN_SCALE,
    FLOOR_Y, RECYCLE_X, CYCLE_LEN, REALIGN_Y, DESPAWN_RISE};
use crate::geom::{Vec3i, spec_add_angle, add_angle};
use crate::world::{World, spec_find_player, lemma_find_role_from_props, find_role};

verus! {

/// Downward translation applied to the falling player each tick.
pub const FALL_STEP: i64 = 5;

/// Tip-forward rotation increment applied while falling, in hundredths of
/// a degree (applied as a negative roll).
pub const FALL_TILT: i64 = 70;

/// Leftward translation applied to every scrolling actor each tick.
pub const SCROLL_STEP: i64 = 5;

/// Spin applied to every coin each tick, in hundredths of a degree.
pub const COIN_SPIN: i64 = 500;

/// Blink granularity of the invulnerable player, in ticks.
pub const BLINK_PERIOD: i32 = 5;

/// Whether the blinking player is on its visible phase for the given
/// (non-negative) invulnerability timer value.
pub open spec fn spec_blink_visible(timer: int) -> bool {
    (timer / (BLINK_PERIOD as int)) % 2 == 0
}

/// One unpaused tick of the controlled actor: while invulnerable, the scale
/// alternates between visible and hidden as a blink; while above the floor,
/// the actor falls by `FALL_STEP` and tips forward by `FALL_TILT`.
pub open spec fn spec_player_step(a: Actor, safe_timer: int) -> Actor {
    let blinked = if safe_timer > 0 {
        if spec_blink_visible(safe_timer) {
            Actor { scale: spec_uniform(PLAYER_SCALE as int), ..a }
        } else {
            Actor { scale: spec_uniform(0), ..a }
        }
    } else {
        a
    };
    if blinked.pos.y > FLOOR_Y {
        Actor {
            pos: Vec3i { x: blinked.pos.x, y: (blinked.pos.y - FALL_STEP) as i64, z: blinked.pos.z },
            rot: Vec3i {
                x: blinked.rot.x,
                y: blinked.rot.y,
                z: spec_add_angle(blinked.rot.z as int, -FALL_TILT as int) as i64,
            },
            ..blinked
        }
    } else {
        blinked
    }
}

/// Advances the controlled actor by one tick. A no-op when paused or when
/// no controlled actor exists; scalars and all other actors are untouched.
pub fn player_update(world: &mut World)
    requires
        old(world).wf(),
    ensures
        final(world).wf(),
        final(world).state == old(world).state,
        old(world).state.pause ==> final(world)@.actors == old(world)@.actors,
        !old(world).state.pause ==> final(world)@.actors == (match spec_find_player(
            old(world)@.actors,
        ) {
            Some(p) => old(world)@.actors.update(
                p,
                spec_player_step(old(world)@.actors[p], old(world).state.safe_timer as int),
            ),
            None => old(world)@.actors,
        }),
{
    if world.state.pause {
        return ;
    }
    let timer_value: i32 = world.state.safe_timer;
    let is_safe: bool = timer_value > 0;
    proof {
        lemma_find_role_from_props(world@.actors, Role::Player, 0);
    }
    let player = find_role(&world.actors, Role::Player);
    match player {
        Some(p) => {
            let mut a: Actor = world.actors[p];
            if is_safe {
                if (timer_value / BLINK_PERIOD) % 2 == 0 {
                    a.scale = Vec3i { x: PLAYER_SCALE, y: PLAYER_SCALE, z: PLAYER_SCALE };
                } else {
                    a.scale = Vec3i { x: 0, y: 0, z: 0 };
                }
            }
            if a.pos.y > FLOOR_Y {
                a.pos = Vec3i { x: a.pos.x, y: a.pos.y - FALL_STEP, z: a.pos.z };
                a.rot = Vec3i { x: a.rot.x, y: a.rot.y, z: add_angle(a.rot.z, -FALL_TILT) };
            }
            world.actors.set(p, a);
            proof {
                assert(a == spec_player_step(
                    old(world)@.actors[p as int],
                    old(world).state.safe_timer as int,
                ));
                assert forall|i: int| 0 <= i < world@.actors.len() implies actor_wf(
                    #[trigger] world@.actors[i],
                ) by {
                    if i != p {
                        assert(world@.actors[i] == old(world)@.actors[i]);
                    }
                }
            }
        },
        None => {},
    }
}

/// One unpaused tick of a single scrolling actor: gates and coins move left
/// by `SCROLL_STEP` and wrap forward by `CYCLE_LEN` past the recycle edge;
/// a recycled coin is restored to its canonical scale and, if still lifted
/// above the lane, dropped back down. Every coin spins, recycled or not.
pub open spec fn spec_scroll_step(a: Actor) -> Actor {
    let moved = if a.role == Role::Coin || is_obstacle(a.role) {
        let x1 = a.pos.x - SCROLL_STEP;
        if x1 < RECYCLE_X {
            let x2 = (x1 + CYCLE_LEN) as i64;
            if a.role == Role::Coin {
                let y1: i64 = if a.pos.y > REALIGN_Y {
                    (a.pos.y - DESPAWN_RISE) as i64
                } else {
                    a.pos.y
                };
                Actor {
                    pos: Vec3i { x: x2, y: y1, z: a.pos.z },
                    scale: spec_uniform(COIN_SCALE as int),
                    ..a
                }
            } else {
                Actor { pos: Vec3i { x: x2, y: a.pos.y, z: a.pos.z }, ..a }
            }
        } else {
            Actor { pos: Vec3i { x: x1 as i64, y: a.pos.y, z: a.pos.z }, ..a }
        }
    } else {
        a
    };
    if a.role == Role::Coin {
        Actor {
            rot: Vec3i {
                x: moved.rot.x,
                y: spec_add_angle(moved.rot.y as int, COIN_SPIN as int) as i64,
                z: moved.rot.z,
            },
            ..moved
        }
    } else {
        moved
    }
}

/// The whole registry after one unpaused scroll tick.
pub open spec fn spec_scrolled(s: Seq<Actor>) -> Seq<Actor> {
    Seq::new(s.len(), |i: int| spec_scroll_step(s[i]))
}

/// Advances every gate and coin by one tick. A no-op when paused; scalars
/// and non-scrolling actors are untouched.
pub fn update_pipes(world: &mut World)
    requires
        old(world).wf(),
    ensures
        final(world).wf(),
        final(world).state == old(world).state,
        old(world).state.pause ==> final(world)@.actors == old(world)@.actors,
        !old(world).state.pause ==> final(world)@.actors == spec_scrolled(old(world)@.actors),
{
    if world.state.pause {
        return ;
    }
    let n: usize = world.actors.len();
    let mut i: usize = 0;
    while i < n
        invariant
            0 <= i <= n,
            n == world@.actors.len(),
            world.state == old(world).state,
            !world.state.pause,
            forall|j: int| 0 <= j < i ==> world@.actors[j] == spec_scroll_step(
                #[trigger] old(world)@.actors[j],
            ),
            forall|j: int| i <= j < n ==> world@.actors[j] == #[trigger] old(world)@.actors[j],
            forall|j: int| 0 <= j < n ==> actor_wf(#[trigger] world@.actors[j]),
            forall|j: int| 0 <= j < n ==> actor_wf(#[trigger] old(world)@.actors[j]),
        decreases n - i,
    {
        let mut a: Actor = world.actors[i];
        let ghost a0 = a;
        let scrolling: bool = a.role == Role::Coin || a.role == Role::PipeTop || a.role
            == Role::PipeBottom;
        if scrolling {
            let x1: i64 = a.pos.x - SCROLL_STEP;
            if x1 < RECYCLE_X {
                let x2: i64 = x1 + CYCLE_LEN;
                if a.role == Role::Coin {
                    let y1: i64 = if a.pos.y > REALIGN_Y {
                        a.pos.y - DESPAWN_RISE
                    } else {
                        a.pos.y
                    };
                    a.pos = Vec3i { x: x2, y: y1, z: a.pos.z };
                    a.scale = Vec3i { x: COIN_SCALE, y: COIN_SCALE, z: COIN_SCALE };
                } else {
                    a.pos = Vec3i { x: x2, y: a.pos.y, z: a.pos.z };
                }
            } else {
                a.pos = Vec3i { x: x1, y: a.pos.y, z: a.pos.z };
            }
        }
        if a.role == Role::Coin {
            a.rot = Vec3i { x: a.rot.x, y: add_angle(a.rot.y, COIN_SPIN), z: a.rot.z };
        }
        world.actors.set(i, a);
        proof {
            assert(a == spec_scroll_step(a0));
        }
        i = i + 1;
    }
    proof {
        assert(world@.actors =~= spec_scrolled(old(world)@.actors));
    }
}

} // verus!
