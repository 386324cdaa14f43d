//! Scene population: the background, the controlled actor, and the fixed
//! repeating gates (one coin between two pipe halves), spaced at a constant
//! horizontal interval with a random vertical offset per gate.

use vstd::prelude::*;
use crate::actor::{Actor, Role, actor_wf, PLAYER_SCALE, COIN_SCALE, SMALL_HALF, LANE_BOUND};
use crate::geom::Vec3i;
use crate::world::World;

verus! {

/// Horizontal position of the first gate slot.
pub const GATE_BASE_X: i64 = 500;

/// Horizontal interval between gate slots.
pub const GATE_SPACING: i64 = 500;

/// Number of gate slots the scene is populated with.
pub const GATE_COUNT: i64 = 8;

/// Vertical distance from a gate's coin to each of its pipe halves.
pub const PIPE_GAP: i64 = 700;

/// The controlled actor at its canonical spawn.
pub open spec fn spec_player_actor() -> Actor {
    Actor {
        role: Role::Player,
        pos: Vec3i { x: 0, y: 0, z: 0 },
        rot: Vec3i { x: 0, y: 0, z: 0 },
        scale: Vec3i { x: PLAYER_SCALE, y: PLAYER_SCALE, z: PLAYER_SCALE },
        half: Vec3i { x: SMALL_HALF, y: SMALL_HALF, z: SMALL_HALF },
    }
}

/// The backdrop, well behind the play plane.
pub open spec fn spec_background_actor() -> Actor {
    Actor {
        role: Role::Background,
        pos: Vec3i { x: 0, y: 0, z: -800i64 },
        rot: Vec3i { x: 0, y: 0, z: 0 },
        scale: Vec3i { x: 100, y: 100, z: 100 },
        half: Vec3i { x: 1000, y: 1000, z: 10 },
    }
}

/// A gate's coin, `x_offset` past the first slot, in the lane at `y_offset`.
pub open spec fn spec_gate_coin(x_offset: int, y_offset: int) -> Actor {
    Actor {
        role: Role::Coin,
        pos: Vec3i { x: (GATE_BASE_X + x_offset) as i64, y: y_offset as i64, z: 0 },
        rot: Vec3i { x: 0, y: 0, z: 0 },
        scale: Vec3i { x: COIN_SCALE, y: COIN_SCALE, z: COIN_SCALE },
        half: Vec3i { x: SMALL_HALF, y: SMALL_HALF, z: SMALL_HALF },
    }
}

/// One of a gate's pipe halves, `x_offset` past the first slot: `top` picks the upper one.
pub open spec fn spec_gate_pipe(x_offset: int, y_offset: int, top: bool) -> Actor {
    Actor {
        role: if top {
            Role::PipeTop
        } else {
            Role::PipeBottom
        },
        pos: Vec3i {
            x: (GATE_BASE_X + x_offset) as i64,
            y: if top {
                (PIPE_GAP + y_offset) as i64
            } else {
                (-PIPE_GAP + y_offset) as i64
            },
            z: 0,
        },
        rot: Vec3i { x: 0, y: 0, z: 0 },
        scale: Vec3i { x: 100, y: 100, z: 50 },
        half: Vec3i { x: 100, y: 500, z: 100 },
    }
}

/// The three actors of one gate, in registry order: coin, then the two
/// pipe halves.
pub open spec fn spec_gate_actors(x_offset: int, y_offset: int) -> Seq<Actor> {
    seq![
        spec_gate_coin(x_offset, y_offset),
        spec_gate_pipe(x_offset, y_offset, true),
        spec_gate_pipe(x_offset, y_offset, false),
    ]
}

/// The three actors of slot `g`'s gate stand at their slot positions in
/// `s`, with lane offset `y`. `base` is where the gates begin.
pub open spec fn spec_gate_in_slot(s: Seq<Actor>, base: int, g: int, y: int) -> bool {
    &&& s[base + 3 * g] == spec_gate_coin(GATE_SPACING * g, y)
    &&& s[base + 3 * g + 1] == spec_gate_pipe(GATE_SPACING * g, y, true)
    &&& s[base + 3 * g + 2] == spec_gate_pipe(GATE_SPACING * g, y, false)
}

/// Slot `g` holds a gate with some in-range lane offset.
pub open spec fn spec_slot_filled(s: Seq<Actor>, base: int, g: int) -> bool {
    exists|y: int| -LANE_BOUND <= y < LANE_BOUND && #[trigger] spec_gate_in_slot(s, base, g, y)
}

/// Relies on `rand::random_range`: a sample from an integer range lies in
/// that range, and the call returns normally because the range is not
/// empty. Nothing is assumed about the distribution.
#[verifier::external_body]
fn random_lane_offset() -> (r: i64)
    ensures
        -LANE_BOUND <= r < LANE_BOUND,
{
    rand::random_range(-LANE_BOUND..LANE_BOUND)
}

/// Appends one gate with the given lane offset.
pub fn spawn_gate(world: &mut World, x_offset: i64, y_offset: i64)
    requires
        old(world).wf(),
        0 <= x_offset <= GATE_SPACING * (GATE_COUNT - 1),
        -LANE_BOUND <= y_offset < LANE_BOUND,
    ensures
        final(world).wf(),
        final(world).state == old(world).state,
        final(world)@.actors == old(world)@.actors + spec_gate_actors(
            x_offset as int,
            y_offset as int,
        ),
{
    let coin = Actor {
        role: Role::Coin,
        pos: Vec3i { x: GATE_BASE_X + x_offset, y: y_offset, z: 0 },
        rot: Vec3i { x: 0, y: 0, z: 0 },
        scale: Vec3i { x: COIN_SCALE, y: COIN_SCALE, z: COIN_SCALE },
        half: Vec3i { x: SMALL_HALF, y: SMALL_HALF, z: SMALL_HALF },
    };
    let pipe_top = Actor {
        role: Role::PipeTop,
        pos: Vec3i { x: GATE_BASE_X + x_offset, y: PIPE_GAP + y_offset, z: 0 },
        rot: Vec3i { x: 0, y: 0, z: 0 },
        scale: Vec3i { x: 100, y: 100, z: 50 },
        half: Vec3i { x: 100, y: 500, z: 100 },
    };
    let pipe_bottom = Actor {
        role: Role::PipeBottom,
        pos: Vec3i { x: GATE_BASE_X + x_offset, y: -PIPE_GAP + y_offset, z: 0 },
        rot: Vec3i { x: 0, y: 0, z: 0 },
        scale: Vec3i { x: 100, y: 100, z: 50 },
        half: Vec3i { x: 100, y: 500, z: 100 },
    };
    world.actors.push(coin);
    world.actors.push(pipe_top);
    world.actors.push(pipe_bottom);
    proof {
        assert(world@.actors =~= old(world)@.actors + spec_gate_actors(
            x_offset as int,
            y_offset as int,
        ));
        assert forall|i: int| 0 <= i < world@.actors.len() implies actor_wf(
            #[trigger] world@.actors[i],
        ) by {
            if i < old(world)@.actors.len() {
                assert(world@.actors[i] == old(world)@.actors[i]);
            }
        }
    }
}

/// Appends one gate at the given slot, drawing its lane offset at random.
pub fn spawn_pipes(world: &mut World, x_offset: i64)
    requires
        old(world).wf(),
        0 <= x_offset <= GATE_SPACING * (GATE_COUNT - 1),
    ensures
        final(world).wf(),
        final(world).state == old(world).state,
        exists|y: int|
            -LANE_BOUND <= y < LANE_BOUND && final(world)@.actors == old(world)@.actors
                + spec_gate_actors(x_offset as int, y),
{
    let y_offset: i64 = random_lane_offset();
    spawn_gate(world, x_offset, y_offset);
}

/// Populates an empty-or-not scene in the original registry order: the
/// background, the controlled actor, then `GATE_COUNT` gates at constant
/// spacing, each with its own random lane offset.
pub fn setup_scene(world: &mut World)
    requires
        old(world).wf(),
    ensures
        final(world).wf(),
        final(world).state == old(world).state,
        final(world)@.actors.len() == old(world)@.actors.len() + 2 + 3 * GATE_COUNT,
        forall|j: int| 0 <= j < old(world)@.actors.len() ==> final(world)@.actors[j] == old(
            world,
        )@.actors[j],
        final(world)@.actors[old(world)@.actors.len() as int] == spec_background_actor(),
        final(world)@.actors[old(world)@.actors.len() as int + 1] == spec_player_actor(),
        forall|g: int|
            0 <= g < GATE_COUNT ==> #[trigger] spec_slot_filled(
                final(world)@.actors,
                old(world)@.actors.len() as int + 2,
                g,
            ),
{
    let ghost base = old(world)@.actors.len() as int;
    let background = Actor {
        role: Role::Background,
        pos: Vec3i { x: 0, y: 0, z: -800 },
        rot: Vec3i { x: 0, y: 0, z: 0 },
        scale: Vec3i { x: 100, y: 100, z: 100 },
        half: Vec3i { x: 1000, y: 1000, z: 10 },
    };
    world.actors.push(background);
    let player = Actor {
        role: Role::Player,
        pos: Vec3i { x: 0, y: 0, z: 0 },
        rot: Vec3i { x: 0, y: 0, z: 0 },
        scale: Vec3i { x: PLAYER_SCALE, y: PLAYER_SCALE, z: PLAYER_SCALE },
        half: Vec3i { x: SMALL_HALF, y: SMALL_HALF, z: SMALL_HALF },
    };
    world.actors.push(player);
    proof {
        assert(background == spec_background_actor());
        assert(player == spec_player_actor());
        assert forall|i: int| 0 <= i < world@.actors.len() implies actor_wf(
            #[trigger] world@.actors[i],
        ) by {
            if i < base {
                assert(world@.actors[i] == old(world)@.actors[i]);
            }
        }
    }
    let mut g: i64 = 0;
    while g < GATE_COUNT
        invariant
            0 <= g <= GATE_COUNT,
            base == old(world)@.actors.len() as int,
            world.wf(),
            world.state == old(world).state,
            world@.actors.len() == base + 2 + 3 * g,
            forall|j: int| 0 <= j < base ==> world@.actors[j] == old(world)@.actors[j],
            world@.actors[base] == spec_background_actor(),
            world@.actors[base + 1] == spec_player_actor(),
            forall|gg: int| 0 <= gg < g ==> #[trigger] spec_slot_filled(
                world@.actors,
                base + 2,
                gg,
            ),
        decreases GATE_COUNT - g,
    {
        let ghost before = world@.actors;
        let xo: i64 = GATE_SPACING * g;
        let ghost xoff: int = xo as int;
        spawn_pipes(world, xo);
        proof {
            assert(xoff == GATE_SPACING * g as int);
            let y = choose|y: int|
                -LANE_BOUND <= y < LANE_BOUND && world@.actors == before + #[trigger]
                spec_gate_actors(xoff, y);
            assert(spec_gate_in_slot(world@.actors, base + 2, g as int, y));
            assert(spec_slot_filled(world@.actors, base + 2, g as int));
            assert forall|gg: int| 0 <= gg < g implies #[trigger] spec_slot_filled(
                world@.actors,
                base + 2,
                gg,
            ) by {
                assert(world@.actors == before + spec_gate_actors(xoff, y));
                assert(before.len() == base + 2 + 3 * g);
                assert(spec_slot_filled(before, base + 2, gg));
                let yy = choose|yy: int|
                    -LANE_BOUND <= yy < LANE_BOUND && #[trigger] spec_gate_in_slot(
                        before,
                        base + 2,
                        gg,
                        yy,
                    );
                assert((before + spec_gate_actors(xoff, y))[base + 2 + 3 * gg] == before[base + 2
                    + 3 * gg]);
                assert((before + spec_gate_actors(xoff, y))[base + 2 + 3 * gg + 1] == before[base
                    + 2 + 3 * gg + 1]);
                assert((before + spec_gate_actors(xoff, y))[base + 2 + 3 * gg + 2] == before[base
                    + 2 + 3 * gg + 2]);
                assert(spec_gate_in_slot(world@.actors, base + 2, gg, yy));
            }
        }
        g = g + 1;
    }
}

} // verus!
