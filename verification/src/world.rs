//! The world: the actor registry plus the session scalars, with its
//! well-formedness invariant and its spec-level view.

use vstd::prelude::*;
use crate::actor::{Actor, Role, actor_wf};
use crate::session::{SessionState, state_wf, spec_initial_state};

verus! {

/// The whole simulation state: all actors, in registry order, and the
/// session scalars. Every per-tick rule and input reaction works on this.
pub struct World {
    pub actors: Vec<Actor>,
    pub state: SessionState,
}

/// Spec-level view of a world: the actor sequence and the scalars.
pub ghost struct WorldView {
    pub actors: Seq<Actor>,
    pub state: SessionState,
}

impl View for World {
    type V = WorldView;

    open spec fn view(&self) -> WorldView {
        WorldView { actors: self.actors@, state: self.state }
    }
}

pub open spec fn view_wf(v: WorldView) -> bool {
    &&& state_wf(v.state)
    &&& forall|i: int| 0 <= i < v.actors.len() ==> actor_wf(#[trigger] v.actors[i])
}

impl World {
    pub open spec fn wf(self) -> bool {
        view_wf(self@)
    }

    /// An empty scene with fresh session scalars and the given stored
    /// high score.
    pub fn new(highscore: i32) -> (w: World)
        ensures
            w@.actors == Seq::<Actor>::empty(),
            w.state == spec_initial_state(highscore),
            w.wf(),
    {
        let w = World { actors: Vec::new(), state: SessionState::new(highscore) };
        proof {
            assert(w@.actors =~= Seq::<Actor>::empty());
        }
        w
    }
}

/// Well-formedness carries over to a view with the same actors and a
/// well-formed state.
pub proof fn lemma_view_wf_same_actors(v1: WorldView, v2: WorldView)
    requires
        view_wf(v1),
        v2.actors == v1.actors,
        state_wf(v2.state),
    ensures
        view_wf(v2),
{
    assert forall|i: int| 0 <= i < v2.actors.len() implies actor_wf(#[trigger] v2.actors[i]) by {
        assert(v2.actors[i] == v1.actors[i]);
    }
}

/// Index of the first actor with the given role at or after `i`, if any.
pub open spec fn spec_find_role_from(s: Seq<Actor>, role: Role, i: int) -> Option<int>
    decreases s.len() - i,
{
    if i < 0 || i >= s.len() {
        None
    } else if s[i].role == role {
        Some(i)
    } else {
        spec_find_role_from(s, role, i + 1)
    }
}

/// Index of the controlled actor: the first actor tagged `Player`.
pub open spec fn spec_find_player(s: Seq<Actor>) -> Option<int> {
    spec_find_role_from(s, Role::Player, 0)
}

pub proof fn lemma_find_role_from_props(s: Seq<Actor>, role: Role, i: int)
    requires
        0 <= i <= s.len(),
    ensures
        spec_find_role_from(s, role, i) matches Some(j) ==> i <= j < s.len() && s[j].role == role
            && forall|k: int| i <= k < j ==> (#[trigger] s[k]).role != role,
        spec_find_role_from(s, role, i) is None ==> forall|k: int|
            i <= k < s.len() ==> (#[trigger] s[k]).role != role,
    decreases s.len() - i,
{
    if i < s.len() && s[i].role != role {
        lemma_find_role_from_props(s, role, i + 1);
    }
}

/// Finds the first actor with the given role.
pub fn find_role(actors: &Vec<Actor>, role: Role) -> (r: Option<usize>)
    ensures
        match r {
            Some(j) => spec_find_role_from(actors@, role, 0) == Some(j as int),
            None => spec_find_role_from(actors@, role, 0) is None,
        },
{
    let n: usize = actors.len();
    let mut i: usize = 0;
    while i < n
        invariant
            0 <= i <= n,
            n == actors@.len(),
            spec_find_role_from(actors@, role, 0) == spec_find_role_from(actors@, role, i as int),
        decreases n - i,
    {
        if actors[i].role == role {
            return Some(i);
        }
        i = i + 1;
    }
    None
}

} // verus!
