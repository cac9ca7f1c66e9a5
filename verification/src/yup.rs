//! Actors ("yups") and their gravity state machine.
//!
//! Each actor carries a stable id, a position in world coordinates, a
//! per-actor movement speed and a collision state.  The state machine has two
//! states: a falling actor receives a constant downward displacement each
//! tick, a walking actor a constant horizontal one.  The only transition this
//! crate performs is `Falling` to `Walking`, driven by the collision results
//! (see the pipeline module); the reverse transition belongs to an external
//! grounding system.

use vstd::prelude::*;

verus! {

/// Magnitude bound on world coordinates handled by the pipeline; keeps every
/// intermediate coordinate sum far away from the `i64` limits.
pub const COORD_LIMIT: i64 = 0x4000_0000_0000;

/// Magnitude bound on per-tick displacements and view offsets.
pub const STEP_LIMIT: i64 = 0x10000;

/// A coordinate the pipeline accepts.
pub open spec fn coord_in_range(c: int) -> bool {
    -COORD_LIMIT <= c <= COORD_LIMIT
}

/// A per-tick displacement or view offset the pipeline accepts.
pub open spec fn step_in_range(s: int) -> bool {
    -STEP_LIMIT <= s <= STEP_LIMIT
}

/// Collision state of an actor.
#[derive(Clone, Copy, PartialEq, Eq, Structural, Debug)]
pub enum CharacterState {
    /// The actor is airborne and subject to gravity.
    Falling,
    /// The actor stands on solid terrain and moves horizontally.
    Walking,
}

/// One actor: id, world position, collision state and movement speed.
#[derive(Clone, Copy, PartialEq, Eq, Structural, Debug)]
pub struct Yup {
    /// Stable integer handle for the actor.
    pub id: u32,
    /// Horizontal world coordinate.
    pub x: i64,
    /// Vertical world coordinate; larger values are further up.
    pub y: i64,
    /// Collision state, mutated only by the collision result updater.
    pub state: CharacterState,
    /// Per-actor movement speed; never changed by this crate.
    pub speed: i64,
}

impl Yup {
    /// Spawn an actor in the initial `Falling` state.
    pub fn spawn(id: u32, x: i64, y: i64, speed: i64) -> (yup: Yup)
        ensures
            yup == (Yup { id, x, y, state: CharacterState::Falling, speed }),
    {
        Yup { id, x, y, state: CharacterState::Falling, speed }
    }

    /// The actor's position stays inside the coordinate range the pipeline
    /// accepts.
    pub open spec fn pos_in_range(self) -> bool {
        coord_in_range(self.x as int) && coord_in_range(self.y as int)
    }
}

/// Apply one tick of movement to every actor: a falling actor drops by
/// `fall_step`, a walking actor advances by `walk_step`.  Ids, speeds and
/// states are untouched.
pub fn gravity(yups: &mut Vec<Yup>, fall_step: i64, walk_step: i64)
    requires
        step_in_range(fall_step as int),
        step_in_range(walk_step as int),
        forall|i: int| 0 <= i < old(yups)@.len() ==> (#[trigger] old(yups)@[i]).pos_in_range(),
    ensures
        final(yups)@.len() == old(yups)@.len(),
        forall|i: int|
            0 <= i < old(yups)@.len() ==> {
                let before = old(yups)@[i];
                let after = #[trigger] final(yups)@[i];
                &&& after.id == before.id
                &&& after.speed == before.speed
                &&& after.state == before.state
                &&& (before.state is Falling ==> after.x == before.x && after.y == before.y
                    - fall_step)
                &&& (before.state is Walking ==> after.x == before.x + walk_step && after.y
                    == before.y)
            },
{
    let n: usize = yups.len();
    let mut i: usize = 0;
    while i < n
        invariant
            i <= n,
            n == yups@.len(),
            step_in_range(fall_step as int),
            step_in_range(walk_step as int),
            forall|j: int| i <= j < n ==> (#[trigger] yups@[j]).pos_in_range(),
            forall|j: int| i <= j < n ==> yups@[j] == old(yups)@[j],
            forall|j: int|
                0 <= j < i ==> {
                    let before = old(yups)@[j];
                    let after = #[trigger] yups@[j];
                    &&& after.id == before.id
                    &&& after.speed == before.speed
                    &&& after.state == before.state
                    &&& (before.state is Falling ==> after.x == before.x && after.y == before.y
                        - fall_step)
                    &&& (before.state is Walking ==> after.x == before.x + walk_step && after.y
                        == before.y)
                },
        decreases n - i,
    {
        let yup = yups[i];
        match yup.state {
            CharacterState::Falling => {
                yups[i].y = yup.y - fall_step;
            },
            CharacterState::Walking => {
                yups[i].x = yup.x + walk_step;
            },
        }
        i = i + 1;
    }
}

} // verus!
