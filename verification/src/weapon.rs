//! Weapon system: a per-craft readiness counter gates the broadside.  Full
//! readiness lets a fire intent spawn exactly two cannon balls, one along
//! each firing arc, and resets the counter.

use vstd::prelude::*;
use crate::heading::{forward_vector, wrap8, firing_arc_vectors, Direction, Offset};
use crate::pose::Pose;
use crate::turn::Turn;

verus! {

/// Readiness ("action points") of a craft's weapon, kept in
/// `[0, MAX_ACTION_POINTS]`.
#[derive(Clone, Copy, Debug, PartialEq, Eq, Structural)]
pub struct ActionPoints {
    pub value: i32,
}

/// One readiness point earned by a non-firing action, saturating at the cap.
pub open spec fn sat_gain(v: int) -> int {
    if v < crate::MAX_ACTION_POINTS {
        v + 1
    } else {
        v
    }
}

/// How one action changes a readiness value: a movement action earns a
/// point; a fire intent resets a full counter and leaves any other value
/// alone.
pub open spec fn step_readiness(v: int, fire: bool) -> int {
    if fire {
        if v == crate::MAX_ACTION_POINTS {
            0
        } else {
            v
        }
    } else {
        sat_gain(v)
    }
}

/// Readiness after a whole sequence of actions (`true` is a fire intent,
/// `false` a movement action).
pub open spec fn run_readiness(v: int, actions: Seq<bool>) -> int
    decreases actions.len(),
{
    if actions.len() == 0 {
        v
    } else {
        run_readiness(step_readiness(v, actions[0]), actions.subrange(1, actions.len() as int))
    }
}

impl ActionPoints {
    /// Well-formedness: the counter is within its saturation band.
    pub open spec fn wf(self) -> bool {
        0 <= self.value <= crate::MAX_ACTION_POINTS
    }

    /// Earn one readiness point for a non-firing action, saturating at the
    /// cap.
    pub fn gain(&mut self)
        requires
            old(self).wf(),
        ensures
            final(self).wf(),
            final(self).value == sat_gain(old(self).value as int),
    {
        if self.value < crate::MAX_ACTION_POINTS {
            self.value = self.value + 1;
        }
    }
}

/// A broadside projectile: spawned at the firing craft's pose, flying with
/// a fixed velocity along a firing arc, owned by the side that fired it.
#[derive(Clone, Copy, Debug, PartialEq, Eq, Structural)]
pub struct CannonBall {
    pub pose: Pose,
    pub vx: i32,
    pub vy: i32,
    pub owner: Turn,
}

/// Velocity component of a shot along one axis of an arc vector: the shot
/// speed with the sign of the arc component.
pub open spec fn shot_velocity(c: int) -> i32 {
    if c > 0 {
        crate::SHOT_SPEED
    } else if c < 0 {
        (0 - crate::SHOT_SPEED) as i32
    } else {
        0
    }
}

/// The shot velocity is the arc component scaled by the shot speed.
pub proof fn lemma_shot_velocity(c: int)
    requires
        -1 <= c <= 1,
    ensures
        shot_velocity(c) == c * crate::SHOT_SPEED,
{
    if c == 1 {
        assert(c * crate::SHOT_SPEED == crate::SHOT_SPEED);
    } else if c == -1 {
        assert(c * crate::SHOT_SPEED == -(crate::SHOT_SPEED as int));
    } else {
        assert(c * crate::SHOT_SPEED == 0);
    }
}

/// The cannon ball that leaves a craft at pose `p` along arc vector `arc`.
pub open spec fn shot_ball(p: Pose, arc: Offset, owner: Turn) -> CannonBall {
    CannonBall {
        pose: p,
        vx: shot_velocity(arc.x as int),
        vy: shot_velocity(arc.y as int),
        owner,
    }
}

/// The pair of balls a broadside spawns for a craft heading along octant
/// `d`: one along the left arc, one along the right arc.
pub open spec fn broadside_pair(p: Pose, d: int, owner: Turn) -> (CannonBall, CannonBall) {
    (
        shot_ball(p, forward_vector(wrap8(d - 2)), owner),
        shot_ball(p, forward_vector(wrap8(d + 2)), owner),
    )
}

fn shot_velocity_of(c: i32) -> (r: i32)
    requires
        -1 <= c <= 1,
    ensures
        r == shot_velocity(c as int),
{
    if c > 0 {
        crate::SHOT_SPEED
    } else if c < 0 {
        0 - crate::SHOT_SPEED
    } else {
        0
    }
}

/// Honors a fire intent: only a craft at full readiness fires, spawning
/// exactly two cannon balls along its firing arcs and resetting readiness
/// to zero.  Below full readiness the intent is a no-op.
pub fn fire_broadside(pose: &Pose, dir: &Direction, ap: &mut ActionPoints, owner: Turn) -> (balls:
    Option<(CannonBall, CannonBall)>)
    requires
        old(ap).wf(),
        dir.wf(),
    ensures
        final(ap).wf(),
        final(ap).value == step_readiness(old(ap).value as int, true),
        old(ap).value == crate::MAX_ACTION_POINTS ==> balls == Some(
            broadside_pair(*pose, dir.octant(), owner),
        ),
        old(ap).value != crate::MAX_ACTION_POINTS ==> balls is None && *final(ap) == *old(ap),
{
    if ap.value == crate::MAX_ACTION_POINTS {
        let arcs = firing_arc_vectors(dir.get());
        let left = CannonBall {
            pose: *pose,
            vx: shot_velocity_of(arcs.0.x),
            vy: shot_velocity_of(arcs.0.y),
            owner,
        };
        let right = CannonBall {
            pose: *pose,
            vx: shot_velocity_of(arcs.1.x),
            vy: shot_velocity_of(arcs.1.y),
            owner,
        };
        ap.value = ap.value - crate::MAX_ACTION_POINTS;
        Some((left, right))
    } else {
        None
    }
}

/// Readiness stays within its band under any sequence of actions, whatever
/// mix of movement and fire intents arrives.
pub proof fn lemma_readiness_bounded(v: int, actions: Seq<bool>)
    requires
        0 <= v <= crate::MAX_ACTION_POINTS,
    ensures
        0 <= run_readiness(v, actions) <= crate::MAX_ACTION_POINTS,
    decreases actions.len(),
{
    if actions.len() > 0 {
        lemma_readiness_bounded(
            step_readiness(v, actions[0]),
            actions.subrange(1, actions.len() as int),
        );
    }
}

} // verus!
