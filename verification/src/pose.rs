//! Movement integrator: applies a turn step and a forward impulse to a
//! craft's pose in two half-steps, then clamps the position into the arena.

use vstd::prelude::*;
use crate::heading::{forward_vector, get_gun_arc, wrap8, Direction};

verus! {

/// A craft's placement: position on the arena plane, plus the accumulated
/// sprite rotation in counterclockwise steps of 22.5 degrees, kept in
/// `[0, 16)`.
#[derive(Clone, Copy, Debug, PartialEq, Eq, Structural)]
pub struct Pose {
    pub x: i32,
    pub y: i32,
    pub rot: i32,
}

/// Normalizes a rotation step count that is at most one turn out of range
/// back into `[0, 16)`.
pub open spec fn wrap16(r: int) -> int {
    if r < 0 {
        r + 16
    } else if r >= 16 {
        r - 16
    } else {
        r
    }
}

/// The rotation step count that displays an octant heading: two clockwise
/// 22.5-degree steps per octant.
pub open spec fn rot_of_octant(d: int) -> int {
    if d == 0 {
        0
    } else {
        16 - 2 * d
    }
}

/// Pins a coordinate into the symmetric arena interval `[-extent, extent]`.
pub open spec fn clamp_coord(v: int, extent: int) -> int {
    if v < -extent {
        -extent
    } else if v > extent {
        extent
    } else {
        v
    }
}

/// A pose is inside an arena when both coordinates are within its
/// half-extent and the rotation count is in range.
pub open spec fn pose_in_arena(p: Pose, extent: int) -> bool {
    &&& -extent <= p.x <= extent
    &&& -extent <= p.y <= extent
    &&& 0 <= p.rot < 16
}

pub fn clamp(v: i32, extent: i32) -> (r: i32)
    requires
        0 < extent,
    ensures
        r == clamp_coord(v as int, extent as int),
{
    if v < -extent {
        -extent
    } else if v > extent {
        extent
    } else {
        v
    }
}

/// One tick of the movement integrator.  The heading turns by
/// `turn_delta` octant steps (wrapping), the sprite rotation follows in two
/// 22.5-degree half-steps, the position advances along the new forward
/// vector by `impulse` per half-step, and finally both coordinates are
/// pinned into `[-extent, extent]`.
pub fn integrate(pose: &mut Pose, dir: &mut Direction, turn_delta: i32, impulse: i32, extent: i32)
    requires
        old(dir).wf(),
        -1 <= turn_delta <= 1,
        0 <= impulse <= crate::MAX_EXTENT,
        0 < extent <= crate::MAX_EXTENT,
        pose_in_arena(*old(pose), extent as int),
    ensures
        final(dir).wf(),
        final(dir).octant() == wrap8(old(dir).octant() + turn_delta),
        final(pose).rot == wrap16(old(pose).rot - 2 * turn_delta),
        final(pose).x == clamp_coord(
            old(pose).x + 2 * impulse * forward_vector(final(dir).octant()).x,
            extent as int,
        ),
        final(pose).y == clamp_coord(
            old(pose).y + 2 * impulse * forward_vector(final(dir).octant()).y,
            extent as int,
        ),
        pose_in_arena(*final(pose), extent as int),
        old(pose).rot == rot_of_octant(old(dir).octant()) ==> final(pose).rot == rot_of_octant(
            final(dir).octant(),
        ),
{
    if turn_delta == -1 {
        dir.turn_left();
    } else if turn_delta == 1 {
        dir.turn_right();
    }
    let v = get_gun_arc(dir.get());
    assert(-1 <= v.x <= 1 && -1 <= v.y <= 1);
    let dx: i32 = if v.x == 1 {
        impulse
    } else if v.x == -1 {
        0 - impulse
    } else {
        0
    };
    let dy: i32 = if v.y == 1 {
        impulse
    } else if v.y == -1 {
        0 - impulse
    } else {
        0
    };
    proof {
        if v.x == 1 {
            assert(v.x * impulse == impulse);
        } else if v.x == -1 {
            assert(v.x * impulse == -(impulse as int));
        } else {
            assert(v.x * impulse == 0);
        }
        if v.y == 1 {
            assert(v.y * impulse == impulse);
        } else if v.y == -1 {
            assert(v.y * impulse == -(impulse as int));
        } else {
            assert(v.y * impulse == 0);
        }
        assert(dx == v.x * impulse && dy == v.y * impulse);
    }
    let rot_step: i32 = 0 - turn_delta;
    pose.x = pose.x + dx;
    pose.y = pose.y + dy;
    pose.rot = rot_half_step(pose.rot, rot_step);
    pose.x = pose.x + dx;
    pose.y = pose.y + dy;
    pose.rot = rot_half_step(pose.rot, rot_step);
    pose.x = clamp(pose.x, extent);
    pose.y = clamp(pose.y, extent);
}

/// One 22.5-degree half-step of sprite rotation, wrapping at a full turn.
fn rot_half_step(rot: i32, step: i32) -> (r: i32)
    requires
        0 <= rot < 16,
        -1 <= step <= 1,
    ensures
        r == wrap16(rot + step),
{
    let s: i32 = rot + step;
    if s < 0 {
        s + 16
    } else if s >= 16 {
        s - 16
    } else {
        s
    }
}

} // verus!
