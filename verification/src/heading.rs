//! Heading model: pure lookup from a discrete 8-way heading to direction
//! vectors, and the two broadside firing arcs fixed 90 degrees off the bow.

use vstd::prelude::*;

verus! {

/// A 2D offset with integer components.  Octant direction vectors have both
/// components in `{-1, 0, 1}`.
#[derive(Clone, Copy, Debug, PartialEq, Eq, Structural)]
pub struct Offset {
    pub x: i32,
    pub y: i32,
}

/// Normalizes an octant index that is at most one turn out of range back
/// into `[0, 8)`.
pub open spec fn wrap8(d: int) -> int {
    if d < 0 {
        d + 8
    } else if d >= 8 {
        d - 8
    } else {
        d
    }
}

/// Direction vector of a compass octant: 0 points up (north) and the index
/// increases clockwise.  An out-of-range index gives the zero vector.
pub open spec fn forward_vector(d: int) -> Offset {
    if d == 0 {
        Offset { x: 0, y: 1 }
    } else if d == 1 {
        Offset { x: 1, y: 1 }
    } else if d == 2 {
        Offset { x: 1, y: 0 }
    } else if d == 3 {
        Offset { x: 1, y: -1i32 }
    } else if d == 4 {
        Offset { x: 0, y: -1i32 }
    } else if d == 5 {
        Offset { x: -1i32, y: -1i32 }
    } else if d == 6 {
        Offset { x: -1i32, y: 0 }
    } else if d == 7 {
        Offset { x: -1i32, y: 1 }
    } else {
        Offset { x: 0, y: 0 }
    }
}

/// Sign of an integer: -1, 0 or 1.
pub open spec fn sgn(x: int) -> int {
    if x > 0 {
        1
    } else if x < 0 {
        -1
    } else {
        0
    }
}

/// Rotates an octant direction vector clockwise by one octant (45 degrees).
pub open spec fn rotate_cw(v: Offset) -> Offset {
    Offset { x: sgn(v.x + v.y) as i32, y: sgn(v.y - v.x) as i32 }
}

/// Direction vector along which a gun fires, by octant index.
pub fn get_gun_arc(d: i32) -> (v: Offset)
    ensures
        v == forward_vector(d as int),
{
    match d {
        0 => Offset { x: 0, y: 1 },
        1 => Offset { x: 1, y: 1 },
        2 => Offset { x: 1, y: 0 },
        3 => Offset { x: 1, y: -1 },
        4 => Offset { x: 0, y: -1 },
        5 => Offset { x: -1, y: -1 },
        6 => Offset { x: -1, y: 0 },
        7 => Offset { x: -1, y: 1 },
        _ => Offset { x: 0, y: 0 },
    }
}

/// Both broadside directions for a craft heading along octant `d`: the left
/// arc two octants counterclockwise of the bow, the right arc two octants
/// clockwise.
pub fn firing_arc_vectors(d: i32) -> (arcs: (Offset, Offset))
    requires
        0 <= d < 8,
    ensures
        arcs.0 == forward_vector(wrap8(d - 2)),
        arcs.1 == forward_vector(wrap8(d + 2)),
{
    let l_dir: i32 = if d - 2 < 0 {
        d + 8 - 2
    } else {
        d - 2
    };
    let r_dir: i32 = if d + 2 > 7 {
        d - 8 + 2
    } else {
        d + 2
    };
    (get_gun_arc(l_dir), get_gun_arc(r_dir))
}

/// A craft's discrete facing.  The octant is kept in `[0, 8)`; it is mutated
/// only one turn step at a time, wrapping at the ends.
#[derive(Clone, Copy, Debug, PartialEq, Eq, Structural)]
pub struct Direction {
    pub d: i32,
}

impl Direction {
    /// The octant index this facing holds.
    pub open spec fn octant(self) -> int {
        self.d as int
    }

    /// Well-formedness: the octant index is in range.
    pub open spec fn wf(self) -> bool {
        0 <= self.octant() < 8
    }

    pub fn new(d: i32) -> (r: Direction)
        requires
            0 <= d < 8,
        ensures
            r.octant() == d,
    {
        Direction { d }
    }

    pub fn get(&self) -> (d: i32)
        ensures
            d == self.octant(),
    {
        self.d
    }

    /// One turn step counterclockwise, wrapping from 0 to 7.
    pub fn turn_left(&mut self)
        requires
            old(self).wf(),
        ensures
            final(self).wf(),
            final(self).octant() == wrap8(old(self).octant() - 1),
    {
        if self.d == 0 {
            self.d = 7;
        } else {
            self.d = self.d - 1;
        }
    }

    /// One turn step clockwise, wrapping from 7 to 0.
    pub fn turn_right(&mut self)
        requires
            old(self).wf(),
        ensures
            final(self).wf(),
            final(self).octant() == wrap8(old(self).octant() + 1),
    {
        if self.d == 7 {
            self.d = 0;
        } else {
            self.d = self.d + 1;
        }
    }
}

/// Heading lookup is wrap-invariant: adding a full turn of eight octants to
/// an in-range heading does not change its forward vector.
pub proof fn lemma_forward_wrap(h: int)
    requires
        0 <= h < 8,
    ensures
        forward_vector(h) == forward_vector((h + 8) % 8),
{
    assert((h + 8) % 8 == h);
}

/// The firing arcs are symmetric under the 8-fold rotation of headings:
/// turning the heading one octant clockwise turns the bow and both arcs one
/// octant clockwise as vectors.
pub proof fn lemma_arc_rotation(h: int)
    requires
        0 <= h < 8,
    ensures
        forward_vector(wrap8(h + 1)) == rotate_cw(forward_vector(h)),
        forward_vector(wrap8(wrap8(h + 1) - 2)) == rotate_cw(forward_vector(wrap8(h - 2))),
        forward_vector(wrap8(wrap8(h + 1) + 2)) == rotate_cw(forward_vector(wrap8(h + 2))),
{
}

} // verus!
