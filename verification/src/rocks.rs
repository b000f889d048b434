//! Obstacle setup: three rocks drawn at random positions inside the arena
//! margins.  A candidate that lands inside the exclusion zone of an earlier
//! rock is re-drawn a bounded number of times; placement is best-effort
//! tuning, not an invariant of the engine.

use vstd::prelude::*;
use rand::Rng;

verus! {

/// A static obstacle: position and collision radius, created once at match
/// setup and immutable thereafter.
#[derive(Clone, Copy, Debug, PartialEq, Eq, Structural)]
pub struct Rock {
    pub x: i32,
    pub y: i32,
    pub radius: i32,
}

/// How many rocks a match is set up with.
pub const ROCK_COUNT: usize = 3;

/// Margin kept from the arena edge when a rock's x coordinate is first
/// drawn.
pub const ROCK_X_MARGIN: i32 = 200;

/// Margin kept from the arena edge for y coordinates and for re-draws.
pub const ROCK_MARGIN: i32 = 100;

/// Half-side of the square exclusion zone around a placed rock.
pub const ROCK_SPACING: i32 = 60;

/// Smallest collision radius a rock is drawn with.
pub const ROCK_RADIUS_MIN: i32 = 5;

/// One past the largest collision radius a rock is drawn with.
pub const ROCK_RADIUS_MAX: i32 = 15;

/// How many times one rock's position is re-drawn before the candidate is
/// kept as drawn.
pub const ROCK_RETRIES: usize = 16;

/// Relies on rand's `Rng::gen_range` on `rand::thread_rng()` with a
/// half-open integer range: it panics only on an empty range and returns a
/// value drawn from inside the range.
#[verifier::external_body]
fn gen_range_i32(lo: i32, hi: i32) -> (r: i32)
    requires
        lo < hi,
    ensures
        lo <= r < hi,
{
    rand::thread_rng().gen_range(lo..hi)
}

/// Whether a candidate position falls inside the square exclusion zone of
/// one placed rock.
pub open spec fn spec_too_close(x: int, y: int, rx: int, ry: int) -> bool {
    &&& rx - ROCK_SPACING <= x <= rx + ROCK_SPACING
    &&& ry - ROCK_SPACING <= y <= ry + ROCK_SPACING
}

/// Whether a candidate position keeps clear of the exclusion zone of every
/// rock placed so far.
pub open spec fn spec_placement_ok(x: int, y: int, placed: Seq<Rock>) -> bool {
    forall|i: int|
        0 <= i < placed.len() ==> !spec_too_close(x, y, placed[i].x as int, placed[i].y as int)
}

/// Decides whether a candidate position is acceptably spaced from every
/// rock placed so far.
pub fn placement_ok(x: i32, y: i32, placed: &Vec<Rock>) -> (ok: bool)
    requires
        forall|i: int|
            0 <= i < placed@.len() ==> -crate::MAX_EXTENT <= #[trigger] placed@[i].x
                <= crate::MAX_EXTENT && -crate::MAX_EXTENT <= placed@[i].y <= crate::MAX_EXTENT,
    ensures
        ok == spec_placement_ok(x as int, y as int, placed@),
{
    let mut i: usize = 0;
    while i < placed.len()
        invariant
            i <= placed@.len(),
            forall|j: int|
                0 <= j < placed@.len() ==> -crate::MAX_EXTENT <= #[trigger] placed@[j].x
                    <= crate::MAX_EXTENT && -crate::MAX_EXTENT <= placed@[j].y
                    <= crate::MAX_EXTENT,
            forall|j: int|
                0 <= j < i ==> !spec_too_close(
                    x as int,
                    y as int,
                    placed@[j].x as int,
                    placed@[j].y as int,
                ),
        decreases placed@.len() - i,
    {
        let r = &placed[i];
        if x >= r.x - ROCK_SPACING && x <= r.x + ROCK_SPACING && y >= r.y - ROCK_SPACING && y
            <= r.y + ROCK_SPACING {
            return false;
        }
        i = i + 1;
    }
    true
}

/// Whether a rock lies inside the drawable region of an arena: both
/// coordinates within the re-draw margin and the radius in its band.
pub open spec fn rock_in_region(r: Rock, extent: int) -> bool {
    &&& -(extent - ROCK_MARGIN) <= r.x < extent - ROCK_MARGIN
    &&& -(extent - ROCK_MARGIN) <= r.y < extent - ROCK_MARGIN
    &&& ROCK_RADIUS_MIN <= r.radius < ROCK_RADIUS_MAX
}

/// Sets up the match's rocks: each drawn inside the arena margins with a
/// radius from the rock-size band, re-drawn while it falls in an earlier
/// rock's exclusion zone, up to the retry budget.
pub fn setup_rocks(extent: i32) -> (rocks: Vec<Rock>)
    requires
        ROCK_X_MARGIN < extent <= crate::MAX_EXTENT,
    ensures
        rocks@.len() == ROCK_COUNT,
        forall|i: int| 0 <= i < rocks@.len() ==> rock_in_region(#[trigger] rocks@[i], extent as int),
{
    let mut rocks: Vec<Rock> = Vec::new();
    let mut placed: usize = 0;
    while placed < ROCK_COUNT
        invariant
            ROCK_X_MARGIN < extent <= crate::MAX_EXTENT,
            rocks@.len() == placed,
            placed <= ROCK_COUNT,
            forall|i: int|
                0 <= i < rocks@.len() ==> rock_in_region(#[trigger] rocks@[i], extent as int),
        decreases ROCK_COUNT - placed,
    {
        let mut x = gen_range_i32(0 - (extent - ROCK_X_MARGIN), extent - ROCK_X_MARGIN);
        let mut y = gen_range_i32(0 - (extent - ROCK_MARGIN), extent - ROCK_MARGIN);
        let mut ok = placement_ok(x, y, &rocks);
        let mut tries: usize = 0;
        while !ok && tries < ROCK_RETRIES
            invariant
                ROCK_X_MARGIN < extent <= crate::MAX_EXTENT,
                tries <= ROCK_RETRIES,
                -(extent - ROCK_MARGIN) <= x < extent - ROCK_MARGIN,
                -(extent - ROCK_MARGIN) <= y < extent - ROCK_MARGIN,
                forall|i: int|
                    0 <= i < rocks@.len() ==> rock_in_region(#[trigger] rocks@[i], extent as int),
            decreases ROCK_RETRIES - tries,
        {
            x = gen_range_i32(0 - (extent - ROCK_MARGIN), extent - ROCK_MARGIN);
            y = gen_range_i32(0 - (extent - ROCK_MARGIN), extent - ROCK_MARGIN);
            ok = placement_ok(x, y, &rocks);
            tries = tries + 1;
        }
        let radius = gen_range_i32(ROCK_RADIUS_MIN, ROCK_RADIUS_MAX);
        rocks.push(Rock { x, y, radius });
        placed = placed + 1;
    }
    rocks
}

} // verus!
