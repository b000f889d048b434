//! Opponent decision procedure: a greedy one-step bearing pursuit.  Each
//! enemy tick computes the target's relative octant, turns one step toward
//! it (holding when aligned), always moves forward, and fires through the
//! weapon system's readiness gate, its fire intent being always active.

use vstd::prelude::*;
use crate::game::{integrated_ship, Game, GameV, Ship};
use crate::heading::{forward_vector, sgn, wrap8};
use crate::pose::{clamp_coord, Pose};
use crate::turn::Turn;
use crate::weapon::{broadside_pair, fire_broadside, sat_gain, ActionPoints};

verus! {

/// The fixed quadrant-to-octant lookup: sign of the x and y differences to
/// the octant of the target's bearing.  The aligned pair `(0, 0)` and any
/// value outside `{-1, 0, 1}` default to octant 0.
pub open spec fn spec_pos_mapping(x: int, y: int) -> int {
    if x == 0 && y == 1 {
        0
    } else if x == 1 && y == 1 {
        1
    } else if x == 1 && y == 0 {
        2
    } else if x == 1 && y == -1 {
        3
    } else if x == 0 && y == -1 {
        4
    } else if x == -1 && y == -1 {
        5
    } else if x == -1 && y == 0 {
        6
    } else if x == -1 && y == 1 {
        7
    } else {
        0
    }
}

pub fn pos_mapping(x: i32, y: i32) -> (q: i32)
    ensures
        q == spec_pos_mapping(x as int, y as int),
        0 <= q < 8,
{
    match (x, y) {
        (0, 1) => 0,
        (1, 1) => 1,
        (1, 0) => 2,
        (1, -1) => 3,
        (0, -1) => 4,
        (-1, -1) => 5,
        (-1, 0) => 6,
        (-1, 1) => 7,
        _ => 0,
    }
}

/// The octant in which the target `p` lies as seen from the craft at `e`.
pub open spec fn target_octant(p: Pose, e: Pose) -> int {
    spec_pos_mapping(sgn(p.x - e.x), sgn(p.y - e.y))
}

/// Computes where the target is relative to the craft: the sign of each
/// coordinate difference, mapped to an octant.
pub fn get_player_direction(p: &Pose, e: &Pose) -> (q: i32)
    ensures
        q == target_octant(*p, *e),
        0 <= q < 8,
{
    let mut y: i32 = 0;
    if p.y > e.y {
        y = 1
    } else if p.y < e.y {
        y = -1
    }
    let mut x: i32 = 0;
    if p.x > e.x {
        x = 1
    } else if p.x < e.x {
        x = -1
    }
    pos_mapping(x, y)
}

/// Absolute octant gap between target octant and heading.
pub open spec fn octant_gap(q: int, d: int) -> int {
    if q >= d {
        q - d
    } else {
        d - q
    }
}

/// The bearing-pursuit turn choice for heading `d` and target octant `q`:
/// hold when aligned; turn left when the gap wraps past north (the
/// asymmetry-breaking special case) or when the heading exceeds the target
/// octant; otherwise turn right.
pub open spec fn pursuit_delta(d: int, q: int) -> int {
    if q == d {
        0
    } else if octant_gap(q, d) > 5 {
        -1int
    } else if d > q {
        -1int
    } else {
        1int
    }
}

/// The enemy's tick.  Outside the enemy's turn nothing happens.  On its
/// turn the craft hands the turn back, turns one pursuit step and always
/// moves forward (earning one readiness point), and, when that point fills
/// the counter, fires its broadside from the new pose and resets readiness.
pub open spec fn enemy_tick(g: GameV) -> GameV {
    if g.turn != Turn::Enemy {
        g
    } else {
        let q = target_octant(g.player.pose, g.enemy.pose);
        let delta = pursuit_delta(g.enemy.dir.octant(), q);
        let moved = integrated_ship(
            g.enemy,
            delta,
            crate::FORWARD_MOVE_DIST as int,
            g.extent as int,
        );
        let ap2 = sat_gain(g.enemy.ap.value as int);
        if ap2 == crate::MAX_ACTION_POINTS {
            let pair = broadside_pair(moved.pose, moved.dir.octant(), Turn::Enemy);
            GameV {
                turn: Turn::Player,
                enemy: Ship { ap: ActionPoints { value: 0 }, ..moved },
                cannon_balls: g.cannon_balls.push(pair.0).push(pair.1),
                ..g
            }
        } else {
            GameV {
                turn: Turn::Player,
                enemy: Ship { ap: ActionPoints { value: ap2 as i32 }, ..moved },
                ..g
            }
        }
    }
}

/// Runs the opposing side's decision procedure for one tick.
pub fn think(game: &mut Game)
    requires
        old(game).wf(),
    ensures
        final(game).wf(),
        final(game)@ == enemy_tick(old(game)@),
{
    if game.turn.0 == Turn::Enemy {
        game.turn.0 = Turn::Player;
        let q = get_player_direction(&game.player.pose, &game.enemy.pose);
        let d = game.enemy.dir.get();
        let gap: i32 = if q >= d {
            q - d
        } else {
            d - q
        };
        let delta: i32 = if q == d {
            0
        } else if gap > 5 {
            -1
        } else if d > q {
            -1
        } else {
            1
        };
        crate::pose::integrate(
            &mut game.enemy.pose,
            &mut game.enemy.dir,
            delta,
            crate::FORWARD_MOVE_DIST,
            game.extent,
        );
        game.enemy.ap.gain();
        let balls = fire_broadside(
            &game.enemy.pose,
            &game.enemy.dir,
            &mut game.enemy.ap,
            Turn::Enemy,
        );
        if let Some((left, right)) = balls {
            game.cannon_balls.push(left);
            game.cannon_balls.push(right);
        }
    }
    proof {
        assert(game@ =~= enemy_tick(old(game)@));
    }
}

/// A hold-heading decision (target octant equal to the heading) leaves the
/// heading and rotation unchanged: the tick only advances the position,
/// two forward half-steps along the unchanged heading, clamped to the
/// arena.
pub proof fn lemma_hold_heading_only_advances(g: GameV)
    requires
        g.wf(),
        g.turn == Turn::Enemy,
        target_octant(g.player.pose, g.enemy.pose) == g.enemy.dir.octant(),
    ensures
        enemy_tick(g).enemy.dir == g.enemy.dir,
        enemy_tick(g).enemy.pose.rot == g.enemy.pose.rot,
        enemy_tick(g).enemy.pose.x == clamp_coord(
            g.enemy.pose.x + 2 * crate::FORWARD_MOVE_DIST * forward_vector(
                g.enemy.dir.octant(),
            ).x,
            g.extent as int,
        ),
        enemy_tick(g).enemy.pose.y == clamp_coord(
            g.enemy.pose.y + 2 * crate::FORWARD_MOVE_DIST * forward_vector(
                g.enemy.dir.octant(),
            ).y,
            g.extent as int,
        ),
{
}

/// Every enemy tick preserves well-formedness of the simulation state.
pub proof fn lemma_enemy_tick_preserves_wf(g: GameV)
    requires
        g.wf(),
    ensures
        enemy_tick(g).wf(),
{
}

/// Exactly one side acts per tick: the player's tick never mutates the
/// opposing craft, and the enemy's tick never mutates the player's craft.
pub proof fn lemma_one_side_acts(g: GameV, k: crate::game::KeyState)
    ensures
        crate::game::player_tick(g, k).enemy == g.enemy,
        enemy_tick(g).player == g.player,
{
}

/// The heading after `n` pursuit decisions toward a fixed target octant.
pub open spec fn pursue_from(d: int, q: int, n: nat) -> int
    decreases n,
{
    if n == 0 {
        d
    } else {
        pursue_from(wrap8(d + pursuit_delta(d, q)), q, (n - 1) as nat)
    }
}

/// Decisions toward a fixed target octant never reverse: once the pursuit
/// turns left it keeps turning left until aligned, and likewise for right,
/// so the heading cannot oscillate around the target bearing.
pub proof fn lemma_pursuit_no_reversal(d: int, q: int)
    requires
        0 <= d < 8,
        0 <= q < 8,
        d != q,
    ensures
        pursuit_delta(d, q) != 0,
        ({
            let d2 = wrap8(d + pursuit_delta(d, q));
            d2 == q || pursuit_delta(d2, q) == pursuit_delta(d, q)
        }),
{
}

/// How many decisions the pursuit needs to align with a fixed target
/// octant: the signed gap in the direction the first decision turns.
pub open spec fn pursuit_steps(d: int, q: int) -> int {
    if d == q {
        0
    } else if pursuit_delta(d, q) == 1 {
        q - d
    } else if d >= q {
        d - q
    } else {
        d - q + 8
    }
}

/// The pursuit converges: from any heading it reaches a fixed target octant
/// in at most seven decisions, turning the same way the whole time, and
/// then holds it.
pub proof fn lemma_pursuit_converges(d: int, q: int)
    requires
        0 <= d < 8,
        0 <= q < 8,
    ensures
        0 <= pursuit_steps(d, q) <= 7,
        pursue_from(d, q, pursuit_steps(d, q) as nat) == q,
        pursue_from(q, q, 1) == q,
    decreases pursuit_steps(d, q),
{
    if d != q {
        let d2 = wrap8(d + pursuit_delta(d, q));
        assert(pursuit_steps(d2, q) == pursuit_steps(d, q) - 1);
        lemma_pursuit_converges(d2, q);
    }
}

} // verus!
