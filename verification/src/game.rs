//! The explicit simulation state and its tick functions: the player's
//! movement/fire step, match setup, and the outcome check.

use vstd::prelude::*;
use crate::combat::Health;
use crate::heading::{forward_vector, wrap8, Direction};
use crate::pose::{clamp_coord, pose_in_arena, rot_of_octant, wrap16, Pose};
use crate::turn::{PlayerTurn, Turn};
use crate::weapon::{broadside_pair, fire_broadside, ActionPoints, CannonBall};

verus! {

/// Phase of the match as the presentation layer sees it.
#[derive(Clone, Copy, Debug, PartialEq, Eq, Structural)]
pub enum AppState {
    InGame,
    Win,
    Lose,
}

/// The player's polled input for one tick: fire intent and the three
/// movement keys.
#[derive(Clone, Copy, Debug, PartialEq, Eq, Structural)]
pub struct KeyState {
    pub fire: bool,
    pub left: bool,
    pub right: bool,
    pub forward: bool,
}

/// One craft: placement, facing, hit points and weapon readiness.
#[derive(Clone, Copy, Debug, PartialEq, Eq, Structural)]
pub struct Ship {
    pub pose: Pose,
    pub dir: Direction,
    pub health: Health,
    pub ap: ActionPoints,
}

impl Ship {
    /// Well-formedness inside an arena of the given half-extent: the facing
    /// is a valid octant, readiness is in its band, the position is inside
    /// the arena, and the sprite rotation displays the facing.
    pub open spec fn wf(self, extent: int) -> bool {
        &&& self.dir.wf()
        &&& self.ap.wf()
        &&& pose_in_arena(self.pose, extent)
        &&& self.pose.rot == rot_of_octant(self.dir.octant())
    }
}

/// The whole simulation state, owned exclusively by the engine.
pub struct Game {
    pub state: AppState,
    pub turn: PlayerTurn,
    pub player: Ship,
    pub enemy: Ship,
    pub cannon_balls: Vec<CannonBall>,
    pub extent: i32,
}

/// Mathematical view of a [`Game`]: the same fields with the live cannon
/// balls as a sequence.
#[verifier::ext_equal]
pub struct GameV {
    pub state: AppState,
    pub turn: Turn,
    pub player: Ship,
    pub enemy: Ship,
    pub cannon_balls: Seq<CannonBall>,
    pub extent: i32,
}

impl GameV {
    /// Well-formedness of a simulation state: a positive, bounded arena
    /// half-extent and two well-formed crafts inside it.
    pub open spec fn wf(self) -> bool {
        &&& 0 < self.extent <= crate::MAX_EXTENT
        &&& self.player.wf(self.extent as int)
        &&& self.enemy.wf(self.extent as int)
    }
}

impl View for Game {
    type V = GameV;

    open spec fn view(&self) -> GameV {
        GameV {
            state: self.state,
            turn: self.turn.0,
            player: self.player,
            enemy: self.enemy,
            cannon_balls: self.cannon_balls@,
            extent: self.extent,
        }
    }
}

impl Game {
    /// Well-formedness of the executable state.
    pub open spec fn wf(self) -> bool {
        self.view().wf()
    }
}

/// Number of movement keys held in one tick.
pub open spec fn move_key_count(k: KeyState) -> int {
    (if k.left {
        1int
    } else {
        0
    }) + (if k.right {
        1int
    } else {
        0
    }) + (if k.forward {
        1int
    } else {
        0
    })
}

/// Net turn step of the held movement keys: the left and right keys each
/// contribute one octant step and cancel when held together.
pub open spec fn turn_input(k: KeyState) -> int {
    (if k.right {
        1int
    } else {
        0
    }) - (if k.left {
        1int
    } else {
        0
    })
}

/// Readiness earned by `n` movement actions, saturating at the cap.
pub open spec fn sat_gain_total(v: int, n: int) -> int {
    if v + n <= crate::MAX_ACTION_POINTS {
        v + n
    } else {
        crate::MAX_ACTION_POINTS as int
    }
}

/// A ship after one tick of the movement integrator: heading turned by
/// `delta` and wrapped, sprite rotation following it, position advanced
/// along the new forward vector by `impulse` per half-step and clamped into
/// the arena.
pub open spec fn integrated_ship(s: Ship, delta: int, impulse: int, extent: int) -> Ship {
    let nd = wrap8(s.dir.octant() + delta);
    Ship {
        pose: Pose {
            x: clamp_coord(s.pose.x + 2 * impulse * forward_vector(nd).x, extent) as i32,
            y: clamp_coord(s.pose.y + 2 * impulse * forward_vector(nd).y, extent) as i32,
            rot: wrap16(s.pose.rot - 2 * delta) as i32,
        },
        dir: Direction { d: nd as i32 },
        ..s
    }
}

/// The player's tick.  Outside the player's turn nothing happens.  A fire
/// intent skips movement entirely: at full readiness it spawns the two
/// broadside balls and resets readiness, and it never hands over the turn.
/// Movement keys turn and advance the craft, each key earns one readiness
/// point, and any movement hands the turn to the opposing side.
pub open spec fn player_tick(g: GameV, k: KeyState) -> GameV {
    if g.turn != Turn::Player {
        g
    } else if k.fire {
        if g.player.ap.value == crate::MAX_ACTION_POINTS {
            let pair = broadside_pair(g.player.pose, g.player.dir.octant(), Turn::Player);
            GameV {
                player: Ship { ap: ActionPoints { value: 0 }, ..g.player },
                cannon_balls: g.cannon_balls.push(pair.0).push(pair.1),
                ..g
            }
        } else {
            g
        }
    } else if move_key_count(k) > 0 {
        let moved = integrated_ship(
            g.player,
            turn_input(k),
            crate::FORWARD_MOVE_DIST * move_key_count(k),
            g.extent as int,
        );
        GameV {
            player: Ship {
                ap: ActionPoints {
                    value: sat_gain_total(g.player.ap.value as int, move_key_count(k)) as i32,
                },
                ..moved
            },
            turn: Turn::Enemy,
            ..g
        }
    } else {
        g
    }
}

/// Applies the player's polled input for one tick.
pub fn ship_movement(game: &mut Game, keys: KeyState)
    requires
        old(game).wf(),
    ensures
        final(game).wf(),
        final(game)@ == player_tick(old(game)@, keys),
{
    if game.turn.0 == Turn::Player {
        if keys.fire {
            let balls = fire_broadside(
                &game.player.pose,
                &game.player.dir,
                &mut game.player.ap,
                Turn::Player,
            );
            if let Some((left, right)) = balls {
                game.cannon_balls.push(left);
                game.cannon_balls.push(right);
            }
        } else {
            let mut delta: i32 = 0;
            let mut impulse: i32 = 0;
            let mut moved = false;
            if keys.left {
                delta = delta - 1;
                impulse = impulse + crate::FORWARD_MOVE_DIST;
                game.player.ap.gain();
                moved = true;
            }
            if keys.right {
                delta = delta + 1;
                impulse = impulse + crate::FORWARD_MOVE_DIST;
                game.player.ap.gain();
                moved = true;
            }
            if keys.forward {
                impulse = impulse + crate::FORWARD_MOVE_DIST;
                game.player.ap.gain();
                moved = true;
            }
            if moved {
                crate::pose::integrate(
                    &mut game.player.pose,
                    &mut game.player.dir,
                    delta,
                    impulse,
                    game.extent,
                );
                game.turn.0 = Turn::Enemy;
            }
        }
    }
    proof {
        assert(game@ =~= player_tick(old(game)@, keys));
    }
}

/// The player craft at match start.
pub open spec fn player_start() -> Ship {
    Ship {
        pose: Pose { x: 250, y: -250i32, rot: 0 },
        dir: Direction { d: 0 },
        health: Health { value: 3 },
        ap: ActionPoints { value: 0 },
    }
}

/// The opposing craft at match start: in the opposite corner, facing back
/// down the arena.
pub open spec fn enemy_start() -> Ship {
    Ship {
        pose: Pose { x: -250i32, y: 250, rot: 8 },
        dir: Direction { d: 4 },
        health: Health { value: 5 },
        ap: ActionPoints { value: 0 },
    }
}

pub fn spawn_player_ship() -> (s: Ship)
    ensures
        s == player_start(),
{
    Ship {
        pose: Pose { x: 250, y: -250, rot: 0 },
        dir: Direction::new(0),
        health: Health { value: 3 },
        ap: ActionPoints { value: 0 },
    }
}

pub fn spawn_enemy_ships() -> (s: Ship)
    ensures
        s == enemy_start(),
{
    Ship {
        pose: Pose { x: -250, y: 250, rot: 8 },
        dir: Direction::new(4),
        health: Health { value: 5 },
        ap: ActionPoints { value: 0 },
    }
}

impl Game {
    /// A fresh match: the player acts first, both crafts at their starting
    /// corners, no cannon balls in flight.
    pub fn new(extent: i32) -> (g: Game)
        requires
            250 <= extent <= crate::MAX_EXTENT,
        ensures
            g.wf(),
            g@.state == AppState::InGame,
            g@.turn == Turn::Player,
            g@.player == player_start(),
            g@.enemy == enemy_start(),
            g@.cannon_balls == Seq::<CannonBall>::empty(),
            g@.extent == extent,
    {
        let g = Game {
            state: AppState::InGame,
            turn: PlayerTurn(Turn::Player),
            player: spawn_player_ship(),
            enemy: spawn_enemy_ships(),
            cannon_balls: Vec::new(),
            extent,
        };
        proof {
            assert(g@.cannon_balls =~= Seq::<CannonBall>::empty());
        }
        g
    }
}

/// Every player tick preserves well-formedness of the simulation state,
/// whatever input arrives.
pub proof fn lemma_player_tick_preserves_wf(g: GameV, k: KeyState)
    requires
        g.wf(),
    ensures
        player_tick(g, k).wf(),
{
}

/// The terminal signal the outcome check raises from both healths, once per
/// match: the player's craft at zero or below loses the match, the opposing
/// craft at zero or below wins it, and a lose takes precedence when both
/// reach zero in the same tick.  A decided match stays decided.
pub open spec fn outcome(state: AppState, player_health: int, enemy_health: int) -> AppState {
    if state != AppState::InGame {
        state
    } else if player_health <= 0 {
        AppState::Lose
    } else if enemy_health <= 0 {
        AppState::Win
    } else {
        AppState::InGame
    }
}

/// The outcome check: inspects both healths after a tick's resolution and
/// raises the terminal win/lose signal on the match state.
pub fn game_over(game: &mut Game)
    ensures
        final(game).state == outcome(
            old(game).state,
            old(game).player.health.value as int,
            old(game).enemy.health.value as int,
        ),
        final(game).turn == old(game).turn,
        final(game).player == old(game).player,
        final(game).enemy == old(game).enemy,
        final(game).cannon_balls == old(game).cannon_balls,
        final(game).extent == old(game).extent,
{
    if game.player.health.value <= 0 {
        match game.state {
            AppState::InGame => {
                game.state = AppState::Lose;
            },
            _ => {},
        }
    }
    if game.enemy.health.value <= 0 {
        match game.state {
            AppState::InGame => {
                game.state = AppState::Win;
            },
            _ => {},
        }
    }
}

} // verus!
