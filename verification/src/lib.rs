//! Turn-based naval combat core: two crafts on a bounded square arena move
//! along a discrete 8-way heading, accumulate readiness to fire broadsides
//! along fixed arcs, and exchange damage through collision notifications.
//!
//! The simulation state is an explicit value (`game::Game`); every rule of
//! the engine is a plain function over that value with a contract.  The
//! rendering, input and physics collaborators live outside this crate and
//! only exchange plain values with it.

use vstd::prelude::*;

pub mod heading;
pub mod pose;
pub mod turn;
pub mod weapon;
pub mod combat;
pub mod game;
pub mod enemy_ai;
pub mod rocks;

verus! {

/// Distance a craft advances per pressed movement key, per half-step.
pub const FORWARD_MOVE_DIST: i32 = 10;

/// Speed factor applied to a firing-arc vector when a cannon ball is spawned.
pub const SHOT_SPEED: i32 = 1000;

/// Readiness ("action points") a craft must accumulate before it may fire.
pub const MAX_ACTION_POINTS: i32 = 3;

/// Collision radius of a craft.
pub const SHIP_RADIUS: i32 = 15;

/// Collision radius of a cannon ball.
pub const CANNONBALL_RADIUS: i32 = 10;

/// Largest arena half-extent the engine accepts; keeps every coordinate
/// update comfortably inside `i32`.
pub const MAX_EXTENT: i32 = 1000000;

} // verus!
