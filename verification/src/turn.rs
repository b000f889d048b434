//! Turn arbitration: exactly one side may act per tick.
//!
//! Policy: an action that changes heading or position hands the turn to the
//! other side; firing the broadside does not consume the turn, so a craft
//! may fire and then still move within its turn window.

use vstd::prelude::*;

verus! {

/// The two opposing sides.  Also used as the identity of a craft and as the
/// owner tag of a cannon ball.
#[derive(Clone, Copy, Debug, PartialEq, Eq, Structural)]
pub enum Turn {
    Player,
    Enemy,
}

impl Turn {
    /// The side that acts after this one.
    pub open spec fn other(self) -> Turn {
        match self {
            Turn::Player => Turn::Enemy,
            Turn::Enemy => Turn::Player,
        }
    }
}

/// The turn flag: which side is currently permitted to act.  A match starts
/// with the player side acting.
#[derive(Clone, Copy, Debug, PartialEq, Eq, Structural)]
pub struct PlayerTurn(pub Turn);

} // verus!
