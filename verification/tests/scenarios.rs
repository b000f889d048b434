//! End-to-end scenario tests: whole ticks over the simulation state.

use broadside::combat::{ship_collision, CollisionEvent, Layer, LayerSet};
use broadside::enemy_ai::think;
use broadside::game::{game_over, ship_movement, AppState, Game, KeyState};
use broadside::turn::Turn;
use broadside::{FORWARD_MOVE_DIST, MAX_ACTION_POINTS};

const EXTENT: i32 = 375;

fn keys(fire: bool, left: bool, right: bool, forward: bool) -> KeyState {
    KeyState { fire, left, right, forward }
}

#[test]
fn new_match_starts_with_the_player() {
    let g = Game::new(EXTENT);
    assert_eq!(g.state, AppState::InGame);
    assert_eq!(g.turn.0, Turn::Player);
    assert_eq!(g.player.health.value, 3);
    assert_eq!(g.enemy.health.value, 5);
    assert!(g.cannon_balls.is_empty());
}

#[test]
fn moving_hands_the_turn_over_and_firing_does_not() {
    let mut g = Game::new(EXTENT);
    ship_movement(&mut g, keys(true, false, false, false));
    assert_eq!(g.turn.0, Turn::Player);
    ship_movement(&mut g, keys(false, false, false, true));
    assert_eq!(g.turn.0, Turn::Enemy);
    // Outside the player's turn, input changes nothing.
    let before = g.player;
    ship_movement(&mut g, keys(false, true, false, true));
    assert_eq!(g.player, before);
    assert_eq!(g.turn.0, Turn::Enemy);
    // The enemy tick hands the turn back.
    think(&mut g);
    assert_eq!(g.turn.0, Turn::Player);
}

#[test]
fn forward_moves_two_half_steps() {
    let mut g = Game::new(EXTENT);
    ship_movement(&mut g, keys(false, false, false, true));
    // Heading 0 points up: two half-steps of 10.
    assert_eq!(g.player.pose.x, 250);
    assert_eq!(g.player.pose.y, -250 + 2 * FORWARD_MOVE_DIST);
    assert_eq!(g.player.dir.get(), 0);
    assert_eq!(g.player.ap.value, 1);
}

#[test]
fn turning_left_rotates_and_moves_along_the_new_heading() {
    let mut g = Game::new(EXTENT);
    ship_movement(&mut g, keys(false, true, false, false));
    assert_eq!(g.player.dir.get(), 7);
    // Two counterclockwise 22.5-degree half-steps.
    assert_eq!(g.player.pose.rot, 2);
    // Octant 7 is (-1, 1).
    assert_eq!(g.player.pose.x, 250 - 2 * FORWARD_MOVE_DIST);
    assert_eq!(g.player.pose.y, -250 + 2 * FORWARD_MOVE_DIST);
}

#[test]
fn position_clamps_exactly_to_the_boundary() {
    let mut g = Game::new(EXTENT);
    // Face right (octant 2) and stand ten short of the wall.
    g.player.dir.d = 2;
    g.player.pose.rot = 12;
    g.player.pose.x = EXTENT - 10;
    ship_movement(&mut g, keys(false, false, false, true));
    assert_eq!(g.player.pose.x, EXTENT);
    assert_eq!(g.player.pose.y, -250);
    // And on the negative side.
    let mut g = Game::new(EXTENT);
    g.player.dir.d = 4;
    g.player.pose.rot = 8;
    g.player.pose.y = -EXTENT + 5;
    ship_movement(&mut g, keys(false, false, false, true));
    assert_eq!(g.player.pose.y, -EXTENT);
}

#[test]
fn three_actions_ready_the_cannon_and_the_fourth_fires() {
    let mut g = Game::new(EXTENT);
    for expected in [1, 2, 3] {
        ship_movement(&mut g, keys(false, false, false, true));
        assert_eq!(g.player.ap.value, expected);
        assert!(g.cannon_balls.is_empty());
        g.turn.0 = Turn::Player;
    }
    assert_eq!(g.player.ap.value, MAX_ACTION_POINTS);
    ship_movement(&mut g, keys(true, false, false, false));
    assert_eq!(g.cannon_balls.len(), 2);
    assert_eq!(g.player.ap.value, 0);
    assert_eq!(g.cannon_balls[0].owner, Turn::Player);
    assert_eq!(g.cannon_balls[1].owner, Turn::Player);
}

#[test]
fn fire_without_readiness_spawns_nothing_and_skips_movement() {
    let mut g = Game::new(EXTENT);
    let before = g.player;
    ship_movement(&mut g, keys(true, false, false, true));
    assert!(g.cannon_balls.is_empty());
    assert_eq!(g.player, before);
    assert_eq!(g.turn.0, Turn::Player);
}

#[test]
fn hold_heading_decision_only_advances() {
    let mut g = Game::new(EXTENT);
    g.turn.0 = Turn::Enemy;
    // Put the target straight down from the enemy: target octant 4 equals
    // the enemy's starting heading 4.
    g.player.pose.x = g.enemy.pose.x;
    g.player.pose.y = g.enemy.pose.y - 300;
    let before = g.enemy;
    think(&mut g);
    assert_eq!(g.enemy.dir.get(), before.dir.get());
    assert_eq!(g.enemy.pose.rot, before.pose.rot);
    assert_eq!(g.enemy.pose.x, before.pose.x);
    assert_eq!(g.enemy.pose.y, before.pose.y - 2 * FORWARD_MOVE_DIST);
}

#[test]
fn pursuit_converges_without_oscillation() {
    let mut g = Game::new(EXTENT);
    // Start the enemy facing north with the target octant fixed at 4
    // (straight down): the pursuit must march 0 -> 1 -> 2 -> 3 -> 4 and
    // then hold, never reversing.
    g.enemy.dir.d = 0;
    g.enemy.pose.rot = 0;
    let mut seen = vec![g.enemy.dir.get()];
    for _ in 0..6 {
        g.turn.0 = Turn::Enemy;
        g.player.pose.x = g.enemy.pose.x;
        g.player.pose.y = g.enemy.pose.y - 1000;
        // Keep the target inside the arena; only its signs matter.
        if g.player.pose.y < -EXTENT {
            g.player.pose.y = -EXTENT;
        }
        think(&mut g);
        seen.push(g.enemy.dir.get());
    }
    assert_eq!(seen, vec![0, 1, 2, 3, 4, 4, 4]);
}

#[test]
fn wrap_case_breaks_the_tie_leftward() {
    let mut g = Game::new(EXTENT);
    // Facing north with the target due west (octant 6): the octant gap is 6,
    // so the wrap special case turns left through north instead of marching
    // the long way right.
    g.enemy.dir.d = 0;
    g.enemy.pose.rot = 0;
    g.enemy.pose.x = 200;
    g.enemy.pose.y = 0;
    let mut seen = vec![g.enemy.dir.get()];
    for _ in 0..3 {
        g.turn.0 = Turn::Enemy;
        g.player.pose.x = -300;
        g.player.pose.y = g.enemy.pose.y;
        think(&mut g);
        seen.push(g.enemy.dir.get());
    }
    assert_eq!(seen, vec![0, 7, 6, 6]);
}

#[test]
fn opposed_turn_keys_cancel_but_still_move() {
    let mut g = Game::new(EXTENT);
    ship_movement(&mut g, keys(false, true, true, false));
    // Left and right cancel; both keys contribute an impulse and a
    // readiness point each.
    assert_eq!(g.player.dir.get(), 0);
    assert_eq!(g.player.pose.rot, 0);
    assert_eq!(g.player.pose.x, 250);
    assert_eq!(g.player.pose.y, -250 + 2 * 2 * FORWARD_MOVE_DIST);
    assert_eq!(g.player.ap.value, 2);
    assert_eq!(g.turn.0, Turn::Enemy);
}

#[test]
fn enemy_fires_through_the_readiness_gate() {
    let mut g = Game::new(EXTENT);
    // Keep the target octant aligned so the enemy just advances.
    for tick in 1..=3 {
        g.turn.0 = Turn::Enemy;
        g.player.pose.x = g.enemy.pose.x;
        g.player.pose.y = g.enemy.pose.y - 300;
        think(&mut g);
        if tick < 3 {
            assert_eq!(g.enemy.ap.value, tick);
            assert!(g.cannon_balls.is_empty());
        }
    }
    // The third earned point fills the counter: the broadside fires and
    // readiness resets.
    assert_eq!(g.cannon_balls.len(), 2);
    assert_eq!(g.enemy.ap.value, 0);
    assert_eq!(g.cannon_balls[0].owner, Turn::Enemy);
}

#[test]
fn ship_collision_scenario_costs_both_sides_one() {
    let mut g = Game::new(EXTENT);
    let p = LayerSet::none().with_group(Layer::Player);
    let e = LayerSet::none().with_group(Layer::Enemy);
    let events = vec![CollisionEvent {
        started: true,
        layers_1: p,
        entity_1: 1,
        layers_2: e,
        entity_2: 2,
    }];
    ship_collision(&mut g.player.health, &mut g.enemy.health, &events);
    assert_eq!(g.player.health.value, 2);
    assert_eq!(g.enemy.health.value, 4);
}

#[test]
fn outcome_check_raises_lose_win_and_the_tie_break() {
    let mut g = Game::new(EXTENT);
    game_over(&mut g);
    assert_eq!(g.state, AppState::InGame);
    g.player.health.value = 0;
    game_over(&mut g);
    assert_eq!(g.state, AppState::Lose);

    let mut g = Game::new(EXTENT);
    g.enemy.health.value = 0;
    game_over(&mut g);
    assert_eq!(g.state, AppState::Win);
    // A decided match stays decided.
    g.player.health.value = 0;
    game_over(&mut g);
    assert_eq!(g.state, AppState::Win);

    // Both at zero in the same tick: the lose takes precedence.
    let mut g = Game::new(EXTENT);
    g.player.health.value = 0;
    g.enemy.health.value = 0;
    game_over(&mut g);
    assert_eq!(g.state, AppState::Lose);
}
