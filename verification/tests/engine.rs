//! Unit tests for the heading model, movement clamp, weapon system and
//! collision resolver.

use broadside::combat::{
    cannon_fodder, circles_overlap, is_cannonball, is_enemy, is_player, is_rock, ship_collision,
    CollisionEvent, Health, Layer, LayerSet,
};
use broadside::game::{spawn_enemy_ships, spawn_player_ship};
use broadside::heading::{firing_arc_vectors, get_gun_arc, Direction, Offset};
use broadside::pose::{clamp, Pose};
use broadside::rocks::{placement_ok, setup_rocks, Rock};
use broadside::turn::Turn;
use broadside::weapon::{fire_broadside, ActionPoints};
use broadside::{enemy_ai, MAX_ACTION_POINTS, SHOT_SPEED};

fn octant_table() -> [(i32, i32); 8] {
    [(0, 1), (1, 1), (1, 0), (1, -1), (0, -1), (-1, -1), (-1, 0), (-1, 1)]
}

#[test]
fn gun_arc_table_and_default() {
    let table = octant_table();
    for d in 0..8 {
        let v = get_gun_arc(d);
        assert_eq!((v.x, v.y), table[d as usize]);
    }
    let zero = get_gun_arc(-1);
    assert_eq!((zero.x, zero.y), (0, 0));
    let zero = get_gun_arc(8);
    assert_eq!((zero.x, zero.y), (0, 0));
}

#[test]
fn forward_vector_wrap_invariance() {
    for h in 0..8 {
        assert_eq!(get_gun_arc(h), get_gun_arc((h + 8) % 8));
    }
}

#[test]
fn firing_arcs_are_two_octants_off_the_bow() {
    for h in 0..8i32 {
        let (left, right) = firing_arc_vectors(h);
        assert_eq!(left, get_gun_arc((h + 6) % 8));
        assert_eq!(right, get_gun_arc((h + 2) % 8));
    }
}

#[test]
fn firing_arcs_rotate_with_the_heading() {
    for h in 0..8i32 {
        let (l0, r0) = firing_arc_vectors(h);
        let (l1, r1) = firing_arc_vectors((h + 1) % 8);
        let rot = |v: Offset| Offset {
            x: (v.x + v.y).signum(),
            y: (v.y - v.x).signum(),
        };
        assert_eq!(l1, rot(l0));
        assert_eq!(r1, rot(r0));
    }
}

#[test]
fn direction_turns_wrap() {
    let mut d = Direction::new(0);
    d.turn_left();
    assert_eq!(d.get(), 7);
    d.turn_right();
    assert_eq!(d.get(), 0);
    let mut d = Direction::new(7);
    d.turn_right();
    assert_eq!(d.get(), 0);
}

#[test]
fn clamp_pins_to_the_boundary() {
    assert_eq!(clamp(400, 375), 375);
    assert_eq!(clamp(-400, 375), -375);
    assert_eq!(clamp(375, 375), 375);
    assert_eq!(clamp(-375, 375), -375);
    assert_eq!(clamp(0, 375), 0);
}

#[test]
fn readiness_saturates_at_cap() {
    let mut ap = ActionPoints { value: 0 };
    for expected in [1, 2, 3, 3, 3] {
        ap.gain();
        assert_eq!(ap.value, expected);
    }
}

#[test]
fn fire_is_a_no_op_below_full_readiness() {
    let pose = Pose { x: 0, y: 0, rot: 0 };
    let dir = Direction::new(0);
    for v in 0..MAX_ACTION_POINTS {
        let mut ap = ActionPoints { value: v };
        let balls = fire_broadside(&pose, &dir, &mut ap, Turn::Player);
        assert!(balls.is_none());
        assert_eq!(ap.value, v);
    }
}

#[test]
fn full_readiness_fires_two_balls_along_the_arcs() {
    let pose = Pose { x: 7, y: -9, rot: 0 };
    let dir = Direction::new(0);
    let mut ap = ActionPoints { value: MAX_ACTION_POINTS };
    let balls = fire_broadside(&pose, &dir, &mut ap, Turn::Enemy);
    let (left, right) = balls.expect("a full counter must fire");
    assert_eq!(ap.value, 0);
    // Heading 0: left arc is octant 6 (-1, 0), right arc octant 2 (1, 0).
    assert_eq!((left.vx, left.vy), (-SHOT_SPEED, 0));
    assert_eq!((right.vx, right.vy), (SHOT_SPEED, 0));
    assert_eq!(left.pose, pose);
    assert_eq!(right.pose, pose);
    assert_eq!(left.owner, Turn::Enemy);
    assert_eq!(right.owner, Turn::Enemy);
}

#[test]
fn pos_mapping_covers_all_quadrants() {
    let cases = [
        ((0, 1), 0),
        ((1, 1), 1),
        ((1, 0), 2),
        ((1, -1), 3),
        ((0, -1), 4),
        ((-1, -1), 5),
        ((-1, 0), 6),
        ((-1, 1), 7),
        ((0, 0), 0),
    ];
    for ((x, y), q) in cases {
        assert_eq!(enemy_ai::pos_mapping(x, y), q);
    }
}

#[test]
fn get_player_direction_uses_signs_only() {
    let e = Pose { x: 0, y: 0, rot: 0 };
    let p = Pose { x: 300, y: -1, rot: 0 };
    assert_eq!(enemy_ai::get_player_direction(&p, &e), 3);
    let p = Pose { x: 0, y: 250, rot: 0 };
    assert_eq!(enemy_ai::get_player_direction(&p, &e), 0);
    let p = Pose { x: -2, y: 0, rot: 0 };
    assert_eq!(enemy_ai::get_player_direction(&p, &e), 6);
}

fn craft_layers(side: Layer) -> LayerSet {
    LayerSet::none().with_group(side)
}

fn started(l1: LayerSet, l2: LayerSet) -> CollisionEvent {
    CollisionEvent { started: true, layers_1: l1, entity_1: 1, layers_2: l2, entity_2: 2 }
}

#[test]
fn layer_classification_excludes_other_combat_layers() {
    let p = craft_layers(Layer::Player);
    let both = p.with_group(Layer::Enemy);
    assert!(is_player(p));
    assert!(!is_player(both));
    assert!(!is_enemy(both));
    let rock_and_player = craft_layers(Layer::Rock).with_group(Layer::Player);
    assert!(!is_rock(rock_and_player));
    let ball = craft_layers(Layer::CannonBall);
    assert!(is_cannonball(ball));
    assert!(!is_cannonball(ball.with_group(Layer::Enemy)));
}

#[test]
fn ship_collision_applies_damage_in_either_order() {
    let p = craft_layers(Layer::Player);
    let e = craft_layers(Layer::Enemy);
    let r = craft_layers(Layer::Rock);
    let mut ph = Health { value: 3 };
    let mut eh = Health { value: 5 };
    let events = vec![
        started(p, e),
        started(e, p),
        started(p, r),
        started(r, p),
        started(e, r),
        started(r, e),
    ];
    ship_collision(&mut ph, &mut eh, &events);
    assert_eq!(ph.value, 3 - 2 - 2);
    assert_eq!(eh.value, 5 - 2 - 2);
}

#[test]
fn collision_stop_events_change_nothing() {
    let p = craft_layers(Layer::Player);
    let e = craft_layers(Layer::Enemy);
    let mut stop = started(p, e);
    stop.started = false;
    let mut ph = Health { value: 3 };
    let mut eh = Health { value: 5 };
    ship_collision(&mut ph, &mut eh, &vec![stop]);
    assert_eq!(ph.value, 3);
    assert_eq!(eh.value, 5);
    let mut ball_stop = started(p, craft_layers(Layer::CannonBall));
    ball_stop.started = false;
    let despawned = cannon_fodder(&mut ph, &mut eh, &vec![ball_stop]);
    assert!(despawned.is_empty());
    assert_eq!(ph.value, 3);
}

#[test]
fn cannon_fodder_damages_and_despawns() {
    let p = craft_layers(Layer::Player);
    let e = craft_layers(Layer::Enemy);
    let b = craft_layers(Layer::CannonBall);
    let mut ph = Health { value: 3 };
    let mut eh = Health { value: 5 };
    let events = vec![
        CollisionEvent { started: true, layers_1: p, entity_1: 10, layers_2: b, entity_2: 11 },
        CollisionEvent { started: true, layers_1: b, entity_1: 12, layers_2: e, entity_2: 13 },
        started(p, e),
    ];
    let despawned = cannon_fodder(&mut ph, &mut eh, &events);
    assert_eq!(ph.value, 2);
    assert_eq!(eh.value, 4);
    assert_eq!(despawned, vec![11, 12]);
}

#[test]
fn circle_overlap_boundary_is_inclusive() {
    // Distance 30 equals the sum of the radii: still an overlap.
    assert!(circles_overlap(0, 0, 15, 30, 0, 15));
    assert!(!circles_overlap(0, 0, 15, 31, 0, 15));
    assert!(circles_overlap(-10, -10, 15, 8, 8, 15));
}

#[test]
fn spawns_match_the_starting_layout() {
    let player = spawn_player_ship();
    assert_eq!((player.pose.x, player.pose.y, player.pose.rot), (250, -250, 0));
    assert_eq!(player.dir.get(), 0);
    assert_eq!(player.health.value, 3);
    assert_eq!(player.ap.value, 0);
    let enemy = spawn_enemy_ships();
    assert_eq!((enemy.pose.x, enemy.pose.y, enemy.pose.rot), (-250, 250, 8));
    assert_eq!(enemy.dir.get(), 4);
    assert_eq!(enemy.health.value, 5);
    assert_eq!(enemy.ap.value, 0);
}

#[test]
fn rocks_are_drawn_inside_the_margins() {
    for _ in 0..20 {
        let rocks = setup_rocks(375);
        assert_eq!(rocks.len(), 3);
        for r in &rocks {
            assert!(-275 <= r.x && r.x < 275);
            assert!(-275 <= r.y && r.y < 275);
            assert!(5 <= r.radius && r.radius < 15);
        }
    }
}

#[test]
fn placement_rejects_the_exclusion_zone() {
    let placed = vec![Rock { x: 0, y: 0, radius: 10 }];
    assert!(!placement_ok(60, 60, &placed));
    assert!(!placement_ok(-60, 0, &placed));
    assert!(placement_ok(61, 0, &placed));
    assert!(placement_ok(0, -61, &placed));
    assert!(placement_ok(100, 100, &Vec::new()));
}
