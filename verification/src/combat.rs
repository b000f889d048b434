//! Collision resolution: classifies collision-start notifications by the
//! categorical layers of the two participants and applies the fixed damage
//! rules.  Collision-stop notifications produce no state change.

use vstd::prelude::*;

verus! {

/// Categorical physics layer of an entity.
#[derive(Clone, Copy, Debug, PartialEq, Eq, Structural)]
pub enum Layer {
    Player,
    Enemy,
    Rock,
    CannonBall,
}

/// The set of layers a physics body belongs to.
#[derive(Clone, Copy, Debug, PartialEq, Eq, Structural)]
pub struct LayerSet {
    pub player: bool,
    pub enemy: bool,
    pub rock: bool,
    pub cannon_ball: bool,
}

impl LayerSet {
    /// Membership of one layer in the set.
    pub open spec fn spec_contains(self, l: Layer) -> bool {
        match l {
            Layer::Player => self.player,
            Layer::Enemy => self.enemy,
            Layer::Rock => self.rock,
            Layer::CannonBall => self.cannon_ball,
        }
    }

    /// The empty layer set.
    pub fn none() -> (r: LayerSet)
        ensures
            forall|l: Layer| !r.spec_contains(l),
    {
        LayerSet { player: false, enemy: false, rock: false, cannon_ball: false }
    }

    /// This set with one more layer in it.
    pub fn with_group(self, l: Layer) -> (r: LayerSet)
        ensures
            r.spec_contains(l),
            forall|m: Layer| m != l ==> r.spec_contains(m) == self.spec_contains(m),
    {
        match l {
            Layer::Player => LayerSet { player: true, ..self },
            Layer::Enemy => LayerSet { enemy: true, ..self },
            Layer::Rock => LayerSet { rock: true, ..self },
            Layer::CannonBall => LayerSet { cannon_ball: true, ..self },
        }
    }

    pub fn contains_group(&self, l: Layer) -> (b: bool)
        ensures
            b == self.spec_contains(l),
    {
        match l {
            Layer::Player => self.player,
            Layer::Enemy => self.enemy,
            Layer::Rock => self.rock,
            Layer::CannonBall => self.cannon_ball,
        }
    }
}

/// Positive classification of a body as one target layer: it must carry the
/// target layer and must not carry the combat layers that would make it a
/// craft of either side, so a rock or a cannon ball is never mistaken for a
/// craft.
pub open spec fn is_layer(s: LayerSet, target: Layer) -> bool {
    match target {
        Layer::Player => s.player && !s.enemy,
        Layer::Enemy => s.enemy && !s.player,
        Layer::Rock => s.rock && !s.player && !s.enemy,
        Layer::CannonBall => s.cannon_ball && !s.player && !s.enemy,
    }
}

pub fn is_player(layers: LayerSet) -> (b: bool)
    ensures
        b == is_layer(layers, Layer::Player),
{
    !layers.contains_group(Layer::Enemy) && layers.contains_group(Layer::Player)
}

pub fn is_enemy(layers: LayerSet) -> (b: bool)
    ensures
        b == is_layer(layers, Layer::Enemy),
{
    !layers.contains_group(Layer::Player) && layers.contains_group(Layer::Enemy)
}

pub fn is_rock(layers: LayerSet) -> (b: bool)
    ensures
        b == is_layer(layers, Layer::Rock),
{
    !layers.contains_group(Layer::Player) && !layers.contains_group(Layer::Enemy)
        && layers.contains_group(Layer::Rock)
}

pub fn is_cannonball(layers: LayerSet) -> (b: bool)
    ensures
        b == is_layer(layers, Layer::CannonBall),
{
    !layers.contains_group(Layer::Player) && !layers.contains_group(Layer::Enemy)
        && layers.contains_group(Layer::CannonBall)
}

/// A collision notification from the physics collaborator: whether the
/// overlap started (rather than stopped), and the layer set and entity id
/// of each participant.
#[derive(Clone, Copy, Debug, PartialEq, Eq, Structural)]
pub struct CollisionEvent {
    pub started: bool,
    pub layers_1: LayerSet,
    pub entity_1: u64,
    pub layers_2: LayerSet,
    pub entity_2: u64,
}

/// Hit points of a craft.  The value may go negative; it is only ever
/// compared against zero by the outcome check.
#[derive(Clone, Copy, Debug, PartialEq, Eq, Structural)]
pub struct Health {
    pub value: i32,
}

/// A started craft-versus-craft overlap, in either participant order.
pub open spec fn ship_ship_hit(e: CollisionEvent) -> bool {
    e.started && ((is_layer(e.layers_1, Layer::Player) && is_layer(e.layers_2, Layer::Enemy)) || (
    is_layer(e.layers_2, Layer::Player) && is_layer(e.layers_1, Layer::Enemy)))
}

/// A started player-versus-rock overlap, in either participant order.
pub open spec fn player_rock_hit(e: CollisionEvent) -> bool {
    e.started && ((is_layer(e.layers_1, Layer::Player) && is_layer(e.layers_2, Layer::Rock)) || (
    is_layer(e.layers_2, Layer::Player) && is_layer(e.layers_1, Layer::Rock)))
}

/// A started opposing-craft-versus-rock overlap, in either participant
/// order.
pub open spec fn enemy_rock_hit(e: CollisionEvent) -> bool {
    e.started && ((is_layer(e.layers_1, Layer::Enemy) && is_layer(e.layers_2, Layer::Rock)) || (
    is_layer(e.layers_2, Layer::Enemy) && is_layer(e.layers_1, Layer::Rock)))
}

/// A started player-versus-cannon-ball overlap, in either participant order.
pub open spec fn player_ball_hit(e: CollisionEvent) -> bool {
    e.started && ((is_layer(e.layers_1, Layer::Player) && is_layer(e.layers_2, Layer::CannonBall))
        || (is_layer(e.layers_2, Layer::Player) && is_layer(e.layers_1, Layer::CannonBall)))
}

/// A started opposing-craft-versus-cannon-ball overlap, in either
/// participant order.
pub open spec fn enemy_ball_hit(e: CollisionEvent) -> bool {
    e.started && ((is_layer(e.layers_1, Layer::Enemy) && is_layer(e.layers_2, Layer::CannonBall))
        || (is_layer(e.layers_2, Layer::Enemy) && is_layer(e.layers_1, Layer::CannonBall)))
}

/// The entity id of the cannon ball participating in a ball hit.
pub open spec fn ball_entity(e: CollisionEvent) -> u64 {
    if is_layer(e.layers_1, Layer::CannonBall) {
        e.entity_1
    } else {
        e.entity_2
    }
}

/// The damage classifications of a collision event.
#[derive(Clone, Copy, Debug, PartialEq, Eq, Structural)]
pub enum HitKind {
    ShipShip,
    PlayerRock,
    EnemyRock,
    PlayerBall,
    EnemyBall,
}

/// Whether an event carries the given damage classification.
pub open spec fn hit_matches(e: CollisionEvent, kind: HitKind) -> bool {
    match kind {
        HitKind::ShipShip => ship_ship_hit(e),
        HitKind::PlayerRock => player_rock_hit(e),
        HitKind::EnemyRock => enemy_rock_hit(e),
        HitKind::PlayerBall => player_ball_hit(e),
        HitKind::EnemyBall => enemy_ball_hit(e),
    }
}

/// How many events of a sequence carry the given classification.
pub open spec fn count_hits(s: Seq<CollisionEvent>, kind: HitKind) -> int
    decreases s.len(),
{
    if s.len() == 0 {
        0
    } else {
        count_hits(s.drop_last(), kind) + if hit_matches(s.last(), kind) {
            1int
        } else {
            0
        }
    }
}

pub proof fn lemma_count_hits_bounds(s: Seq<CollisionEvent>, kind: HitKind)
    ensures
        0 <= count_hits(s, kind) <= s.len(),
    decreases s.len(),
{
    if s.len() > 0 {
        lemma_count_hits_bounds(s.drop_last(), kind);
    }
}

/// No single event carries two classifications that damage the same craft:
/// the classification rules are mutually exclusive per event.
pub proof fn lemma_hits_exclusive(e: CollisionEvent)
    ensures
        !(ship_ship_hit(e) && player_rock_hit(e)),
        !(ship_ship_hit(e) && enemy_rock_hit(e)),
        !(player_ball_hit(e) && enemy_ball_hit(e)),
{
}

/// Two classifications that never hold of the same event together count at
/// most one hit per event.
pub proof fn lemma_count_pair_bound(s: Seq<CollisionEvent>, k1: HitKind, k2: HitKind)
    requires
        forall|e: CollisionEvent| !(hit_matches(e, k1) && hit_matches(e, k2)),
    ensures
        count_hits(s, k1) + count_hits(s, k2) <= s.len(),
    decreases s.len(),
{
    if s.len() > 0 {
        lemma_count_pair_bound(s.drop_last(), k1, k2);
    }
}

pub open spec fn count_ship_ship(s: Seq<CollisionEvent>) -> int {
    count_hits(s, HitKind::ShipShip)
}

pub open spec fn count_player_rock(s: Seq<CollisionEvent>) -> int {
    count_hits(s, HitKind::PlayerRock)
}

pub open spec fn count_enemy_rock(s: Seq<CollisionEvent>) -> int {
    count_hits(s, HitKind::EnemyRock)
}

pub open spec fn count_player_ball(s: Seq<CollisionEvent>) -> int {
    count_hits(s, HitKind::PlayerBall)
}

pub open spec fn count_enemy_ball(s: Seq<CollisionEvent>) -> int {
    count_hits(s, HitKind::EnemyBall)
}

/// The entity ids of the cannon balls consumed by a sequence of events, in
/// event order.
pub open spec fn despawned_by(s: Seq<CollisionEvent>) -> Seq<u64>
    decreases s.len(),
{
    if s.len() == 0 {
        Seq::empty()
    } else {
        let rest = despawned_by(s.drop_last());
        if player_ball_hit(s.last()) || enemy_ball_hit(s.last()) {
            rest.push(ball_entity(s.last()))
        } else {
            rest
        }
    }
}

/// Whether two collision circles overlap (squared-distance test).  This is
/// the geometry the physics collaborator applies to the sphere shapes the
/// engine registers; the driver may use it to synthesize collision-start
/// notifications.
pub open spec fn spec_circles_overlap(
    x1: int,
    y1: int,
    r1: int,
    x2: int,
    y2: int,
    r2: int,
) -> bool {
    (x1 - x2) * (x1 - x2) + (y1 - y2) * (y1 - y2) <= (r1 + r2) * (r1 + r2)
}

/// Decides whether two collision circles overlap.
pub fn circles_overlap(x1: i32, y1: i32, r1: i32, x2: i32, y2: i32, r2: i32) -> (b: bool)
    requires
        -crate::MAX_EXTENT <= x1 <= crate::MAX_EXTENT,
        -crate::MAX_EXTENT <= y1 <= crate::MAX_EXTENT,
        -crate::MAX_EXTENT <= x2 <= crate::MAX_EXTENT,
        -crate::MAX_EXTENT <= y2 <= crate::MAX_EXTENT,
        0 <= r1 <= crate::MAX_EXTENT,
        0 <= r2 <= crate::MAX_EXTENT,
    ensures
        b == spec_circles_overlap(x1 as int, y1 as int, r1 as int, x2 as int, y2 as int, r2 as int),
{
    let dx: i64 = x1 as i64 - x2 as i64;
    let dy: i64 = y1 as i64 - y2 as i64;
    let rr: i64 = r1 as i64 + r2 as i64;
    proof {
        assert(dx * dx <= 4000000000000 && dx * dx >= 0) by (nonlinear_arith)
            requires
                -2000000 <= dx <= 2000000,
        ;
        assert(dy * dy <= 4000000000000 && dy * dy >= 0) by (nonlinear_arith)
            requires
                -2000000 <= dy <= 2000000,
        ;
        assert(rr * rr <= 4000000000000 && rr * rr >= 0) by (nonlinear_arith)
            requires
                0 <= rr <= 2000000,
        ;
    }
    dx * dx + dy * dy <= rr * rr
}

/// Applies the craft-versus-craft and craft-versus-rock damage rules to a
/// batch of collision notifications: a craft overlap costs both sides one
/// health, and a craft that strikes a rock loses one health.
pub fn ship_collision(
    player_health: &mut Health,
    enemy_health: &mut Health,
    events: &Vec<CollisionEvent>,
)
    requires
        old(player_health).value - events@.len() >= i32::MIN,
        old(enemy_health).value - events@.len() >= i32::MIN,
    ensures
        final(player_health).value == old(player_health).value - count_ship_ship(events@)
            - count_player_rock(events@),
        final(enemy_health).value == old(enemy_health).value - count_ship_ship(events@)
            - count_enemy_rock(events@),
{
    let ghost s = events@;
    let mut i: usize = 0;
    while i < events.len()
        invariant
            s == events@,
            i <= s.len(),
            old(player_health).value - s.len() >= i32::MIN,
            old(enemy_health).value - s.len() >= i32::MIN,
            player_health.value == old(player_health).value - count_ship_ship(s.take(i as int))
                - count_player_rock(s.take(i as int)),
            enemy_health.value == old(enemy_health).value - count_ship_ship(s.take(i as int))
                - count_enemy_rock(s.take(i as int)),
        decreases s.len() - i,
    {
        let e = events[i];
        proof {
            assert(s.take(i + 1).drop_last() =~= s.take(i as int));
            assert(s.take(i + 1).last() == s[i as int]);
            lemma_count_hits_bounds(s.take(i as int), HitKind::ShipShip);
            lemma_count_hits_bounds(s.take(i as int), HitKind::PlayerRock);
            lemma_count_hits_bounds(s.take(i as int), HitKind::EnemyRock);
            lemma_count_hits_bounds(s.take(i + 1), HitKind::ShipShip);
            lemma_count_hits_bounds(s.take(i + 1), HitKind::PlayerRock);
            lemma_count_hits_bounds(s.take(i + 1), HitKind::EnemyRock);
            assert(forall|ev: CollisionEvent|
                !(hit_matches(ev, HitKind::ShipShip) && hit_matches(ev, HitKind::PlayerRock)));
            assert(forall|ev: CollisionEvent|
                !(hit_matches(ev, HitKind::ShipShip) && hit_matches(ev, HitKind::EnemyRock)));
            lemma_count_pair_bound(s.take(i as int), HitKind::ShipShip, HitKind::PlayerRock);
            lemma_count_pair_bound(s.take(i as int), HitKind::ShipShip, HitKind::EnemyRock);
            lemma_count_pair_bound(s.take(i + 1), HitKind::ShipShip, HitKind::PlayerRock);
            lemma_count_pair_bound(s.take(i + 1), HitKind::ShipShip, HitKind::EnemyRock);
        }
        if e.started {
            let p1 = is_player(e.layers_1);
            let p2 = is_player(e.layers_2);
            let e1 = is_enemy(e.layers_1);
            let e2 = is_enemy(e.layers_2);
            let r1 = is_rock(e.layers_1);
            let r2 = is_rock(e.layers_2);
            if (p1 && e2) || (p2 && e1) {
                player_health.value = player_health.value - 1;
                enemy_health.value = enemy_health.value - 1;
            }
            if (p1 && r2) || (p2 && r1) {
                player_health.value = player_health.value - 1;
            }
            if (e1 && r2) || (e2 && r1) {
                enemy_health.value = enemy_health.value - 1;
            }
        }
        i = i + 1;
    }
    proof {
        assert(s.take(s.len() as int) =~= s);
    }
}

/// Applies the cannon-ball damage rule to a batch of collision
/// notifications: a craft struck by a cannon ball loses one health and the
/// ball is consumed.  Returns the entity ids of the consumed balls, in
/// event order.
pub fn cannon_fodder(
    player_health: &mut Health,
    enemy_health: &mut Health,
    events: &Vec<CollisionEvent>,
) -> (despawned: Vec<u64>)
    requires
        old(player_health).value - events@.len() >= i32::MIN,
        old(enemy_health).value - events@.len() >= i32::MIN,
    ensures
        final(player_health).value == old(player_health).value - count_player_ball(events@),
        final(enemy_health).value == old(enemy_health).value - count_enemy_ball(events@),
        despawned@ == despawned_by(events@),
{
    let ghost s = events@;
    let mut despawned: Vec<u64> = Vec::new();
    let mut i: usize = 0;
    while i < events.len()
        invariant
            s == events@,
            i <= s.len(),
            old(player_health).value - s.len() >= i32::MIN,
            old(enemy_health).value - s.len() >= i32::MIN,
            player_health.value == old(player_health).value - count_player_ball(s.take(i as int)),
            enemy_health.value == old(enemy_health).value - count_enemy_ball(s.take(i as int)),
            despawned@ == despawned_by(s.take(i as int)),
        decreases s.len() - i,
    {
        let e = events[i];
        proof {
            assert(s.take(i + 1).drop_last() =~= s.take(i as int));
            assert(s.take(i + 1).last() == s[i as int]);
            lemma_count_hits_bounds(s.take(i as int), HitKind::PlayerBall);
            lemma_count_hits_bounds(s.take(i as int), HitKind::EnemyBall);
            lemma_count_hits_bounds(s.take(i + 1), HitKind::PlayerBall);
            lemma_count_hits_bounds(s.take(i + 1), HitKind::EnemyBall);
        }
        if e.started {
            let p1 = is_player(e.layers_1);
            let p2 = is_player(e.layers_2);
            let e1 = is_enemy(e.layers_1);
            let e2 = is_enemy(e.layers_2);
            let cb1 = is_cannonball(e.layers_1);
            let cb2 = is_cannonball(e.layers_2);
            if (p1 && cb2) || (p2 && cb1) {
                player_health.value = player_health.value - 1;
                despawned.push(if cb1 {
                    e.entity_1
                } else {
                    e.entity_2
                });
            } else if (e1 && cb2) || (e2 && cb1) {
                enemy_health.value = enemy_health.value - 1;
                despawned.push(if cb1 {
                    e.entity_1
                } else {
                    e.entity_2
                });
            }
        }
        i = i + 1;
    }
    proof {
        assert(s.take(s.len() as int) =~= s);
    }
    despawned
}

} // verus!
