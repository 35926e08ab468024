use pizzatopia::components::game::{CollisionEvent, Team};
use pizzatopia::components::physics::{Collidee, CollideeDetails, CollisionSideOfBlock, GravityDirection};
use pizzatopia::systems::physics::{
    adapt_sticky_velocity, gravitationally_adapted_velocity, gravitationally_de_adapted_velocity, motion_signs,
    negate, Actor, ActorCollisionSystem, ApplyCollisionSystem, ApplyStickySystem, ChildPositionSystem,
    CollisionDirection, DuckTransferSystem, MotionSigns, EDGE_SPEED_BITS,
};
use pizzatopia::utils::Vec2Bits;

fn v(x: f32, y: f32) -> Vec2Bits {
    Vec2Bits { x: x.to_bits(), y: y.to_bits() }
}

fn fx(b: u32) -> f32 {
    f32::from_bits(b)
}

fn details(side: CollisionSideOfBlock, correction: f32, points: i32, old_vel: Vec2Bits) -> CollideeDetails {
    let mut d = CollideeDetails::new();
    d.side = side;
    d.correction = correction.to_bits();
    d.num_points_of_collision = points;
    d.old_collider_vel = old_vel;
    d
}

fn still() -> MotionSigns {
    MotionSigns { right: false, left: false, up: false, down: false }
}

#[test]
fn collision_direction_is_horizontal() {
    assert!(CollisionDirection::FromLeft.is_horizontal());
    assert!(CollisionDirection::FromRight.is_horizontal());
    assert!(!CollisionDirection::FromTop.is_horizontal());
    assert!(!CollisionDirection::FromBottom.is_horizontal());
}

#[test]
fn side_of_block_is_horizontal_or_vertical() {
    for side in [
        CollisionSideOfBlock::Top,
        CollisionSideOfBlock::Bottom,
        CollisionSideOfBlock::Left,
        CollisionSideOfBlock::Right,
    ] {
        assert_ne!(side.is_horizontal(), side.is_vertical());
    }
    assert!(CollisionSideOfBlock::Left.is_horizontal());
    assert!(CollisionSideOfBlock::Top.is_vertical());
}

#[test]
fn grounded_only_on_the_side_gravity_pushes_onto() {
    assert!(ApplyCollisionSystem::grounded(Some(CollisionSideOfBlock::Top), None, None));
    assert!(!ApplyCollisionSystem::grounded(Some(CollisionSideOfBlock::Bottom), None, None));
    assert!(ApplyCollisionSystem::grounded(
        Some(CollisionSideOfBlock::Bottom),
        None,
        Some(CollisionDirection::FromBottom)
    ));
    assert!(ApplyCollisionSystem::grounded(
        None,
        Some(CollisionSideOfBlock::Left),
        Some(CollisionDirection::FromLeft)
    ));
    assert!(!ApplyCollisionSystem::grounded(
        None,
        Some(CollisionSideOfBlock::Left),
        Some(CollisionDirection::FromRight)
    ));
    assert!(!ApplyCollisionSystem::grounded(None, None, Some(CollisionDirection::FromTop)));
}

#[test]
fn applied_collisions_correct_the_velocity() {
    let mut collidee = Collidee::new();
    collidee.record(details(CollisionSideOfBlock::Top, 0.0, 2, v(0.0, 0.0)));
    let mut velocity = v(3.0, -5.0);
    let grounded = ApplyCollisionSystem::apply(&mut velocity, &collidee, None);
    assert!(grounded);
    assert_eq!(fx(velocity.x), 3.0);
    assert_eq!(fx(velocity.y), 0.0);

    let mut collidee = Collidee::new();
    collidee.record(details(CollisionSideOfBlock::Right, 1.5, 1, v(0.0, 0.0)));
    let mut velocity = v(3.0, -5.0);
    let grounded =
        ApplyCollisionSystem::apply(&mut velocity, &collidee, Some(GravityDirection(CollisionDirection::FromTop)));
    assert!(!grounded);
    assert_eq!(fx(velocity.x), 1.5);
    assert_eq!(fx(velocity.y), -5.0);
}

#[test]
fn collidee_records_per_axis_and_counts_points() {
    let mut collidee = Collidee::new();
    assert!(!collidee.record(details(CollisionSideOfBlock::Left, 0.0, 2, v(0.0, 0.0))));
    assert!(collidee.horizontal.is_some());
    assert!(collidee.vertical.is_none());
    assert!(collidee.record(details(CollisionSideOfBlock::Bottom, 0.0, 3, v(0.0, 0.0))));
    assert!(collidee.both());
    assert_eq!(collidee.current_collision_points(), 5);
    assert_eq!(collidee.prev_collision_points(), 0);
    collidee.start_frame();
    assert!(collidee.horizontal.is_none());
    assert!(collidee.vertical.is_none());
    assert_eq!(collidee.prev_collision_points(), 5);
    assert_eq!(collidee.current_collision_points(), 0);
}

#[test]
fn sticky_gravity_turns_to_the_surface_touched() {
    // Sideways gravity, landing on a top side: gravity now comes from the top.
    let (g, lean) = ApplyStickySystem::next_gravity(
        CollisionDirection::FromLeft,
        Some(CollisionSideOfBlock::Top),
        None,
        2,
        2,
        still(),
    );
    assert_eq!(g, CollisionDirection::FromTop);
    assert!(!lean);
    // Gravity from the top, touching a wall on the right.
    let (g, _) = ApplyStickySystem::next_gravity(
        CollisionDirection::FromTop,
        None,
        Some(CollisionSideOfBlock::Right),
        2,
        2,
        still(),
    );
    assert_eq!(g, CollisionDirection::FromRight);
    // No contact across the gravity and no ledge: kept.
    let (g, lean) =
        ApplyStickySystem::next_gravity(CollisionDirection::FromTop, Some(CollisionSideOfBlock::Top), None, 1, 1, still());
    assert_eq!(g, CollisionDirection::FromTop);
    assert!(!lean);
}

#[test]
fn sticky_gravity_turns_around_a_ledge() {
    // Lost the only point of contact while falling and going right.
    let motion = MotionSigns { right: true, left: false, up: false, down: true };
    let (g, lean) = ApplyStickySystem::next_gravity(CollisionDirection::FromTop, None, None, 0, 1, motion);
    assert!(lean);
    assert_eq!(g, CollisionDirection::FromRight);
    // Not moving the way gravity pulls: no turn.
    let motion = MotionSigns { right: true, left: false, up: true, down: false };
    let (g, lean) = ApplyStickySystem::next_gravity(CollisionDirection::FromTop, None, None, 0, 1, motion);
    assert!(lean);
    assert_eq!(g, CollisionDirection::FromTop);
}

#[test]
fn sticky_apply_leaves_non_sticky_entities_alone() {
    let mut collidee = Collidee::new();
    collidee.record(details(CollisionSideOfBlock::Right, 0.0, 1, v(0.0, 0.0)));
    let mut velocity = v(2.0, -1.0);
    let mut gravity = GravityDirection(CollisionDirection::FromTop);
    ApplyStickySystem::apply(&mut velocity, false, &collidee, &mut gravity);
    assert_eq!(velocity, v(2.0, -1.0));
    assert_eq!(gravity, GravityDirection(CollisionDirection::FromTop));
}

#[test]
fn sticky_apply_carries_speed_onto_a_wall() {
    // Moving right on the floor (contact velocity stopped vertically) into a wall on the right.
    let mut collidee = Collidee::new();
    collidee.record(details(CollisionSideOfBlock::Right, 0.0, 2, v(4.0, 0.0)));
    let mut velocity = v(4.0, 0.0);
    let mut gravity = GravityDirection(CollisionDirection::FromTop);
    ApplyStickySystem::apply(&mut velocity, true, &collidee, &mut gravity);
    assert_eq!(gravity.0, CollisionDirection::FromRight);
    // From the top to the right: x becomes 0, y the negated horizontal speed.
    assert_eq!(fx(velocity.x), 0.0);
    assert_eq!(fx(velocity.y), -4.0);
}

#[test]
fn sticky_apply_rounds_a_ledge_at_edge_speed() {
    let mut collidee = Collidee::new();
    collidee.record(details(CollisionSideOfBlock::Top, 0.0, 1, v(0.0, 0.0)));
    collidee.start_frame();
    // Falling and moving right, no contact any more.
    let mut velocity = v(3.0, -1.0);
    let mut gravity = GravityDirection(CollisionDirection::FromTop);
    ApplyStickySystem::apply(&mut velocity, true, &collidee, &mut gravity);
    assert_eq!(gravity.0, CollisionDirection::FromRight);
    assert_eq!(velocity.x, negate(EDGE_SPEED_BITS));
    assert_eq!(fx(velocity.x), -32.0);
    assert_eq!(fx(velocity.y), -3.0);
}

#[test]
fn adaptation_round_trip() {
    let vel = v(3.0, -2.0);
    for g in [
        CollisionDirection::FromTop,
        CollisionDirection::FromLeft,
        CollisionDirection::FromBottom,
        CollisionDirection::FromRight,
    ] {
        let adapted = gravitationally_adapted_velocity(&vel, &GravityDirection(g));
        assert_eq!(gravitationally_de_adapted_velocity(&adapted, &GravityDirection(g)), vel);
        let back = gravitationally_de_adapted_velocity(&vel, &GravityDirection(g));
        assert_eq!(gravitationally_adapted_velocity(&back, &GravityDirection(g)), vel);
    }
    let adapted = gravitationally_adapted_velocity(&vel, &GravityDirection(CollisionDirection::FromLeft));
    assert_eq!((fx(adapted.x), fx(adapted.y)), (2.0, 3.0));
    let adapted = gravitationally_adapted_velocity(&vel, &GravityDirection(CollisionDirection::FromBottom));
    assert_eq!((fx(adapted.x), fx(adapted.y)), (-3.0, 2.0));
}

#[test]
fn negate_flips_the_sign() {
    assert_eq!(fx(negate(1.5f32.to_bits())), -1.5);
    assert_eq!(negate(negate(7.25f32.to_bits())), 7.25f32.to_bits());
    assert_eq!(negate(0.0f32.to_bits()), (-0.0f32).to_bits());
}

#[test]
fn sticky_velocity_follows_the_turn() {
    let vel = v(1.0, 5.0);
    let r = adapt_sticky_velocity(&vel, &CollisionDirection::FromRight, &CollisionDirection::FromTop);
    assert_eq!((fx(r.x), fx(r.y)), (-5.0, 0.0));
    let r = adapt_sticky_velocity(&vel, &CollisionDirection::FromTop, &CollisionDirection::FromLeft);
    assert_eq!((fx(r.x), fx(r.y)), (0.0, 1.0));
    let r = adapt_sticky_velocity(&vel, &CollisionDirection::FromTop, &CollisionDirection::FromBottom);
    assert_eq!(r, vel);
}

#[test]
fn motion_signs_ignore_zero_and_nan() {
    let m = motion_signs(&v(2.0, -0.5));
    assert_eq!(m, MotionSigns { right: true, left: false, up: false, down: true });
    let m = motion_signs(&v(-0.0, 0.0));
    assert_eq!(m, still());
    let m = motion_signs(&v(f32::NAN, f32::INFINITY));
    assert_eq!(m, MotionSigns { right: false, left: false, up: true, down: false });
}

fn actor(id: u32, team: Option<Team>, damage: Option<u32>) -> Actor {
    Actor { id, team, damage, reflects: false, blocks: false, projectile: false }
}

#[test]
fn friendly_actors_cause_nothing() {
    let a = actor(1, Some(Team::GoodGuys), Some(3));
    let b = actor(2, Some(Team::GoodGuys), Some(3));
    assert!(ActorCollisionSystem::pair_events(&a, &b).is_empty());
    let n = actor(3, Some(Team::Neutral), Some(3));
    assert!(ActorCollisionSystem::pair_events(&a, &n).is_empty());
    let none = actor(4, None, Some(3));
    assert!(ActorCollisionSystem::pair_events(&none, &a).is_empty());
}

#[test]
fn hostile_actors_hit_each_other() {
    let hero = actor(1, Some(Team::GoodGuys), Some(1));
    let enemy = actor(2, Some(Team::BadGuys), Some(2));
    let events = ActorCollisionSystem::collision_events(&vec![hero, enemy], &vec![(0, 1), (1, 0), (0, 0)]);
    assert_eq!(events.len(), 2);
    assert!(matches!(events[0], CollisionEvent::EnemyCollision(2, 1, 1)));
    assert!(matches!(events[1], CollisionEvent::EnemyCollision(1, 2, 2)));
}

#[test]
fn blocked_projectiles_deal_no_hits() {
    let mut shield = actor(1, Some(Team::GoodGuys), None);
    shield.blocks = true;
    let mut bullet = actor(2, Some(Team::BadGuys), Some(5));
    bullet.projectile = true;
    let hero = actor(3, Some(Team::GoodGuys), None);
    let events = ActorCollisionSystem::collision_events(&vec![shield, bullet, hero], &vec![(1, 2), (0, 1)]);
    assert_eq!(events.len(), 1);
    assert!(matches!(events[0], CollisionEvent::ProjectileBlock(2)));
    assert_eq!(ActorCollisionSystem::block_key(&events[0]), 2);
}

#[test]
fn reflecting_sends_the_projectile_to_the_other_team() {
    let mut mirror = actor(1, Some(Team::GoodGuys), None);
    mirror.reflects = true;
    let mut bullet = actor(2, Some(Team::BadGuys), None);
    bullet.projectile = true;
    let events = ActorCollisionSystem::pair_events(&mirror, &bullet);
    assert_eq!(events.len(), 1);
    assert!(matches!(events[0], CollisionEvent::ProjectileReflection(2, Team::GoodGuys)));
}

#[test]
fn ducking_follows_the_vertical_axis() {
    let down = (-0.5f32).to_bits();
    let rest = 0.0f32.to_bits();
    let edge = (-0.25f32).to_bits();
    assert!(DuckTransferSystem::ducks(true, true, false, down));
    assert!(!DuckTransferSystem::ducks(true, true, true, down));
    assert!(!DuckTransferSystem::ducks(false, true, false, down));
    assert!(!DuckTransferSystem::ducks(true, false, false, down));
    assert!(!DuckTransferSystem::ducks(true, true, false, edge));
    assert!(DuckTransferSystem::stands_up(edge, false));
    assert!(DuckTransferSystem::stands_up(rest, false));
    assert!(!DuckTransferSystem::stands_up(rest, true));
    assert!(!DuckTransferSystem::stands_up(down, false));
    let nan = f32::NAN.to_bits();
    assert!(!DuckTransferSystem::stands_up(nan, false));
    assert!(!DuckTransferSystem::ducks(true, true, false, nan));
}

#[test]
fn children_mirror_with_their_parent() {
    let offset = v(10.0, 4.0);
    let r = ChildPositionSystem::child_offset(&offset, true, false, true);
    assert_eq!(r, offset);
    let r = ChildPositionSystem::child_offset(&offset, false, true, true);
    assert_eq!((fx(r.x), fx(r.y)), (-10.0, -4.0));
    let r = ChildPositionSystem::child_offset(&offset, false, true, false);
    assert_eq!((fx(r.x), fx(r.y)), (-10.0, 4.0));
}
