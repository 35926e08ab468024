use pizzatopia::components::editor::TileLayer;
use pizzatopia::components::game::{
    AnimatedTile, CameraTarget, CollisionEvent, Drops, Health, HitOutcome, PicksThingsUp, Player, SerializedObject,
    SerializedObjectType, SpriteRenderData, Team,
};
use pizzatopia::components::graphics::SpriteSheetType;
use pizzatopia::components::physics::{Collidee, CollideeDetails, CollisionSideOfBlock};
use pizzatopia::systems::ai::{
    period_elapsed, BasicAttackAiSystem, BasicShootAiSystem, BasicWalkAiSystem, ATTACK_REACH_BITS, QUARTER_TILE_BITS,
};
use pizzatopia::systems::game::{ApplyProjectileCollisionSystem, CameraTargetSystem, EnemyCollisionSystem, HitResponse};
use pizzatopia::events::Events;
use pizzatopia::utils::Vec2Bits;

fn v(x: f32, y: f32) -> Vec2Bits {
    Vec2Bits { x: x.to_bits(), y: y.to_bits() }
}

#[test]
fn hits_never_take_more_health_than_there_is() {
    let mut health = Health(5);
    assert_eq!(health.take_hit(3, false), Some(HitOutcome { damage_dealt: 3, died: false }));
    assert_eq!(health, Health(2));
    assert_eq!(health.take_hit(10, false), Some(HitOutcome { damage_dealt: 2, died: true }));
    assert_eq!(health, Health(0));
    // Dead entities take no more hits.
    assert_eq!(health.take_hit(1, false), None);
    assert_eq!(health, Health(0));
}

#[test]
fn invincible_entities_take_no_hits() {
    let mut health = Health(4);
    assert_eq!(health.take_hit(3, true), None);
    assert_eq!(health, Health(4));
    assert_eq!(health.take_hit(0, false), Some(HitOutcome { damage_dealt: 0, died: false }));
}

#[test]
fn revive_only_brings_back_the_dead() {
    let mut health = Health(0);
    assert!(health.revive(5));
    assert_eq!(health, Health(5));
    assert!(!health.revive(9));
    assert_eq!(health, Health(5));
}

#[test]
fn players_drop_at_most_two_pickups_when_hit() {
    let mut picker = PicksThingsUp { amount_gathered: 5 };
    assert_eq!(picker.drop_on_hit(), 2);
    assert_eq!(picker.amount_gathered, 3);
    let mut picker = PicksThingsUp { amount_gathered: 1 };
    assert_eq!(picker.drop_on_hit(), 1);
    assert_eq!(picker.amount_gathered, 0);
    picker.collect();
    picker.collect();
    assert_eq!(picker.amount_gathered, 2);
}

#[test]
fn resolve_hit_on_a_player() {
    let mut health = Health(3);
    let mut picker = PicksThingsUp { amount_gathered: 7 };
    let r = EnemyCollisionSystem::resolve_hit(&mut health, 0.0f32.to_bits(), 1, true, true, &mut picker, Drops(4));
    assert_eq!(
        r,
        Some(HitResponse {
            outcome: HitOutcome { damage_dealt: 1, died: false },
            pickups_lost: 2,
            pickups_left: 0,
        })
    );
    assert_eq!(health, Health(2));
    assert_eq!(picker.amount_gathered, 5);
}

#[test]
fn resolve_hit_that_kills_an_enemy() {
    let mut health = Health(2);
    let mut picker = PicksThingsUp { amount_gathered: 3 };
    let r = EnemyCollisionSystem::resolve_hit(&mut health, (-0.0f32).to_bits(), 9, false, true, &mut picker, Drops(4));
    assert_eq!(
        r,
        Some(HitResponse {
            outcome: HitOutcome { damage_dealt: 2, died: true },
            pickups_lost: 0,
            pickups_left: 4,
        })
    );
    assert_eq!(health, Health(0));
    assert_eq!(picker.amount_gathered, 3);
}

#[test]
fn resolve_hit_during_invincibility() {
    let mut health = Health(2);
    let mut picker = PicksThingsUp { amount_gathered: 3 };
    let r = EnemyCollisionSystem::resolve_hit(&mut health, 0.5f32.to_bits(), 1, true, true, &mut picker, Drops(1));
    assert_eq!(r, None);
    assert_eq!(health, Health(2));
    assert_eq!(picker.amount_gathered, 3);
    // A zero-damage hit lands but costs a player nothing.
    let r = EnemyCollisionSystem::resolve_hit(&mut health, 0.0f32.to_bits(), 0, true, true, &mut picker, Drops(1));
    assert_eq!(r.map(|h| h.pickups_lost), Some(0));
    assert_eq!(picker.amount_gathered, 3);
}

#[test]
fn resolve_hit_without_a_position_scatters_nothing() {
    let mut health = Health(1);
    let mut picker = PicksThingsUp { amount_gathered: 7 };
    let r = EnemyCollisionSystem::resolve_hit(&mut health, 0.0f32.to_bits(), 1, true, false, &mut picker, Drops(4));
    assert_eq!(
        r,
        Some(HitResponse {
            outcome: HitOutcome { damage_dealt: 1, died: true },
            pickups_lost: 0,
            pickups_left: 0,
        })
    );
    assert_eq!(health, Health(0));
    assert_eq!(picker.amount_gathered, 7);
}

#[test]
fn reflected_projectiles_turn_back() {
    let mut team = Team::BadGuys;
    let mut velocity = v(12.0, -3.0);
    EnemyCollisionSystem::reflect_projectile(&mut team, &mut velocity, Team::GoodGuys);
    assert_eq!(team, Team::GoodGuys);
    assert_eq!(velocity, v(-12.0, 3.0));
}

#[test]
fn projectiles_end_on_any_contact() {
    assert!(ApplyProjectileCollisionSystem::collided(true, false));
    assert!(ApplyProjectileCollisionSystem::collided(false, true));
    assert!(!ApplyProjectileCollisionSystem::collided(false, false));
}

#[test]
fn camera_follows_the_last_target_found() {
    let players = vec![v(1.0, 2.0), v(3.0, 4.0)];
    let cursors = vec![v(9.0, 9.0)];
    assert_eq!(CameraTargetSystem::camera_position(&vec![CameraTarget::Player], &players, &cursors), v(3.0, 4.0));
    assert_eq!(
        CameraTargetSystem::camera_position(&vec![CameraTarget::Player, CameraTarget::Cursor], &players, &cursors),
        v(9.0, 9.0)
    );
    assert_eq!(
        CameraTargetSystem::camera_position(&vec![CameraTarget::GameObject(3)], &players, &cursors),
        v(0.0, 0.0)
    );
    assert_eq!(CameraTargetSystem::camera_position(&vec![CameraTarget::Cursor], &players, &vec![]), v(0.0, 0.0));
}

#[test]
fn component_defaults() {
    assert_eq!(Team::default(), Team::Neutral);
    assert_eq!(CameraTarget::default(), CameraTarget::Player);
    assert_eq!(SpriteRenderData::default(), SpriteRenderData::new(SpriteSheetType::Tiles, 0));
    assert_eq!(AnimatedTile::default().num_frames, 0);
    let object = SerializedObject::default();
    assert_eq!(object.object_type, SerializedObjectType::StaticTile { animation: None });
    assert_eq!(object.pos, Some(v(0.0, 0.0)));
    assert_eq!(object.size, Some(v(128.0, 128.0)));
    assert_eq!(object.layer, Some(TileLayer::Middle));
}

#[test]
fn insertion_objects_alternate_tiles_and_characters() {
    assert_eq!(SerializedObject::for_insertion(0), SerializedObject::default());
    assert_eq!(SerializedObject::for_insertion(4), SerializedObject::default());
    let character = SerializedObject::for_insertion(3);
    assert_eq!(character.object_type, SerializedObjectType::Player { is_player: Player(false) });
    assert_eq!(character.sprite, Some(SpriteRenderData::new(SpriteSheetType::Snap, 0)));
    assert_eq!(character.size, SerializedObject::default().size);
}

#[test]
fn events_copy_exactly() {
    let e = CollisionEvent::Talk(String::from("hi"), 3);
    match e.copied() {
        CollisionEvent::Talk(s, id) => {
            assert_eq!(s, "hi");
            assert_eq!(id, 3);
        }
        _ => panic!("wrong event"),
    }
    assert!(matches!(CollisionEvent::ItemCollect(1, 2).copied(), CollisionEvent::ItemCollect(1, 2)));
}

#[test]
fn walkers_turn_around_at_walls() {
    let mut collidee = Collidee::new();
    let mut d = CollideeDetails::new();
    d.side = CollisionSideOfBlock::Left;
    collidee.record(d);
    let turned = BasicWalkAiSystem::turn_around(&v(1.0, 0.5), &collidee);
    assert_eq!(turned, v(-1.0, 0.5));
    let same = BasicWalkAiSystem::turn_around(&v(1.0, 0.5), &Collidee::new());
    assert_eq!(same, v(1.0, 0.5));
}

#[test]
fn enemies_act_after_two_seconds() {
    assert!(!period_elapsed(2.0f32.to_bits()));
    assert!(period_elapsed(2.01f32.to_bits()));
    assert!(!period_elapsed(1.5f32.to_bits()));
    assert!(!period_elapsed((-3.0f32).to_bits()));
    assert!(!period_elapsed(f32::NAN.to_bits()));
    assert!(period_elapsed(f32::INFINITY.to_bits()));
}

#[test]
fn shots_leave_a_quarter_tile_up_or_down() {
    assert_eq!(f32::from_bits(BasicShootAiSystem::offset_for(true)), 32.0);
    assert_eq!(f32::from_bits(BasicShootAiSystem::offset_for(false)), -32.0);
    for _ in 0..20 {
        let offset = f32::from_bits(BasicShootAiSystem::shot_offset());
        assert!(offset == 32.0 || offset == -32.0);
    }
}

#[test]
fn attackers_strike_in_front() {
    assert_eq!(ATTACK_REACH_BITS, (128.0f32 / 1.5).to_bits());
    assert_eq!(QUARTER_TILE_BITS, (128.0f32 / 4.0).to_bits());
    match BasicAttackAiSystem::strike(7, Team::BadGuys) {
        Events::CreateDamageBox(parent, pos, size, team) => {
            assert_eq!(parent, Some(7));
            assert_eq!(pos, v(128.0 / 1.5, 32.0));
            assert_eq!(size, v(128.0, 32.0));
            assert_eq!(team, Team::BadGuys);
        }
        _ => panic!("not a damage box"),
    }
}
