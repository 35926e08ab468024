//! Game rules on hits between actors, on projectiles and on what the camera follows.
use vstd::prelude::*;

use crate::components::game::{CameraTarget, Drops, Health, HitOutcome, PicksThingsUp, Team, MAX_DROPPED_ON_HIT};
use crate::input::MAGNITUDE_MASK;
use crate::systems::physics::{is_zero, neg_bits, negate};
use crate::utils::Vec2Bits;

verus! {

/// Removes projectiles that hit a block.
pub struct ApplyProjectileCollisionSystem;

impl ApplyProjectileCollisionSystem {
    /// A projectile is removed when it hit a block on either axis this frame.
    pub fn collided(horizontal_contact: bool, vertical_contact: bool) -> (r: bool)
        ensures
            r == (horizontal_contact || vertical_contact),
    {
        horizontal_contact || vertical_contact
    }
}

/// Applies the collision events between actors: hits, reflected projectiles
/// and collected items.
pub struct EnemyCollisionSystem;

/// What a hit that landed set off.
#[derive(Clone, Copy, Debug, PartialEq, Eq, Structural)]
pub struct HitResponse {
    pub outcome: HitOutcome,
    /// Pickups the entity scatters: a player with a position that loses
    /// health loses up to two of what it gathered.
    pub pickups_lost: u32,
    /// Pickups the entity leaves behind, where it stands, because the hit killed it.
    pub pickups_left: u32,
}

impl EnemyCollisionSystem {
    /// How many of `gathered` pickups a hurt player loses.
    pub open spec fn spec_pickups_lost(gathered: u32) -> u32 {
        if gathered <= MAX_DROPPED_ON_HIT {
            gathered
        } else {
            MAX_DROPPED_ON_HIT
        }
    }

    /// A hit of `damage` on an entity with `health` whose invincibility time
    /// left is `iframes` (an `f32` bit pattern). It lands only on a live entity
    /// whose invincibility time is zero, and takes no more health than there
    /// is. The pickups go where the entity stands, so only an entity with a
    /// position (`has_position`) scatters any: a player that lost health drops
    /// up to two gathered pickups (`picker`), and an entity the hit kills
    /// leaves its `drops` behind.
    pub fn resolve_hit(
        health: &mut Health,
        iframes: u32,
        damage: u32,
        is_player: bool,
        has_position: bool,
        picker: &mut PicksThingsUp,
        drops: Drops,
    ) -> (r: Option<HitResponse>)
        ensures
            r.is_none() <==> (old(health).0 == 0 || !is_zero(iframes)),
            r.is_none() ==> *final(health) == *old(health) && *final(picker) == *old(picker),
            r matches Some(h) ==> {
                &&& h.outcome.damage_dealt == (if damage < old(health).0 { damage } else { old(health).0 })
                &&& final(health).0 == old(health).0 - h.outcome.damage_dealt
                &&& h.outcome.died == (final(health).0 == 0)
                &&& h.pickups_lost == (if has_position && is_player && h.outcome.damage_dealt > 0 {
                    Self::spec_pickups_lost(old(picker).amount_gathered)
                } else {
                    0
                })
                &&& final(picker).amount_gathered == old(picker).amount_gathered - h.pickups_lost
                &&& h.pickups_left == (if has_position && h.outcome.died { drops.0 } else { 0 })
            },
    {
        let invincible = iframes & MAGNITUDE_MASK != 0;
        match health.take_hit(damage, invincible) {
            None => None,
            Some(outcome) => {
                let pickups_lost = if has_position && is_player && outcome.damage_dealt > 0 {
                    picker.drop_on_hit()
                } else {
                    0
                };
                let pickups_left = if has_position && outcome.died {
                    drops.0
                } else {
                    0
                };
                Some(HitResponse { outcome, pickups_lost, pickups_left })
            },
        }
    }

    /// A reflected projectile joins the reflecting team and flies back: both
    /// components of its velocity change sign, which is what multiplying by
    /// `-1.0` does to every value that is a number.
    pub fn reflect_projectile(team: &mut Team, velocity: &mut Vec2Bits, new_team: Team)
        ensures
            *final(team) == new_team,
            *final(velocity) == (Vec2Bits { x: neg_bits(old(velocity).x), y: neg_bits(old(velocity).y) }),
    {
        *team = new_team;
        *velocity = Vec2Bits { x: negate(velocity.x), y: negate(velocity.y) };
    }
}

/// Points each camera at what its target follows.
pub struct CameraTargetSystem;

/// Where the camera looks after considering one more camera target: the last
/// player in play, or the last editor cursor; following a game object is not
/// supported and changes nothing.
pub open spec fn target_step(acc: Vec2Bits, target: CameraTarget, players: Seq<Vec2Bits>, cursors: Seq<Vec2Bits>) -> Vec2Bits {
    match target {
        CameraTarget::Player => if players.len() > 0 { players.last() } else { acc },
        CameraTarget::Cursor => if cursors.len() > 0 { cursors.last() } else { acc },
        CameraTarget::GameObject(_) => acc,
    }
}

/// Where the camera looks after considering the targets in order, from the origin.
pub open spec fn spec_camera_position(targets: Seq<CameraTarget>, players: Seq<Vec2Bits>, cursors: Seq<Vec2Bits>) -> Vec2Bits
    decreases targets.len(),
{
    if targets.len() == 0 {
        Vec2Bits { x: 0, y: 0 }
    } else {
        target_step(spec_camera_position(targets.drop_last(), players, cursors), targets.last(), players, cursors)
    }
}

impl CameraTargetSystem {
    /// Where the cameras look, given the cameras' targets, the positions of the
    /// players in play and those of the editor cursors (`f32` bit patterns).
    pub fn camera_position(targets: &Vec<CameraTarget>, players: &Vec<Vec2Bits>, cursors: &Vec<Vec2Bits>) -> (r: Vec2Bits)
        ensures
            r == spec_camera_position(targets@, players@, cursors@),
    {
        let mut position = Vec2Bits { x: 0, y: 0 };
        let mut i: usize = 0;
        while i < targets.len()
            invariant
                i <= targets.len(),
                position == spec_camera_position(targets@.take(i as int), players@, cursors@),
            decreases targets.len() - i,
        {
            proof {
                assert(targets@.take(i + 1).drop_last() =~= targets@.take(i as int));
                assert(targets@.take(i + 1).last() == targets@[i as int]);
            }
            match targets[i] {
                CameraTarget::Player => {
                    if players.len() > 0 {
                        position = players[players.len() - 1];
                    }
                },
                CameraTarget::Cursor => {
                    if cursors.len() > 0 {
                        position = cursors[cursors.len() - 1];
                    }
                },
                CameraTarget::GameObject(_) => {},
            }
            i = i + 1;
        }
        proof {
            assert(targets@.take(targets.len() as int) =~= targets@);
        }
        position
    }
}

} // verus!
