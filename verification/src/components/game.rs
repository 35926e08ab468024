use vstd::prelude::*;

use crate::components::editor::TileLayer;
use crate::components::graphics::SpriteSheetType;
use crate::utils::{Vec2Bits, TILE_SIZE_BITS, ZERO_BITS};

verus! {

/// The side an entity fights on.
#[derive(Clone, Copy, Debug, PartialEq, Eq, Structural)]
pub enum Team {
    GoodGuys,
    BadGuys,
    Neutral,
    Individual(u32),
}

impl Default for Team {
    fn default() -> (r: Self)
        ensures
            r == Team::Neutral,
    {
        Team::Neutral
    }
}

/// Something that happened between two entities, named by their ids.
#[derive(Debug)]
pub enum CollisionEvent {
    /// (entity getting hit, entity hitting, damage dealt)
    EnemyCollision(u32, u32, u32),
    /// (projectile, team it now belongs to)
    ProjectileReflection(u32, Team),
    /// (projectile)
    ProjectileBlock(u32),
    /// (picker, pickee)
    ItemCollect(u32, u32),
    Talk(String, u32),
}

impl CollisionEvent {
    /// An equal event.
    pub fn copied(&self) -> (r: CollisionEvent)
        ensures
            r == *self,
    {
        match self {
            CollisionEvent::EnemyCollision(a, b, c) => CollisionEvent::EnemyCollision(*a, *b, *c),
            CollisionEvent::ProjectileReflection(a, t) => CollisionEvent::ProjectileReflection(*a, *t),
            CollisionEvent::ProjectileBlock(a) => CollisionEvent::ProjectileBlock(*a),
            CollisionEvent::ItemCollect(a, b) => CollisionEvent::ItemCollect(*a, *b),
            CollisionEvent::Talk(s, a) => CollisionEvent::Talk(s.clone(), *a),
        }
    }
}

/// Whether an entity is controlled by the player.
#[derive(Clone, Copy, Debug, PartialEq, Eq, Structural)]
pub struct Player(pub bool);

/// How many pickups an entity has gathered.
#[derive(Clone, Copy, Debug, PartialEq, Eq, Structural)]
pub struct PicksThingsUp {
    pub amount_gathered: u32,
}

/// Pickups an entity drops when it dies.
#[derive(Clone, Copy, Debug, PartialEq, Eq, Structural)]
pub struct Drops(pub u32);

/// Damage an entity deals on contact.
#[derive(Clone, Copy, Debug, PartialEq, Eq, Structural)]
pub struct Damage(pub u32);

/// Hit points.
#[derive(Clone, Copy, Debug, PartialEq, Eq, Structural)]
pub struct Health(pub u32);

/// What the camera follows.
#[derive(Clone, Copy, Debug, PartialEq, Eq, Structural)]
pub enum CameraTarget {
    Player,
    Cursor,
    GameObject(u32),
}

impl Default for CameraTarget {
    fn default() -> (r: Self)
        ensures
            r == CameraTarget::Player,
    {
        CameraTarget::Player
    }
}

/// Most pickups a player drops when hit.
pub const MAX_DROPPED_ON_HIT: u32 = 2;

impl PicksThingsUp {
    /// Drops what was gathered when hit, two at most; returns how many dropped.
    pub fn drop_on_hit(&mut self) -> (dropped: u32)
        ensures
            dropped == (if old(self).amount_gathered <= MAX_DROPPED_ON_HIT {
                old(self).amount_gathered
            } else {
                MAX_DROPPED_ON_HIT
            }),
            final(self).amount_gathered == old(self).amount_gathered - dropped,
    {
        let total_dropped;
        if self.amount_gathered <= MAX_DROPPED_ON_HIT {
            total_dropped = self.amount_gathered;
            self.amount_gathered = 0;
        } else {
            total_dropped = MAX_DROPPED_ON_HIT;
            self.amount_gathered = self.amount_gathered - MAX_DROPPED_ON_HIT;
        }
        total_dropped
    }

    /// Gathers one more pickup.
    pub fn collect(&mut self)
        requires
            old(self).amount_gathered < u32::MAX,
        ensures
            final(self).amount_gathered == old(self).amount_gathered + 1,
    {
        self.amount_gathered = self.amount_gathered + 1;
    }
}

/// What a hit did to the health of the entity it hit.
#[derive(Clone, Copy, Debug, PartialEq, Eq, Structural)]
pub struct HitOutcome {
    /// Health lost, never more than the entity had.
    pub damage_dealt: u32,
    /// The health dropped to zero.
    pub died: bool,
}

impl Health {
    /// Takes a hit of `damage` unless the entity is dead already or invincible;
    /// it never loses more health than it has.
    pub fn take_hit(&mut self, damage: u32, invincible: bool) -> (r: Option<HitOutcome>)
        ensures
            r.is_none() <==> (old(self).0 == 0 || invincible),
            r.is_none() ==> *final(self) == *old(self),
            r.is_some() ==> r.unwrap().damage_dealt == (if damage < old(self).0 {
                damage
            } else {
                old(self).0
            }),
            r.is_some() ==> final(self).0 == old(self).0 - r.unwrap().damage_dealt,
            r.is_some() ==> r.unwrap().died == (final(self).0 == 0),
    {
        if self.0 > 0 && !invincible {
            let dmg = if damage < self.0 {
                damage
            } else {
                self.0
            };
            self.0 = self.0 - dmg;
            Some(HitOutcome { damage_dealt: dmg, died: self.0 == 0 })
        } else {
            None
        }
    }

    /// Brings a dead entity back with `new_health`; returns whether it was dead.
    pub fn revive(&mut self, new_health: u32) -> (revived: bool)
        ensures
            revived == (old(self).0 == 0),
            final(self).0 == (if revived {
                new_health
            } else {
                old(self).0
            }),
    {
        if self.0 == 0 {
            self.0 = new_health;
            true
        } else {
            false
        }
    }
}

/// Health never goes negative under hits: after any hit the entity has what it
/// had less what was dealt, and a hit on a live, vulnerable entity with enough
/// damage kills it.
pub proof fn lemma_hit_accounting(health: u32, damage: u32)
    requires
        health > 0,
    ensures
        ({
            let dealt = if damage < health { damage } else { health };
            &&& dealt <= damage
            &&& dealt <= health
            &&& (health - dealt == 0) == (damage >= health)
        }),
{
}

/// Which sprite of which sheet an object shows.
#[derive(Clone, Copy, Debug, PartialEq, Eq, Structural)]
pub struct SpriteRenderData {
    pub sheet: SpriteSheetType,
    pub number: usize,
}

impl SpriteRenderData {
    pub fn new(sheet: SpriteSheetType, number: usize) -> (r: Self)
        ensures
            r == (SpriteRenderData { sheet, number }),
    {
        SpriteRenderData { sheet, number }
    }
}

impl Default for SpriteRenderData {
    fn default() -> (r: Self)
        ensures
            r == (SpriteRenderData { sheet: SpriteSheetType::Tiles, number: 0 }),
    {
        SpriteRenderData { sheet: SpriteSheetType::Tiles, number: 0 }
    }
}

/// A tile animation: how many sprites, following the tile's own, it cycles through.
#[derive(Clone, Copy, Debug, PartialEq, Eq, Structural)]
pub struct AnimatedTile {
    pub num_frames: usize,
    /// Seconds per frame (bit pattern of an `f32`).
    pub time_per_frame: u32,
}

impl Default for AnimatedTile {
    fn default() -> (r: Self)
        ensures
            r == (AnimatedTile { num_frames: 0, time_per_frame: ZERO_BITS }),
    {
        AnimatedTile { num_frames: 0, time_per_frame: ZERO_BITS }
    }
}

/// The kind of a level object.
#[derive(Clone, Copy, Debug, PartialEq, Eq, Structural)]
pub enum SerializedObjectType {
    StaticTile { animation: Option<AnimatedTile> },
    Player { is_player: Player },
}

impl Default for SerializedObjectType {
    fn default() -> (r: Self)
        ensures
            r == (SerializedObjectType::StaticTile { animation: None }),
    {
        SerializedObjectType::StaticTile { animation: None }
    }
}

/// A level object as it is saved.
#[derive(Clone, Copy, Debug, PartialEq, Eq, Structural)]
pub struct SerializedObject {
    pub object_type: SerializedObjectType,
    pub pos: Option<Vec2Bits>,
    pub size: Option<Vec2Bits>,
    pub sprite: Option<SpriteRenderData>,
    pub layer: Option<TileLayer>,
}

impl SerializedObject {
    /// A static tile of one tile's size at the origin, showing the first tile sprite.
    pub open spec fn spec_default() -> SerializedObject {
        SerializedObject {
            object_type: SerializedObjectType::StaticTile { animation: None },
            pos: Some(Vec2Bits { x: ZERO_BITS, y: ZERO_BITS }),
            size: Some(Vec2Bits { x: TILE_SIZE_BITS, y: TILE_SIZE_BITS }),
            sprite: Some(SpriteRenderData { sheet: SpriteSheetType::Tiles, number: 0 }),
            layer: Some(TileLayer::Middle),
        }
    }
}

impl Default for SerializedObject {
    fn default() -> (r: Self)
        ensures
            r == SerializedObject::spec_default(),
    {
        SerializedObject {
            object_type: SerializedObjectType::default(),
            pos: Some(Vec2Bits { x: ZERO_BITS, y: ZERO_BITS }),
            size: Some(Vec2Bits { x: TILE_SIZE_BITS, y: TILE_SIZE_BITS }),
            sprite: Some(SpriteRenderData::default()),
            layer: Some(TileLayer::default()),
        }
    }
}

impl SerializedObject {
    /// The object the editor inserts for a choice key: even choices give the
    /// default tile, odd ones a character that the player does not control,
    /// drawn with the first sprite of its sheet.
    pub open spec fn spec_for_insertion(id: u8) -> SerializedObject {
        if id % 2 == 0 {
            SerializedObject::spec_default()
        } else {
            SerializedObject {
                object_type: SerializedObjectType::Player { is_player: Player(false) },
                sprite: Some(SpriteRenderData { sheet: SpriteSheetType::Snap, number: 0 }),
                ..SerializedObject::spec_default()
            }
        }
    }

    /// See `spec_for_insertion`.
    pub fn for_insertion(id: u8) -> (r: SerializedObject)
        ensures
            r == SerializedObject::spec_for_insertion(id),
    {
        let mut result = SerializedObject::default();
        if id % 2 == 1 {
            result.object_type = SerializedObjectType::Player { is_player: Player(false) };
            result.sprite = Some(SpriteRenderData::new(SpriteSheetType::Snap, 0));
        }
        result
    }
}

} // verus!
