use vstd::prelude::*;

use crate::systems::physics::CollisionDirection;
use crate::utils::Vec2Bits;

verus! {

/// The side of a block that something collided with.
#[derive(Clone, Copy, Debug, PartialEq, Eq, Structural)]
pub enum CollisionSideOfBlock {
    Top,
    Bottom,
    Left,
    Right,
}

impl CollisionSideOfBlock {
    /// A left or right side.
    pub open spec fn spec_is_horizontal(self) -> bool {
        self == CollisionSideOfBlock::Left || self == CollisionSideOfBlock::Right
    }

    /// A top or bottom side.
    pub open spec fn spec_is_vertical(self) -> bool {
        self == CollisionSideOfBlock::Top || self == CollisionSideOfBlock::Bottom
    }

    pub fn is_horizontal(&self) -> (r: bool)
        ensures
            r == self.spec_is_horizontal(),
    {
        match self {
            CollisionSideOfBlock::Left => true,
            CollisionSideOfBlock::Right => true,
            _ => false,
        }
    }

    pub fn is_vertical(&self) -> (r: bool)
        ensures
            r == self.spec_is_vertical(),
    {
        match self {
            CollisionSideOfBlock::Top => true,
            CollisionSideOfBlock::Bottom => true,
            _ => false,
        }
    }
}

/// Every side is either horizontal or vertical, never both.
pub proof fn lemma_side_is_horizontal_or_vertical(side: CollisionSideOfBlock)
    ensures
        side.spec_is_horizontal() != side.spec_is_vertical(),
{
}

/// The direction an entity's gravity comes from.
#[derive(Clone, Copy, Debug, PartialEq, Eq, Structural)]
pub struct GravityDirection(pub CollisionDirection);

/// Whether an entity stands on something, with respect to its gravity.
#[derive(Clone, Copy, Debug, PartialEq, Eq, Structural)]
pub struct Grounded(pub bool);

/// Whether an entity sticks to the surfaces it touches, turning its gravity towards them.
#[derive(Clone, Copy, Debug, PartialEq, Eq, Structural)]
pub struct Sticky(pub bool);

/// A collision found for an entity this frame. Positions, sizes, velocities
/// and lengths are `f32` values carried as bit patterns.
pub struct CollideeDetails {
    pub name: String,
    pub position: Vec2Bits,
    pub half_size: Vec2Bits,
    pub new_collider_pos: Vec2Bits,
    pub old_collider_vel: Vec2Bits,
    pub new_collider_vel: Vec2Bits,
    pub num_points_of_collision: i32,
    pub correction: u32,
    pub distance: u32,
    pub side: CollisionSideOfBlock,
}

impl CollideeDetails {
    /// Details of no collision yet: zero everywhere, on the top side.
    pub fn new() -> (r: CollideeDetails)
        ensures
            r.name@ == Seq::<char>::empty(),
            r.position == (Vec2Bits { x: 0, y: 0 }),
            r.half_size == (Vec2Bits { x: 0, y: 0 }),
            r.new_collider_pos == (Vec2Bits { x: 0, y: 0 }),
            r.old_collider_vel == (Vec2Bits { x: 0, y: 0 }),
            r.new_collider_vel == (Vec2Bits { x: 0, y: 0 }),
            r.num_points_of_collision == 0,
            r.correction == 0,
            r.distance == 0,
            r.side == CollisionSideOfBlock::Top,
    {
        CollideeDetails {
            name: String::new(),
            position: Vec2Bits { x: 0, y: 0 },
            half_size: Vec2Bits { x: 0, y: 0 },
            new_collider_pos: Vec2Bits { x: 0, y: 0 },
            old_collider_vel: Vec2Bits { x: 0, y: 0 },
            new_collider_vel: Vec2Bits { x: 0, y: 0 },
            num_points_of_collision: 0,
            correction: 0,
            distance: 0,
            side: CollisionSideOfBlock::Top,
        }
    }
}

/// The collisions of an entity on each axis, this frame and the previous one.
pub struct Collidee {
    pub horizontal: Option<CollideeDetails>,
    pub vertical: Option<CollideeDetails>,
    pub prev_horizontal: Option<CollideeDetails>,
    pub prev_vertical: Option<CollideeDetails>,
}

/// Points of contact of an optional collision.
pub open spec fn points_of(d: Option<CollideeDetails>) -> int {
    match d {
        Some(x) => x.num_points_of_collision as int,
        None => 0,
    }
}

impl Collidee {
    /// No collision on any axis, now or before.
    pub fn new() -> (r: Collidee)
        ensures
            r.horizontal.is_none(),
            r.vertical.is_none(),
            r.prev_horizontal.is_none(),
            r.prev_vertical.is_none(),
    {
        Collidee { horizontal: None, vertical: None, prev_horizontal: None, prev_vertical: None }
    }

    /// Collisions were found on both axes this frame.
    pub fn both(&self) -> (r: bool)
        ensures
            r == (self.horizontal.is_some() && self.vertical.is_some()),
    {
        self.horizontal.is_some() && self.vertical.is_some()
    }

    /// Points of contact on both axes in the previous frame.
    pub fn prev_collision_points(&self) -> (r: i32)
        requires
            i32::MIN <= points_of(self.prev_horizontal) + points_of(self.prev_vertical) <= i32::MAX,
        ensures
            r == points_of(self.prev_horizontal) + points_of(self.prev_vertical),
    {
        let mut result: i32 = 0;
        if let Some(x) = &self.prev_horizontal {
            result = result + x.num_points_of_collision;
        }
        if let Some(x) = &self.prev_vertical {
            result = result + x.num_points_of_collision;
        }
        result
    }

    /// Points of contact on both axes this frame.
    pub fn current_collision_points(&self) -> (r: i32)
        requires
            i32::MIN <= points_of(self.horizontal) + points_of(self.vertical) <= i32::MAX,
        ensures
            r == points_of(self.horizontal) + points_of(self.vertical),
    {
        let mut result: i32 = 0;
        if let Some(x) = &self.horizontal {
            result = result + x.num_points_of_collision;
        }
        if let Some(x) = &self.vertical {
            result = result + x.num_points_of_collision;
        }
        result
    }

    /// Starts a frame: this frame's collisions become the previous ones, and
    /// none are found yet.
    pub fn start_frame(&mut self)
        ensures
            final(self).horizontal.is_none(),
            final(self).vertical.is_none(),
            final(self).prev_horizontal == old(self).horizontal,
            final(self).prev_vertical == old(self).vertical,
    {
        let horizontal = self.horizontal.take();
        let vertical = self.vertical.take();
        self.prev_horizontal = horizontal;
        self.prev_vertical = vertical;
    }
}

impl Collidee {
    /// Records a collision on the axis of its side; returns whether collisions
    /// are now known on both axes.
    pub fn record(&mut self, details: CollideeDetails) -> (both: bool)
        ensures
            details.side.spec_is_horizontal() ==> final(self).horizontal == Some(details) && final(self).vertical == old(self).vertical,
            !details.side.spec_is_horizontal() ==> final(self).vertical == Some(details) && final(self).horizontal == old(self).horizontal,
            final(self).prev_horizontal == old(self).prev_horizontal,
            final(self).prev_vertical == old(self).prev_vertical,
            both == (final(self).horizontal.is_some() && final(self).vertical.is_some()),
    {
        match details.side.is_horizontal() {
            true => self.horizontal = Some(details),
            false => self.vertical = Some(details),
        }
        self.both()
    }
}

} // verus!
