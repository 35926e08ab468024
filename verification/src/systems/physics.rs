//! Collision decisions: which way gravity pulls a sticky entity, whether an
//! entity stands on ground, and which collisions between actors become events.
use vstd::prelude::*;

use crate::components::game::{CollisionEvent, Team};
use crate::components::physics::{points_of, Collidee, CollisionSideOfBlock, GravityDirection};
use crate::input::{INFINITY_BITS, MAGNITUDE_MASK};
use crate::utils::Vec2Bits;

verus! {

/// The direction gravity comes from, named by the side of a block it pushes
/// an entity onto.
#[derive(Clone, Copy, Debug, PartialEq, Eq, Structural)]
pub enum CollisionDirection {
    FromTop,
    FromLeft,
    FromBottom,
    FromRight,
}

impl CollisionDirection {
    /// Gravity pulls sideways.
    pub open spec fn spec_is_horizontal(self) -> bool {
        self == CollisionDirection::FromLeft || self == CollisionDirection::FromRight
    }

    pub fn is_horizontal(&self) -> (r: bool)
        ensures
            r == self.spec_is_horizontal(),
    {
        match self {
            CollisionDirection::FromLeft => true,
            CollisionDirection::FromRight => true,
            _ => false,
        }
    }

    /// The side of a block that this gravity pushes an entity onto.
    pub open spec fn side(self) -> CollisionSideOfBlock {
        match self {
            CollisionDirection::FromTop => CollisionSideOfBlock::Top,
            CollisionDirection::FromBottom => CollisionSideOfBlock::Bottom,
            CollisionDirection::FromLeft => CollisionSideOfBlock::Left,
            CollisionDirection::FromRight => CollisionSideOfBlock::Right,
        }
    }
}

/// Applies the collisions found this frame to the velocity and the grounded flag.
pub struct ApplyCollisionSystem;

impl ApplyCollisionSystem {
    /// Whether an entity is grounded after this frame's collisions: a collision on
    /// the vertical axis grounds it when it hit the top of a block under gravity
    /// from the top, or the bottom under gravity from the bottom; a collision on the
    /// horizontal axis grounds it in the same way for the left and right sides.
    /// An entity without a gravity direction falls from the top.
    pub open spec fn spec_grounded(
        vertical: Option<CollisionSideOfBlock>,
        horizontal: Option<CollisionSideOfBlock>,
        gravity: Option<CollisionDirection>,
    ) -> bool {
        let g = gravity.unwrap_or(CollisionDirection::FromTop);
        let from_vertical = match vertical {
            Some(CollisionSideOfBlock::Bottom) => g == CollisionDirection::FromBottom,
            Some(CollisionSideOfBlock::Top) => g == CollisionDirection::FromTop,
            _ => false,
        };
        let from_horizontal = match horizontal {
            Some(CollisionSideOfBlock::Left) => g == CollisionDirection::FromLeft,
            Some(CollisionSideOfBlock::Right) => g == CollisionDirection::FromRight,
            _ => false,
        };
        from_vertical || from_horizontal
    }

    /// The grounded flag after this frame's collisions, given the sides hit on
    /// the vertical and the horizontal axis.
    pub fn grounded(
        vertical: Option<CollisionSideOfBlock>,
        horizontal: Option<CollisionSideOfBlock>,
        gravity: Option<CollisionDirection>,
    ) -> (r: bool)
        ensures
            r == Self::spec_grounded(vertical, horizontal, gravity),
    {
        let mut ground = false;
        let mut grav_dir = CollisionDirection::FromTop;
        if let Some(grav) = gravity {
            grav_dir = grav;
        }
        if let Some(side) = vertical {
            match side {
                CollisionSideOfBlock::Bottom => {
                    ground = grav_dir == CollisionDirection::FromBottom;
                },
                CollisionSideOfBlock::Top => {
                    ground = grav_dir == CollisionDirection::FromTop;
                },
                _ => {},
            }
        }
        if let Some(side) = horizontal {
            match side {
                CollisionSideOfBlock::Left => {
                    ground = ground || grav_dir == CollisionDirection::FromLeft;
                },
                CollisionSideOfBlock::Right => {
                    ground = ground || grav_dir == CollisionDirection::FromRight;
                },
                _ => {},
            }
        }
        ground
    }
}

/// An entity is grounded exactly when one of the sides it hit is the side its
/// gravity pushes it onto.
pub proof fn lemma_grounded_on_gravity_side(
    vertical: Option<CollisionSideOfBlock>,
    horizontal: Option<CollisionSideOfBlock>,
    gravity: Option<CollisionDirection>,
)
    ensures
        ApplyCollisionSystem::spec_grounded(vertical, horizontal, gravity) == ({
            let s = gravity.unwrap_or(CollisionDirection::FromTop).side();
            (vertical == Some(s) && s.spec_is_vertical()) || (horizontal == Some(s) && s.spec_is_horizontal())
        }),
{
}

/// Which way an entity moves along each axis (read from its velocity's signs).
#[derive(Clone, Copy, Debug, PartialEq, Eq, Structural)]
pub struct MotionSigns {
    /// The horizontal velocity is positive.
    pub right: bool,
    /// The horizontal velocity is negative.
    pub left: bool,
    /// The vertical velocity is positive.
    pub up: bool,
    /// The vertical velocity is negative.
    pub down: bool,
}

/// Turns the gravity of sticky entities towards the surfaces they touch, and
/// around the edge of a platform they walk off.
pub struct ApplyStickySystem;

impl ApplyStickySystem {
    /// Gravity after touching a surface: under sideways gravity a top or bottom
    /// contact turns it towards that side; under up/down gravity a left or right
    /// contact does.
    pub open spec fn gravity_after_contact(
        gravity: CollisionDirection,
        vertical: Option<CollisionSideOfBlock>,
        horizontal: Option<CollisionSideOfBlock>,
    ) -> CollisionDirection {
        if gravity.spec_is_horizontal() {
            match vertical {
                Some(CollisionSideOfBlock::Top) => CollisionDirection::FromTop,
                Some(CollisionSideOfBlock::Bottom) => CollisionDirection::FromBottom,
                _ => gravity,
            }
        } else {
            match horizontal {
                Some(CollisionSideOfBlock::Right) => CollisionDirection::FromRight,
                Some(CollisionSideOfBlock::Left) => CollisionDirection::FromLeft,
                _ => gravity,
            }
        }
    }

    /// The entity just lost its only point of contact.
    pub open spec fn leans_off_ledge(current_points: i32, prev_points: i32) -> bool {
        current_points == 0 && prev_points == 1
    }

    /// The entity moves the way gravity pulls it.
    pub open spec fn follows_gravity(gravity: CollisionDirection, motion: MotionSigns) -> bool {
        match gravity {
            CollisionDirection::FromTop => motion.down,
            CollisionDirection::FromBottom => motion.up,
            CollisionDirection::FromLeft => motion.right,
            CollisionDirection::FromRight => motion.left,
        }
    }

    /// Gravity around the edge of a platform: up/down gravity turns to the side
    /// the entity moves towards, sideways gravity to the top when it moves up and
    /// to the bottom otherwise.
    pub open spec fn gravity_around_edge(gravity: CollisionDirection, motion: MotionSigns) -> CollisionDirection {
        match gravity {
            CollisionDirection::FromTop | CollisionDirection::FromBottom => if motion.right {
                CollisionDirection::FromRight
            } else {
                CollisionDirection::FromLeft
            },
            CollisionDirection::FromLeft | CollisionDirection::FromRight => if motion.up {
                CollisionDirection::FromTop
            } else {
                CollisionDirection::FromBottom
            },
        }
    }

    /// The new gravity of a sticky entity, and whether it leans off a ledge.
    pub open spec fn spec_next_gravity(
        gravity: CollisionDirection,
        vertical: Option<CollisionSideOfBlock>,
        horizontal: Option<CollisionSideOfBlock>,
        current_points: i32,
        prev_points: i32,
        motion: MotionSigns,
    ) -> (CollisionDirection, bool) {
        let g = Self::gravity_after_contact(gravity, vertical, horizontal);
        let lean = Self::leans_off_ledge(current_points, prev_points);
        if lean && Self::follows_gravity(g, motion) {
            (Self::gravity_around_edge(g, motion), lean)
        } else {
            (g, lean)
        }
    }

    /// The new gravity of a sticky entity from the sides it touched this frame,
    /// its points of contact this frame and the previous one, and the signs of
    /// its velocity; also whether it leans off a ledge.
    pub fn next_gravity(
        gravity: CollisionDirection,
        vertical: Option<CollisionSideOfBlock>,
        horizontal: Option<CollisionSideOfBlock>,
        current_points: i32,
        prev_points: i32,
        motion: MotionSigns,
    ) -> (r: (CollisionDirection, bool))
        ensures
            r == Self::spec_next_gravity(gravity, vertical, horizontal, current_points, prev_points, motion),
    {
        let new_gravity = match gravity.is_horizontal() {
            true => match vertical {
                Some(side) => match side {
                    CollisionSideOfBlock::Top => CollisionDirection::FromTop,
                    CollisionSideOfBlock::Bottom => CollisionDirection::FromBottom,
                    _ => gravity,
                },
                None => gravity,
            },
            false => match horizontal {
                Some(side) => match side {
                    CollisionSideOfBlock::Right => CollisionDirection::FromRight,
                    CollisionSideOfBlock::Left => CollisionDirection::FromLeft,
                    _ => gravity,
                },
                None => gravity,
            },
        };
        let lean_off_ledge = current_points == 0 && prev_points == 1;
        let is_following_gravity = match new_gravity {
            CollisionDirection::FromTop => motion.down,
            CollisionDirection::FromBottom => motion.up,
            CollisionDirection::FromLeft => motion.right,
            CollisionDirection::FromRight => motion.left,
        };
        if lean_off_ledge && is_following_gravity {
            let turned = match new_gravity {
                CollisionDirection::FromTop | CollisionDirection::FromBottom => {
                    if motion.right {
                        CollisionDirection::FromRight
                    } else {
                        CollisionDirection::FromLeft
                    }
                },
                CollisionDirection::FromLeft | CollisionDirection::FromRight => {
                    if motion.up {
                        CollisionDirection::FromTop
                    } else {
                        CollisionDirection::FromBottom
                    }
                },
            };
            (turned, lean_off_ledge)
        } else {
            (new_gravity, lean_off_ledge)
        }
    }
}

/// Without a contact across its gravity and without leaning off a ledge, a
/// sticky entity keeps its gravity.
pub proof fn lemma_sticky_gravity_kept(
    gravity: CollisionDirection,
    vertical: Option<CollisionSideOfBlock>,
    horizontal: Option<CollisionSideOfBlock>,
    current_points: i32,
    prev_points: i32,
    motion: MotionSigns,
)
    requires
        gravity.spec_is_horizontal() ==> vertical.is_none(),
        !gravity.spec_is_horizontal() ==> horizontal.is_none(),
        !ApplyStickySystem::leans_off_ledge(current_points, prev_points),
    ensures
        ApplyStickySystem::spec_next_gravity(gravity, vertical, horizontal, current_points, prev_points, motion).0
            == gravity,
{
}

/// A sticky entity that touches a side across its gravity, without leaning
/// off a ledge, gets the gravity that pushes it onto that side.
pub proof fn lemma_sticky_gravity_turns_to_contact(
    gravity: CollisionDirection,
    vertical: Option<CollisionSideOfBlock>,
    horizontal: Option<CollisionSideOfBlock>,
    current_points: i32,
    prev_points: i32,
    motion: MotionSigns,
)
    requires
        !ApplyStickySystem::leans_off_ledge(current_points, prev_points),
    ensures
        ({
            let g = ApplyStickySystem::spec_next_gravity(gravity, vertical, horizontal, current_points, prev_points, motion).0;
            &&& gravity.spec_is_horizontal() && vertical.is_some() && vertical.unwrap().spec_is_vertical()
                ==> g.side() == vertical.unwrap()
            &&& !gravity.spec_is_horizontal() && horizontal.is_some() && horizontal.unwrap().spec_is_horizontal()
                ==> g.side() == horizontal.unwrap()
        }),
{
}

/// Walking off a ledge the way gravity pulls turns gravity a quarter turn:
/// from sideways to up/down or from up/down to sideways.
pub proof fn lemma_sticky_gravity_turns_around_edge(
    gravity: CollisionDirection,
    vertical: Option<CollisionSideOfBlock>,
    horizontal: Option<CollisionSideOfBlock>,
    current_points: i32,
    prev_points: i32,
    motion: MotionSigns,
)
    requires
        ApplyStickySystem::leans_off_ledge(current_points, prev_points),
        ApplyStickySystem::follows_gravity(ApplyStickySystem::gravity_after_contact(gravity, vertical, horizontal), motion),
    ensures
        ApplyStickySystem::spec_next_gravity(gravity, vertical, horizontal, current_points, prev_points, motion).0.spec_is_horizontal()
            != ApplyStickySystem::gravity_after_contact(gravity, vertical, horizontal).spec_is_horizontal(),
{
}

/// An entity leans off a ledge exactly when it has no point of contact this
/// frame and had one the frame before. Without a new contact, its gravity stays
/// as it is unless it leans off a ledge while moving the way the gravity pulls.
pub proof fn lemma_sticky_gravity_without_contact(
    gravity: CollisionDirection,
    current_points: i32,
    prev_points: i32,
    motion: MotionSigns,
)
    ensures
        ({
            let r = ApplyStickySystem::spec_next_gravity(gravity, None, None, current_points, prev_points, motion);
            let moves_with_gravity = match gravity {
                CollisionDirection::FromTop => motion.down,
                CollisionDirection::FromBottom => motion.up,
                CollisionDirection::FromLeft => motion.right,
                CollisionDirection::FromRight => motion.left,
            };
            &&& r.1 == (current_points == 0 && prev_points == 1)
            &&& !(r.1 && moves_with_gravity) ==> r.0 == gravity
            &&& r.1 && moves_with_gravity ==> r.0 != gravity
        }),
{
}

/// Rounding the edge of a platform: an entity that loses its only contact
/// while moving the way its gravity pulls, with no new contact, turns to the
/// face beyond the edge it moves towards. Under sideways gravity that is the
/// top face when it moves up and the bottom face otherwise; under up or down
/// gravity it is the right face when it moves right and the left face
/// otherwise. Either way the entity reports that it leans off the ledge.
pub proof fn lemma_sticky_gravity_rounds_the_edge_it_moves_towards(
    gravity: CollisionDirection,
    motion: MotionSigns,
)
    requires
        gravity == CollisionDirection::FromLeft ==> motion.right,
        gravity == CollisionDirection::FromRight ==> motion.left,
        gravity == CollisionDirection::FromTop ==> motion.down,
        gravity == CollisionDirection::FromBottom ==> motion.up,
    ensures
        ({
            let r = ApplyStickySystem::spec_next_gravity(gravity, None, None, 0, 1, motion);
            &&& r.1
            &&& (gravity == CollisionDirection::FromLeft || gravity == CollisionDirection::FromRight) ==> r.0 == (
            if motion.up {
                CollisionDirection::FromTop
            } else {
                CollisionDirection::FromBottom
            })
            &&& (gravity == CollisionDirection::FromTop || gravity == CollisionDirection::FromBottom) ==> r.0 == (
            if motion.right {
                CollisionDirection::FromRight
            } else {
                CollisionDirection::FromLeft
            })
        }),
{
}

/// What the collision rules read of an entity that has collision points.
#[derive(Clone, Copy, Debug, PartialEq, Eq, Structural)]
pub struct Actor {
    pub id: u32,
    pub team: Option<Team>,
    /// Damage it deals on contact, if any.
    pub damage: Option<u32>,
    /// It reflects projectiles.
    pub reflects: bool,
    /// It blocks projectiles.
    pub blocks: bool,
    /// It is a projectile.
    pub projectile: bool,
}

/// Id that stands for "no blocked projectile" in the set of blocked ids.
pub const NOT_A_BLOCK: u32 = 999999999;

/// Finds the actors that touch and turns each touch into collision events.
pub struct ActorCollisionSystem;

impl ActorCollisionSystem {
    /// Two teams fight each other: neither is neutral, and they are not both
    /// good or both bad.
    pub open spec fn hostile(t1: Team, t2: Team) -> bool {
        match (t1, t2) {
            (Team::GoodGuys, Team::GoodGuys) => false,
            (Team::BadGuys, Team::BadGuys) => false,
            (Team::Neutral, _) => false,
            (_, Team::Neutral) => false,
            _ => true,
        }
    }

    /// The events of `a1` touching `a2`, when both have hostile teams: `a2` is
    /// hit by `a1`'s damage, and a projectile `a2` is reflected (to `a1`'s team)
    /// or blocked by `a1`.
    pub open spec fn spec_pair_events(a1: Actor, a2: Actor) -> Seq<CollisionEvent> {
        if a1.team.is_some() && a2.team.is_some() && Self::hostile(a1.team.unwrap(), a2.team.unwrap()) {
            (if a1.damage.is_some() {
                seq![CollisionEvent::EnemyCollision(a2.id, a1.id, a1.damage.unwrap())]
            } else {
                Seq::empty()
            }) + (if a1.reflects && a2.projectile {
                seq![CollisionEvent::ProjectileReflection(a2.id, a1.team.unwrap())]
            } else {
                Seq::empty()
            }) + (if a1.blocks && a2.projectile {
                seq![CollisionEvent::ProjectileBlock(a2.id)]
            } else {
                Seq::empty()
            })
        } else {
            Seq::empty()
        }
    }

    /// The events of the touching ordered pairs, in order; an actor does not touch itself.
    pub open spec fn raw_events(actors: Seq<Actor>, touching: Seq<(usize, usize)>) -> Seq<CollisionEvent>
        decreases touching.len(),
    {
        if touching.len() == 0 {
            Seq::empty()
        } else {
            let p = touching.last();
            Self::raw_events(actors, touching.drop_last()) + if p.0 == p.1 {
                Seq::empty()
            } else {
                Self::spec_pair_events(actors[p.0 as int], actors[p.1 as int])
            }
        }
    }

    /// The id an event adds to the set of blocked ids.
    pub open spec fn spec_block_key(e: CollisionEvent) -> u32 {
        match e {
            CollisionEvent::ProjectileBlock(id) => id,
            _ => NOT_A_BLOCK,
        }
    }

    /// `id` is in the set of blocked ids of `events`.
    pub open spec fn blocked(events: Seq<CollisionEvent>, id: u32) -> bool {
        exists|k: int| 0 <= k < events.len() && Self::spec_block_key(#[trigger] events[k]) == id
    }

    /// An event is sent unless it is a hit by a blocked projectile.
    pub open spec fn kept(events: Seq<CollisionEvent>, e: CollisionEvent) -> bool {
        match e {
            CollisionEvent::EnemyCollision(_, hitter, _) => !Self::blocked(events, hitter),
            _ => true,
        }
    }

    /// The events sent for the touching pairs.
    pub open spec fn spec_collision_events(actors: Seq<Actor>, touching: Seq<(usize, usize)>) -> Seq<CollisionEvent> {
        let raw = Self::raw_events(actors, touching);
        raw.filter(|e: CollisionEvent| Self::kept(raw, e))
    }

    /// The events of `a1` touching `a2`.
    pub fn pair_events(a1: &Actor, a2: &Actor) -> (r: Vec<CollisionEvent>)
        ensures
            r@ == Self::spec_pair_events(*a1, *a2),
    {
        let mut result = Vec::new();
        if let (Some(team1), Some(team2)) = (a1.team, a2.team) {
            let hostile = match (team1, team2) {
                (Team::GoodGuys, Team::GoodGuys) => false,
                (Team::BadGuys, Team::BadGuys) => false,
                (Team::Neutral, _) => false,
                (_, Team::Neutral) => false,
                _ => true,
            };
            if hostile {
                if let Some(damage) = a1.damage {
                    result.push(CollisionEvent::EnemyCollision(a2.id, a1.id, damage));
                }
                if a1.reflects && a2.projectile {
                    result.push(CollisionEvent::ProjectileReflection(a2.id, team1));
                }
                if a1.blocks && a2.projectile {
                    result.push(CollisionEvent::ProjectileBlock(a2.id));
                }
            }
        }
        proof {
            assert(result@ =~= Self::spec_pair_events(*a1, *a2));
        }
        result
    }

    /// The id an event adds to the set of blocked ids.
    pub fn block_key(e: &CollisionEvent) -> (r: u32)
        ensures
            r == Self::spec_block_key(*e),
    {
        match e {
            CollisionEvent::ProjectileBlock(id) => *id,
            _ => NOT_A_BLOCK,
        }
    }

    /// The collision events for the ordered pairs of actors (by index) whose
    /// shapes overlap, in the order the pairs are given: every event of every
    /// pair, except hits dealt by a projectile that one of the pairs blocks.
    pub fn collision_events(actors: &Vec<Actor>, touching: &Vec<(usize, usize)>) -> (r: Vec<CollisionEvent>)
        requires
            forall|k: int| 0 <= k < touching.len() ==> (#[trigger] touching@[k]).0 < actors.len()
                && touching@[k].1 < actors.len(),
        ensures
            r@ == Self::spec_collision_events(actors@, touching@),
    {
        // Every event of every touching pair.
        let mut raw: Vec<CollisionEvent> = Vec::new();
        let mut i: usize = 0;
        while i < touching.len()
            invariant
                i <= touching.len(),
                forall|k: int| 0 <= k < touching.len() ==> (#[trigger] touching@[k]).0 < actors.len()
                    && touching@[k].1 < actors.len(),
                raw@ == Self::raw_events(actors@, touching@.take(i as int)),
            decreases touching.len() - i,
        {
            proof {
                assert(touching@.take(i + 1).drop_last() =~= touching@.take(i as int));
                assert(touching@.take(i + 1).last() == touching@[i as int]);
            }
            let (first, second) = touching[i];
            if first != second {
                let events = Self::pair_events(&actors[first], &actors[second]);
                let ghost before = raw@;
                let mut j: usize = 0;
                while j < events.len()
                    invariant
                        j <= events.len(),
                        raw@ == before + events@.take(j as int),
                    decreases events.len() - j,
                {
                    raw.push(events[j].copied());
                    proof {
                        assert(events@.take(j + 1) =~= events@.take(j as int).push(events@[j as int]));
                    }
                    j = j + 1;
                }
                proof {
                    assert(events@.take(events.len() as int) =~= events@);
                }
            } else {
                proof {
                    assert(raw@ =~= raw@ + Seq::<CollisionEvent>::empty());
                }
            }
            i = i + 1;
        }
        proof {
            assert(touching@.take(touching.len() as int) =~= touching@);
        }

        // The set of blocked ids.
        let mut block_ids: Vec<u32> = Vec::new();
        let mut k: usize = 0;
        while k < raw.len()
            invariant
                k <= raw.len(),
                block_ids.len() == k,
                forall|m: int| 0 <= m < k ==> block_ids@[m] == Self::spec_block_key(#[trigger] raw@[m]),
            decreases raw.len() - k,
        {
            block_ids.push(Self::block_key(&raw[k]));
            k = k + 1;
        }

        // Drop the hits of blocked projectiles.
        let ghost pred = |e: CollisionEvent| Self::kept(raw@, e);
        let mut result: Vec<CollisionEvent> = Vec::new();
        let mut k: usize = 0;
        while k < raw.len()
            invariant
                k <= raw.len(),
                block_ids.len() == raw.len(),
                forall|m: int| 0 <= m < raw.len() ==> block_ids@[m] == Self::spec_block_key(#[trigger] raw@[m]),
                pred == (|e: CollisionEvent| Self::kept(raw@, e)),
                result@ == raw@.take(k as int).filter(pred),
            decreases raw.len() - k,
        {
            proof {
                assert(raw@.take(k + 1).drop_last() =~= raw@.take(k as int));
                assert(raw@.take(k + 1).last() == raw@[k as int]);
                reveal_with_fuel(Seq::<_>::filter, 1);
            }
            let keep = match &raw[k] {
                CollisionEvent::EnemyCollision(_, hitter, _) => {
                    let mut found = false;
                    let mut m: usize = 0;
                    while m < block_ids.len()
                        invariant
                            m <= block_ids.len(),
                            block_ids.len() == raw.len(),
                            forall|q: int| 0 <= q < raw.len() ==> block_ids@[q] == Self::spec_block_key(#[trigger] raw@[q]),
                            found == exists|q: int| 0 <= q < m && block_ids@[q] == *hitter,
                        decreases block_ids.len() - m,
                    {
                        if block_ids[m] == *hitter {
                            found = true;
                        }
                        m = m + 1;
                    }
                    proof {
                        if found {
                            let q = choose|q: int| 0 <= q < block_ids.len() && block_ids@[q] == *hitter;
                            assert(Self::spec_block_key(raw@[q]) == *hitter);
                        }
                        if Self::blocked(raw@, *hitter) {
                            let q = choose|q: int| 0 <= q < raw.len() && Self::spec_block_key(#[trigger] raw@[q]) == *hitter;
                            assert(block_ids@[q] == *hitter);
                        }
                    }
                    !found
                },
                _ => true,
            };
            if keep {
                result.push(raw[k].copied());
            }
            k = k + 1;
        }
        proof {
            assert(raw@.take(raw.len() as int) =~= raw@);
        }
        result
    }
}

/// Actors without a team, neutral actors, and actors of the same good or bad
/// team cause no events when they touch.
pub proof fn lemma_friendly_actors_cause_nothing(a1: Actor, a2: Actor)
    requires
        a1.team.is_none() || a2.team.is_none() || a1.team == Some(Team::Neutral) || a2.team == Some(Team::Neutral)
            || (a1.team == Some(Team::GoodGuys) && a2.team == Some(Team::GoodGuys))
            || (a1.team == Some(Team::BadGuys) && a2.team == Some(Team::BadGuys)),
    ensures
        ActorCollisionSystem::spec_pair_events(a1, a2) == Seq::<CollisionEvent>::empty(),
{
}

/// Every event a hostile touch calls for is raised: `a2` is hit when `a1`
/// deals damage, reflected when `a1` reflects and `a2` is a projectile, and
/// blocked when `a1` blocks and `a2` is a projectile. Teams are hostile unless
/// one is missing or neutral, or both are the good or both the bad guys (an
/// individual team fights everyone else); a touch that is not hostile raises
/// nothing.
pub proof fn lemma_hostile_touch_raises_its_events(a1: Actor, a2: Actor)
    ensures
        ({
            let events = ActorCollisionSystem::spec_pair_events(a1, a2);
            let hostile = a1.team.is_some() && a2.team.is_some() && a1.team != Some(Team::Neutral) && a2.team
                != Some(Team::Neutral) && !(a1.team == Some(Team::GoodGuys) && a2.team == Some(Team::GoodGuys))
                && !(a1.team == Some(Team::BadGuys) && a2.team == Some(Team::BadGuys));
            &&& !hostile ==> events.len() == 0
            &&& hostile && a1.damage.is_some() ==> events.contains(
                CollisionEvent::EnemyCollision(a2.id, a1.id, a1.damage.unwrap()),
            )
            &&& hostile && a1.reflects && a2.projectile ==> events.contains(
                CollisionEvent::ProjectileReflection(a2.id, a1.team.unwrap()),
            )
            &&& hostile && a1.blocks && a2.projectile ==> events.contains(CollisionEvent::ProjectileBlock(a2.id))
            &&& hostile ==> events.len() == (if a1.damage.is_some() { 1int } else { 0int }) + (if a1.reflects
                && a2.projectile {
                1int
            } else {
                0int
            }) + (if a1.blocks && a2.projectile {
                1int
            } else {
                0int
            })
        }),
{
    let events = ActorCollisionSystem::spec_pair_events(a1, a2);
    let hit: Seq<CollisionEvent> = if a1.damage.is_some() {
        seq![CollisionEvent::EnemyCollision(a2.id, a1.id, a1.damage.unwrap())]
    } else {
        Seq::empty()
    };
    let reflect: Seq<CollisionEvent> = if a1.reflects && a2.projectile {
        seq![CollisionEvent::ProjectileReflection(a2.id, a1.team.unwrap())]
    } else {
        Seq::empty()
    };
    let block: Seq<CollisionEvent> = if a1.blocks && a2.projectile {
        seq![CollisionEvent::ProjectileBlock(a2.id)]
    } else {
        Seq::empty()
    };
    if a1.team.is_some() && a2.team.is_some() && ActorCollisionSystem::hostile(a1.team.unwrap(), a2.team.unwrap()) {
        assert(events == hit + reflect + block);
        if a1.damage.is_some() {
            assert(events[0] == hit[0]);
        }
        if a1.reflects && a2.projectile {
            assert(events[hit.len() as int] == reflect[0]);
        }
        if a1.blocks && a2.projectile {
            assert(events[(hit.len() + reflect.len()) as int] == block[0]);
        }
    }
}

/// What a touch between two actors can raise: at most one hit, one reflection
/// and one block. The hit lands on `a2`, dealt by `a1` with `a1`'s damage; only
/// a projectile `a2` is ever reflected (by a reflecting `a1`, to `a1`'s team) or
/// blocked (by a blocking `a1`), so a touch on an actor that is not a
/// projectile raises at most the hit.
pub proof fn lemma_only_projectiles_are_reflected_or_blocked(a1: Actor, a2: Actor)
    ensures
        ({
            let events = ActorCollisionSystem::spec_pair_events(a1, a2);
            &&& events.len() <= 3
            &&& !a2.projectile ==> events.len() <= 1
            &&& forall|k: int|
                0 <= k < events.len() ==> match #[trigger] events[k] {
                    CollisionEvent::EnemyCollision(hit, hitter, damage) => hit == a2.id && hitter == a1.id
                        && a1.damage == Some(damage),
                    CollisionEvent::ProjectileReflection(id, team) => id == a2.id && a2.projectile && a1.reflects
                        && a1.team == Some(team),
                    CollisionEvent::ProjectileBlock(id) => id == a2.id && a2.projectile && a1.blocks,
                    _ => false,
                }
        }),
{
    let events = ActorCollisionSystem::spec_pair_events(a1, a2);
    assert forall|k: int| 0 <= k < events.len() implies match #[trigger] events[k] {
        CollisionEvent::EnemyCollision(hit, hitter, damage) => hit == a2.id && hitter == a1.id
            && a1.damage == Some(damage),
        CollisionEvent::ProjectileReflection(id, team) => id == a2.id && a2.projectile && a1.reflects
            && a1.team == Some(team),
        CollisionEvent::ProjectileBlock(id) => id == a2.id && a2.projectile && a1.blocks,
        _ => false,
    } by {
        let hit: Seq<CollisionEvent> = if a1.damage.is_some() {
            seq![CollisionEvent::EnemyCollision(a2.id, a1.id, a1.damage.unwrap())]
        } else {
            Seq::empty()
        };
        let reflect: Seq<CollisionEvent> = if a1.reflects && a2.projectile {
            seq![CollisionEvent::ProjectileReflection(a2.id, a1.team.unwrap())]
        } else {
            Seq::empty()
        };
        let block: Seq<CollisionEvent> = if a1.blocks && a2.projectile {
            seq![CollisionEvent::ProjectileBlock(a2.id)]
        } else {
            Seq::empty()
        };
        assert(events == hit + reflect + block);
        if k < hit.len() {
            assert(events[k] == hit[k]);
        } else if k < hit.len() + reflect.len() {
            assert(events[k] == reflect[k - hit.len()]);
        } else {
            assert(events[k] == block[k - hit.len() - reflect.len()]);
        }
    }
}

/// No hit dealt by a projectile that is blocked is sent, and every other event
/// of the touching pairs is: reflections and blocks always go out.
pub proof fn lemma_blocked_projectiles_deal_no_hits(actors: Seq<Actor>, touching: Seq<(usize, usize)>)
    ensures
        forall|k: int|
            0 <= k < ActorCollisionSystem::spec_collision_events(actors, touching).len()
                ==> ActorCollisionSystem::kept(
                ActorCollisionSystem::raw_events(actors, touching),
                #[trigger] ActorCollisionSystem::spec_collision_events(actors, touching)[k],
            ),
        forall|k: int|
            0 <= k < ActorCollisionSystem::raw_events(actors, touching).len() && ActorCollisionSystem::kept(
                ActorCollisionSystem::raw_events(actors, touching),
                #[trigger] ActorCollisionSystem::raw_events(actors, touching)[k],
            ) ==> ActorCollisionSystem::spec_collision_events(actors, touching).contains(
                ActorCollisionSystem::raw_events(actors, touching)[k],
            ),
{
    let raw = ActorCollisionSystem::raw_events(actors, touching);
    let pred = |e: CollisionEvent| ActorCollisionSystem::kept(raw, e);
    assert forall|k: int| 0 <= k < raw.filter(pred).len() implies ActorCollisionSystem::kept(
        raw,
        #[trigger] raw.filter(pred)[k],
    ) by {
        raw.lemma_filter_pred(pred, k);
    }
    assert forall|k: int| 0 <= k < raw.len() && ActorCollisionSystem::kept(raw, #[trigger] raw[k]) implies raw.filter(
        pred,
    ).contains(raw[k]) by {
        raw.lemma_filter_contains(pred, k);
    }
}

/// Mask of the sign bit of an `f32` bit pattern.
pub const SIGN_BIT: u32 = 0x8000_0000;

/// The bit pattern of the negated `f32`: negation flips the sign bit.
pub open spec fn neg_bits(b: u32) -> u32 {
    b ^ SIGN_BIT
}

/// Negates an `f32` given by its bit pattern.
pub fn negate(b: u32) -> (r: u32)
    ensures
        r == neg_bits(b),
{
    b ^ SIGN_BIT
}

/// Negating twice gives the value back.
pub proof fn lemma_negate_twice(b: u32)
    ensures
        neg_bits(neg_bits(b)) == b,
{
    assert((b ^ 0x8000_0000u32) ^ 0x8000_0000u32 == b) by (bit_vector);
}

/// A velocity seen from the entity's gravity: turned so that gravity pulls down.
pub open spec fn spec_adapted(vel: Vec2Bits, gravity: CollisionDirection) -> Vec2Bits {
    match gravity {
        CollisionDirection::FromLeft => Vec2Bits { x: neg_bits(vel.y), y: vel.x },
        CollisionDirection::FromRight => Vec2Bits { x: vel.y, y: neg_bits(vel.x) },
        CollisionDirection::FromTop => vel,
        CollisionDirection::FromBottom => Vec2Bits { x: neg_bits(vel.x), y: neg_bits(vel.y) },
    }
}

/// A velocity seen from the entity's gravity turned back to world axes.
pub open spec fn spec_de_adapted(vel: Vec2Bits, gravity: CollisionDirection) -> Vec2Bits {
    match gravity {
        CollisionDirection::FromLeft => Vec2Bits { x: vel.y, y: neg_bits(vel.x) },
        CollisionDirection::FromRight => Vec2Bits { x: neg_bits(vel.y), y: vel.x },
        CollisionDirection::FromTop => vel,
        CollisionDirection::FromBottom => Vec2Bits { x: neg_bits(vel.x), y: neg_bits(vel.y) },
    }
}

/// Turns a velocity (components as `f32` bit patterns) to the frame of the gravity.
pub fn gravitationally_adapted_velocity(vel: &Vec2Bits, gravity: &GravityDirection) -> (r: Vec2Bits)
    ensures
        r == spec_adapted(*vel, gravity.0),
{
    match gravity.0 {
        CollisionDirection::FromLeft => Vec2Bits { x: negate(vel.y), y: vel.x },
        CollisionDirection::FromRight => Vec2Bits { x: vel.y, y: negate(vel.x) },
        CollisionDirection::FromTop => Vec2Bits { x: vel.x, y: vel.y },
        CollisionDirection::FromBottom => Vec2Bits { x: negate(vel.x), y: negate(vel.y) },
    }
}

/// Turns a velocity in the frame of the gravity back to world axes.
pub fn gravitationally_de_adapted_velocity(vel: &Vec2Bits, gravity: &GravityDirection) -> (r: Vec2Bits)
    ensures
        r == spec_de_adapted(*vel, gravity.0),
{
    match gravity.0 {
        CollisionDirection::FromLeft => Vec2Bits { x: vel.y, y: negate(vel.x) },
        CollisionDirection::FromRight => Vec2Bits { x: negate(vel.y), y: vel.x },
        CollisionDirection::FromTop => Vec2Bits { x: vel.x, y: vel.y },
        CollisionDirection::FromBottom => Vec2Bits { x: negate(vel.x), y: negate(vel.y) },
    }
}

/// Turning a velocity to the frame of a gravity and back gives it back, and so
/// does turning it back first.
pub proof fn lemma_adaptation_round_trip(vel: Vec2Bits, gravity: CollisionDirection)
    ensures
        spec_de_adapted(spec_adapted(vel, gravity), gravity) == vel,
        spec_adapted(spec_de_adapted(vel, gravity), gravity) == vel,
{
    lemma_negate_twice(vel.x);
    lemma_negate_twice(vel.y);
}

/// Bit pattern of the `f32` value `0.0`.
pub const POSITIVE_ZERO: u32 = 0;

/// The velocity of a sticky entity whose gravity turned from `prev_gravity` to
/// `cur_gravity`: the speed along the old surface carries over to the new one,
/// the other component is zero; other turns keep the velocity.
pub open spec fn spec_adapt_sticky(vel: Vec2Bits, prev_gravity: CollisionDirection, cur_gravity: CollisionDirection) -> Vec2Bits {
    match (prev_gravity, cur_gravity) {
        (CollisionDirection::FromRight, CollisionDirection::FromTop) => Vec2Bits { x: neg_bits(vel.y), y: POSITIVE_ZERO },
        (CollisionDirection::FromRight, CollisionDirection::FromBottom) => Vec2Bits { x: vel.y, y: POSITIVE_ZERO },
        (CollisionDirection::FromLeft, CollisionDirection::FromTop) => Vec2Bits { x: vel.y, y: POSITIVE_ZERO },
        (CollisionDirection::FromLeft, CollisionDirection::FromBottom) => Vec2Bits { x: neg_bits(vel.y), y: POSITIVE_ZERO },
        (CollisionDirection::FromTop, CollisionDirection::FromRight) => Vec2Bits { x: POSITIVE_ZERO, y: neg_bits(vel.x) },
        (CollisionDirection::FromTop, CollisionDirection::FromLeft) => Vec2Bits { x: POSITIVE_ZERO, y: vel.x },
        (CollisionDirection::FromBottom, CollisionDirection::FromRight) => Vec2Bits { x: POSITIVE_ZERO, y: vel.x },
        (CollisionDirection::FromBottom, CollisionDirection::FromLeft) => Vec2Bits { x: POSITIVE_ZERO, y: neg_bits(vel.x) },
        _ => vel,
    }
}

/// The velocity of a sticky entity after its gravity turned.
pub fn adapt_sticky_velocity(vel: &Vec2Bits, prev_gravity: &CollisionDirection, cur_gravity: &CollisionDirection) -> (r: Vec2Bits)
    ensures
        r == spec_adapt_sticky(*vel, *prev_gravity, *cur_gravity),
{
    match prev_gravity {
        CollisionDirection::FromRight => match cur_gravity {
            CollisionDirection::FromTop => Vec2Bits { x: negate(vel.y), y: POSITIVE_ZERO },
            CollisionDirection::FromBottom => Vec2Bits { x: vel.y, y: POSITIVE_ZERO },
            _ => *vel,
        },
        CollisionDirection::FromLeft => match cur_gravity {
            CollisionDirection::FromTop => Vec2Bits { x: vel.y, y: POSITIVE_ZERO },
            CollisionDirection::FromBottom => Vec2Bits { x: negate(vel.y), y: POSITIVE_ZERO },
            _ => *vel,
        },
        CollisionDirection::FromTop => match cur_gravity {
            CollisionDirection::FromRight => Vec2Bits { x: POSITIVE_ZERO, y: negate(vel.x) },
            CollisionDirection::FromLeft => Vec2Bits { x: POSITIVE_ZERO, y: vel.x },
            _ => *vel,
        },
        CollisionDirection::FromBottom => match cur_gravity {
            CollisionDirection::FromRight => Vec2Bits { x: POSITIVE_ZERO, y: vel.x },
            CollisionDirection::FromLeft => Vec2Bits { x: POSITIVE_ZERO, y: negate(vel.x) },
            _ => *vel,
        },
    }
}

/// The `f32` with this bit pattern is greater than zero.
pub open spec fn is_positive(b: u32) -> bool {
    b & SIGN_BIT == 0 && b & MAGNITUDE_MASK != 0 && b & MAGNITUDE_MASK <= INFINITY_BITS
}

/// The `f32` with this bit pattern is less than zero.
pub open spec fn is_negative(b: u32) -> bool {
    b & SIGN_BIT != 0 && b & MAGNITUDE_MASK != 0 && b & MAGNITUDE_MASK <= INFINITY_BITS
}

/// The `f32` with this bit pattern equals zero (of either sign).
pub open spec fn is_zero(b: u32) -> bool {
    b & MAGNITUDE_MASK == 0
}

/// The signs of a velocity given as `f32` bit patterns.
pub open spec fn motion_of(vel: Vec2Bits) -> MotionSigns {
    MotionSigns {
        right: is_positive(vel.x),
        left: is_negative(vel.x),
        up: is_positive(vel.y),
        down: is_negative(vel.y),
    }
}

/// The signs of a velocity given as `f32` bit patterns.
pub fn motion_signs(vel: &Vec2Bits) -> (r: MotionSigns)
    ensures
        r == motion_of(*vel),
{
    let mx = vel.x & MAGNITUDE_MASK;
    let my = vel.y & MAGNITUDE_MASK;
    MotionSigns {
        right: vel.x & SIGN_BIT == 0 && mx != 0 && mx <= INFINITY_BITS,
        left: vel.x & SIGN_BIT != 0 && mx != 0 && mx <= INFINITY_BITS,
        up: vel.y & SIGN_BIT == 0 && my != 0 && my <= INFINITY_BITS,
        down: vel.y & SIGN_BIT != 0 && my != 0 && my <= INFINITY_BITS,
    }
}

/// Bit pattern of the `f32` value `32.0`, a quarter of a tile: the speed with
/// which a sticky entity rounds the edge of a platform.
pub const EDGE_SPEED_BITS: u32 = 0x4200_0000;

impl ApplyCollisionSystem {
    /// The velocity after this frame's collisions: on each axis where a
    /// collision was found it becomes that collision's correction.
    pub open spec fn spec_velocity_after(velocity: Vec2Bits, collidee: Collidee) -> Vec2Bits {
        Vec2Bits {
            x: match collidee.horizontal {
                Some(d) => d.correction,
                None => velocity.x,
            },
            y: match collidee.vertical {
                Some(d) => d.correction,
                None => velocity.y,
            },
        }
    }

    /// Applies this frame's collisions: the velocity takes the corrections, and
    /// the result says whether the entity is grounded.
    pub fn apply(velocity: &mut Vec2Bits, collidee: &Collidee, gravity: Option<GravityDirection>) -> (grounded: bool)
        ensures
            *final(velocity) == Self::spec_velocity_after(*old(velocity), *collidee),
            grounded == Self::spec_grounded(
                match collidee.vertical {
                    Some(d) => Some(d.side),
                    None => None,
                },
                match collidee.horizontal {
                    Some(d) => Some(d.side),
                    None => None,
                },
                match gravity {
                    Some(g) => Some(g.0),
                    None => None,
                },
            ),
    {
        let vertical = match &collidee.vertical {
            Some(d) => {
                velocity.y = d.correction;
                Some(d.side)
            },
            None => None,
        };
        let horizontal = match &collidee.horizontal {
            Some(d) => {
                velocity.x = d.correction;
                Some(d.side)
            },
            None => None,
        };
        let grav = match gravity {
            Some(g) => Some(g.0),
            None => None,
        };
        Self::grounded(vertical, horizontal, grav)
    }
}

impl ApplyStickySystem {
    /// The velocity the contact across the gravity had, or the entity's own.
    pub open spec fn contact_velocity(velocity: Vec2Bits, collidee: Collidee, gravity: CollisionDirection) -> Vec2Bits {
        if gravity.spec_is_horizontal() {
            match collidee.vertical {
                Some(d) => d.old_collider_vel,
                None => velocity,
            }
        } else {
            match collidee.horizontal {
                Some(d) => d.old_collider_vel,
                None => velocity,
            }
        }
    }

    /// A sticky entity's velocity and gravity after this frame's collisions:
    /// gravity turns as `spec_next_gravity` says, and when it turned the
    /// velocity follows the turn if the contact's velocity was still along one
    /// axis or the entity leans off a ledge, in which case it also gets the
    /// edge speed towards its new gravity.
    pub open spec fn spec_apply(velocity: Vec2Bits, collidee: Collidee, gravity: CollisionDirection) -> (Vec2Bits, CollisionDirection) {
        let vertical = match collidee.vertical {
            Some(d) => Some(d.side),
            None => None,
        };
        let horizontal = match collidee.horizontal {
            Some(d) => Some(d.side),
            None => None,
        };
        let current = points_of(collidee.horizontal) + points_of(collidee.vertical);
        let prev = points_of(collidee.prev_horizontal) + points_of(collidee.prev_vertical);
        let (g, lean) = Self::spec_next_gravity(gravity, vertical, horizontal, current as i32, prev as i32, motion_of(velocity));
        let cv = Self::contact_velocity(velocity, collidee, gravity);
        if g != gravity && (is_zero(cv.x) || is_zero(cv.y) || lean) {
            let adapted = spec_adapt_sticky(cv, gravity, g);
            (if lean {
                match g {
                    CollisionDirection::FromBottom => Vec2Bits { y: EDGE_SPEED_BITS, ..adapted },
                    CollisionDirection::FromTop => Vec2Bits { y: neg_bits(EDGE_SPEED_BITS), ..adapted },
                    CollisionDirection::FromLeft => Vec2Bits { x: EDGE_SPEED_BITS, ..adapted },
                    CollisionDirection::FromRight => Vec2Bits { x: neg_bits(EDGE_SPEED_BITS), ..adapted },
                }
            } else {
                adapted
            }, g)
        } else {
            (velocity, g)
        }
    }

    /// Applies this frame's collisions to a sticky entity's velocity and gravity;
    /// an entity that does not stick is left as it is.
    pub fn apply(velocity: &mut Vec2Bits, sticky: bool, collidee: &Collidee, gravity: &mut GravityDirection)
        requires
            i32::MIN <= points_of(collidee.horizontal) + points_of(collidee.vertical) <= i32::MAX,
            i32::MIN <= points_of(collidee.prev_horizontal) + points_of(collidee.prev_vertical) <= i32::MAX,
        ensures
            !sticky ==> *final(velocity) == *old(velocity) && *final(gravity) == *old(gravity),
            sticky ==> (*final(velocity), final(gravity).0) == Self::spec_apply(*old(velocity), *collidee, old(gravity).0),
    {
        if !sticky {
            return;
        }
        let prev_gravity = gravity.0;
        let collidee_velocity = if prev_gravity.is_horizontal() {
            match &collidee.vertical {
                Some(d) => d.old_collider_vel,
                None => *velocity,
            }
        } else {
            match &collidee.horizontal {
                Some(d) => d.old_collider_vel,
                None => *velocity,
            }
        };
        let vertical = match &collidee.vertical {
            Some(d) => Some(d.side),
            None => None,
        };
        let horizontal = match &collidee.horizontal {
            Some(d) => Some(d.side),
            None => None,
        };
        let current = collidee.current_collision_points();
        let prev = collidee.prev_collision_points();
        let motion = motion_signs(velocity);
        let (new_gravity, lean_off_ledge) = Self::next_gravity(prev_gravity, vertical, horizontal, current, prev, motion);
        gravity.0 = new_gravity;
        if prev_gravity != new_gravity {
            if collidee_velocity.x & MAGNITUDE_MASK == 0 || collidee_velocity.y & MAGNITUDE_MASK == 0 || lean_off_ledge {
                let mut new_velocity = adapt_sticky_velocity(&collidee_velocity, &prev_gravity, &new_gravity);
                if lean_off_ledge {
                    match new_gravity {
                        CollisionDirection::FromBottom => new_velocity.y = EDGE_SPEED_BITS,
                        CollisionDirection::FromTop => new_velocity.y = negate(EDGE_SPEED_BITS),
                        CollisionDirection::FromLeft => new_velocity.x = EDGE_SPEED_BITS,
                        CollisionDirection::FromRight => new_velocity.x = negate(EDGE_SPEED_BITS),
                    }
                }
                *velocity = new_velocity;
            }
        }
    }
}

/// Bit pattern of the `f32` value `0.25`: how far down the vertical axis must
/// be pushed for a player to duck.
pub const DUCK_THRESHOLD_BITS: u32 = 0x3e80_0000;

/// Makes players duck and stand up again.
pub struct DuckTransferSystem;

impl DuckTransferSystem {
    /// The vertical axis (an `f32` bit pattern) is below `-0.25`.
    pub open spec fn spec_pushes_down(axis: u32) -> bool {
        axis & SIGN_BIT != 0 && DUCK_THRESHOLD_BITS < axis & MAGNITUDE_MASK && axis & MAGNITUDE_MASK <= INFINITY_BITS
    }

    /// The vertical axis is at or above `-0.25`; a value that is not a number
    /// is neither.
    pub open spec fn spec_lets_go(axis: u32) -> bool {
        axis & MAGNITUDE_MASK <= INFINITY_BITS && !Self::spec_pushes_down(axis)
    }

    /// A ducking entity stands up once the axis lets go, if standing would
    /// not overlap a block.
    pub fn stands_up(axis: u32, overlaps_block: bool) -> (r: bool)
        ensures
            r == (Self::spec_lets_go(axis) && !overlaps_block),
    {
        let magnitude = axis & MAGNITUDE_MASK;
        let pushes_down = axis & SIGN_BIT != 0 && DUCK_THRESHOLD_BITS < magnitude && magnitude <= INFINITY_BITS;
        magnitude <= INFINITY_BITS && !pushes_down && !overlaps_block
    }

    /// A player on the ground that is not ducking yet ducks while the axis
    /// pushes down.
    pub fn ducks(is_player: bool, grounded: bool, ducking: bool, axis: u32) -> (r: bool)
        ensures
            r == (is_player && grounded && !ducking && Self::spec_pushes_down(axis)),
    {
        let magnitude = axis & MAGNITUDE_MASK;
        is_player && grounded && !ducking && axis & SIGN_BIT != 0 && DUCK_THRESHOLD_BITS < magnitude
            && magnitude <= INFINITY_BITS
    }
}

/// No axis reading both lets a ducking player stand up and makes a player
/// duck: standing up and ducking never happen on the same reading.
pub proof fn lemma_duck_and_stand_exclusive(axis: u32)
    ensures
        !(DuckTransferSystem::spec_lets_go(axis) && DuckTransferSystem::spec_pushes_down(axis)),
{
}

/// Keeps attached entities, such as damage boxes, next to their parent.
pub struct ChildPositionSystem;

impl ChildPositionSystem {
    /// Where a child sits relative to its parent: its offset mirrored
    /// horizontally when the parent last went left, and vertically when the
    /// child blocks and the parent ducks. Mirroring changes the sign, which is
    /// what multiplying by `-1.0` does to every value that is a number.
    pub fn child_offset(offset: &Vec2Bits, going_right: bool, blocking: bool, ducking: bool) -> (r: Vec2Bits)
        ensures
            r.x == (if going_right { offset.x } else { neg_bits(offset.x) }),
            r.y == (if blocking && ducking { neg_bits(offset.y) } else { offset.y }),
    {
        Vec2Bits {
            x: if going_right {
                offset.x
            } else {
                negate(offset.x)
            },
            y: if blocking && ducking {
                negate(offset.y)
            } else {
                offset.y
            },
        }
    }
}

} // verus!
