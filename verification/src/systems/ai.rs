//! The enemies' behaviour: walkers turn around at walls, shooters and
//! attackers act every two seconds.
use vstd::prelude::*;

use crate::components::game::Team;
use crate::components::physics::Collidee;
use crate::events::Events;
use crate::input::INFINITY_BITS;
use crate::systems::physics::{neg_bits, negate, SIGN_BIT};
use crate::utils::{Vec2Bits, TILE_SIZE_BITS};

verus! {

/// Bit pattern of the `f32` value `2.0`: seconds between two shots or attacks.
pub const ACTION_PERIOD_BITS: u32 = 0x4000_0000;

/// Bit pattern of the `f32` value `32.0`: a quarter of a tile's height.
pub const QUARTER_TILE_BITS: u32 = 0x4200_0000;

/// Bit pattern of the `f32` value `128.0 / 1.5`: how far in front of an
/// attacker its damage box starts.
pub const ATTACK_REACH_BITS: u32 = 0x42aa_aaab;

/// The `f32` with bit pattern `b` is greater than the positive, finite `f32`
/// with bit pattern `threshold`.
pub open spec fn exceeds(b: u32, threshold: u32) -> bool {
    b & SIGN_BIT == 0 && threshold < b && b <= INFINITY_BITS
}

/// Whether a counter of seconds (an `f32` bit pattern) has passed the period,
/// so that the enemy acts and the counter starts again.
pub fn period_elapsed(counter: u32) -> (r: bool)
    ensures
        r == exceeds(counter, ACTION_PERIOD_BITS),
{
    counter & SIGN_BIT == 0 && ACTION_PERIOD_BITS < counter && counter <= INFINITY_BITS
}

/// Enemies that walk to and fro.
pub struct BasicWalkAiSystem;

impl BasicWalkAiSystem {
    /// A walker turns around along each axis on which it touched a block:
    /// that component of its orientation changes sign, which is what
    /// multiplying it by `-1.0` does to every value that is a number.
    pub fn turn_around(orientation: &Vec2Bits, collidee: &Collidee) -> (r: Vec2Bits)
        ensures
            r.x == (if collidee.horizontal.is_some() { neg_bits(orientation.x) } else { orientation.x }),
            r.y == (if collidee.vertical.is_some() { neg_bits(orientation.y) } else { orientation.y }),
    {
        let x = if collidee.horizontal.is_some() {
            negate(orientation.x)
        } else {
            orientation.x
        };
        let y = if collidee.vertical.is_some() {
            negate(orientation.y)
        } else {
            orientation.y
        };
        Vec2Bits { x, y }
    }
}

/// `rand::random::<bool>()`: a coin toss from the thread's random number
/// generator. Nothing is stated of the result, which is left to chance. The
/// call panics only when the operating system's random source fails as the
/// thread's generator is first seeded, which no argument can rule out.
#[verifier::external_body]
fn coin_toss() -> (r: bool) {
    rand::random()
}

/// Enemies that shoot ahead of them.
pub struct BasicShootAiSystem;

impl BasicShootAiSystem {
    /// The height at which a shot leaves, above (`up`) or below the shooter's
    /// middle by a quarter tile (an `f32` bit pattern).
    pub fn offset_for(up: bool) -> (r: u32)
        ensures
            r == (if up { QUARTER_TILE_BITS } else { neg_bits(QUARTER_TILE_BITS) }),
    {
        if up {
            QUARTER_TILE_BITS
        } else {
            negate(QUARTER_TILE_BITS)
        }
    }

    /// The height of the next shot above or below the shooter's middle, chosen
    /// by a coin toss.
    pub fn shot_offset() -> (r: u32)
        ensures
            r == QUARTER_TILE_BITS || r == neg_bits(QUARTER_TILE_BITS),
    {
        let up = coin_toss();
        Self::offset_for(up)
    }
}

/// Enemies that strike in front of them.
pub struct BasicAttackAiSystem;

impl BasicAttackAiSystem {
    /// The damage box an attacker puts in front of itself: attached to it, a
    /// tile wide and a quarter tile high, two thirds of a tile ahead and a
    /// quarter tile up, dealing damage for its team.
    pub fn strike(attacker: u32, team: Team) -> (r: Events)
        ensures
            r == Events::CreateDamageBox(
                Some(attacker),
                Vec2Bits { x: ATTACK_REACH_BITS, y: QUARTER_TILE_BITS },
                Vec2Bits { x: TILE_SIZE_BITS, y: QUARTER_TILE_BITS },
                team,
            ),
    {
        Events::CreateDamageBox(
            Some(attacker),
            Vec2Bits { x: ATTACK_REACH_BITS, y: QUARTER_TILE_BITS },
            Vec2Bits { x: TILE_SIZE_BITS, y: QUARTER_TILE_BITS },
            team,
        )
    }
}

} // verus!
