//! How the player's keys steer the player's character.
use vstd::prelude::*;

use crate::input::{INFINITY_BITS, MAGNITUDE_MASK};
use crate::systems::physics::{is_positive, is_zero, SIGN_BIT};
use crate::utils::AxisSign;

verus! {

/// Bit pattern of the `f32` value `0.3`: the share of the horizontal input
/// that becomes speed each frame.
pub const MOVEMENT_BITS: u32 = 0x3e99_999a;

/// Bit pattern of the `f32` value `0.15`: the same share while ducking.
pub const DUCKING_MOVEMENT_BITS: u32 = 0x3e19_999a;

/// Bit pattern of the `f32` value `13.0`: the upward speed a jump adds.
pub const JUMP_VELOCITY_BITS: u32 = 0x4150_0000;

/// The keys read for the player on a frame.
#[derive(Clone, Copy, Debug, PartialEq, Eq, Structural)]
pub struct PlayerKeys {
    /// The jump key is held.
    pub jump: bool,
    /// The jump key was let go this frame.
    pub jump_released: bool,
    /// The slow-motion key is held.
    pub slow_motion: bool,
    /// The attack key was pressed once.
    pub attack: bool,
}

/// What the keys act on in a player's character.
#[derive(Clone, Copy, Debug, PartialEq, Eq, Structural)]
pub struct PlayerBody {
    pub health: u32,
    /// The horizontal input, which becomes the move intent (an `f32` bit pattern).
    pub intent_x: u32,
    /// An attack is already under way.
    pub attacking: bool,
    pub has_orientation: bool,
    pub on_ground: bool,
    pub ducking: bool,
    pub has_gravity: bool,
}

/// What the player's character does on a frame.
#[derive(Clone, Copy, Debug, PartialEq, Eq, Structural)]
pub struct PlayerCommands {
    /// A new attack starts.
    pub start_attack: bool,
    /// The character turns right (`true`) or left, or keeps its orientation.
    pub facing_right: Option<bool>,
    /// Time runs at half speed.
    pub slow_motion: bool,
    /// The character jumps off the ground.
    pub jump: bool,
    /// Share of the horizontal input added to the speed (an `f32` bit pattern).
    pub movement: u32,
    /// On the ground, a bonus proportional to the speed is added (`Positive`),
    /// taken away while ducking (`Negative`); none in the air (`Zero`).
    pub ground_bonus: AxisSign,
    /// The new speed is written back; a character without a gravity
    /// direction keeps its speed.
    pub writes_velocity: bool,
}

/// Steers the characters the player controls.
pub struct PlayerInputSystem;

impl PlayerInputSystem {
    /// What a live character does with the keys: it starts an attack unless
    /// one is under way, turns towards a nonzero horizontal input, jumps only
    /// from the ground, and moves less while ducking.
    pub open spec fn spec_commands(keys: PlayerKeys, body: PlayerBody) -> PlayerCommands {
        PlayerCommands {
            start_attack: keys.attack && !body.attacking,
            facing_right: if !is_zero(body.intent_x) && body.has_orientation {
                Some(is_positive(body.intent_x))
            } else {
                None
            },
            slow_motion: keys.slow_motion,
            jump: keys.jump && body.on_ground,
            movement: if body.ducking {
                DUCKING_MOVEMENT_BITS
            } else {
                MOVEMENT_BITS
            },
            ground_bonus: if !body.on_ground {
                AxisSign::Zero
            } else if body.ducking {
                AxisSign::Negative
            } else {
                AxisSign::Positive
            },
            writes_velocity: body.has_gravity,
        }
    }

    /// What the character does this frame; nothing for a dead one.
    pub fn commands(keys: PlayerKeys, body: PlayerBody) -> (r: Option<PlayerCommands>)
        ensures
            r.is_none() <==> body.health == 0,
            r matches Some(c) ==> c == Self::spec_commands(keys, body),
    {
        if body.health == 0 {
            return None;
        }
        let magnitude = body.intent_x & MAGNITUDE_MASK;
        let facing_right = if magnitude != 0 && body.has_orientation {
            Some(body.intent_x & SIGN_BIT == 0 && magnitude <= INFINITY_BITS)
        } else {
            None
        };
        let ground_bonus = if !body.on_ground {
            AxisSign::Zero
        } else if body.ducking {
            AxisSign::Negative
        } else {
            AxisSign::Positive
        };
        Some(PlayerCommands {
            start_attack: keys.attack && !body.attacking,
            facing_right,
            slow_motion: keys.slow_motion,
            jump: keys.jump && body.on_ground,
            movement: if body.ducking {
                DUCKING_MOVEMENT_BITS
            } else {
                MOVEMENT_BITS
            },
            ground_bonus,
            writes_velocity: body.has_gravity,
        })
    }

}

/// A live character starts an attack exactly when the attack key was pressed
/// this frame and no attack is under way: never without the key, never while
/// attacking, and whatever its other keys and state.
pub proof fn lemma_attack_starts_only_on_the_attack_key(keys: PlayerKeys, body: PlayerBody)
    ensures
        PlayerInputSystem::spec_commands(keys, body).start_attack ==> keys.attack,
        body.attacking ==> !PlayerInputSystem::spec_commands(keys, body).start_attack,
        keys.attack && !body.attacking ==> PlayerInputSystem::spec_commands(keys, body).start_attack,
{
}

/// The other commands of a live character: it jumps exactly when the jump key
/// is held on the ground; time slows exactly while the slow-motion key is held;
/// it turns only towards a nonzero horizontal input, and only if it has an
/// orientation; ducking halves the share of the input that becomes speed; the
/// ground bonus is none in the air, taken away while ducking on the ground and
/// added otherwise; and a character without a gravity direction keeps its speed.
pub proof fn lemma_player_commands(keys: PlayerKeys, body: PlayerBody)
    ensures
        ({
            let c = PlayerInputSystem::spec_commands(keys, body);
            &&& c.jump == (keys.jump && body.on_ground)
            &&& c.slow_motion == keys.slow_motion
            &&& c.facing_right.is_some() == (!is_zero(body.intent_x) && body.has_orientation)
            &&& c.facing_right == Some(true) ==> is_positive(body.intent_x)
            &&& c.facing_right == Some(false) ==> !is_positive(body.intent_x)
            &&& c.movement == (if body.ducking { DUCKING_MOVEMENT_BITS } else { MOVEMENT_BITS })
            &&& (c.ground_bonus == AxisSign::Zero) == !body.on_ground
            &&& (c.ground_bonus == AxisSign::Negative) == (body.on_ground && body.ducking)
            &&& c.writes_velocity == body.has_gravity
        }),
{
}

impl PlayerInputSystem {
    /// Letting go of the jump key while still rising (`upward_speed` greater
    /// than zero, an `f32` bit pattern) halves the rise.
    pub fn cuts_jump(jump_released: bool, upward_speed: u32) -> (r: bool)
        ensures
            r == (jump_released && is_positive(upward_speed)),
    {
        let magnitude = upward_speed & MAGNITUDE_MASK;
        jump_released && upward_speed & SIGN_BIT == 0 && magnitude != 0 && magnitude <= INFINITY_BITS
    }
}

} // verus!
