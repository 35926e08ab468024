//! Sprite choices: the frames of animated tiles, how characters are drawn as
//! they move, and the editor cursor's sprite.
use vstd::prelude::*;

use crate::components::editor::EditorState;
use crate::components::game::{SerializedObject, SpriteRenderData};
use crate::components::graphics::SpriteSheetType;
use crate::components::physics::GravityDirection;
use crate::input::{INFINITY_BITS, MAGNITUDE_MASK};
use crate::systems::physics::{
    gravitationally_de_adapted_velocity, is_positive, is_zero, spec_de_adapted, CollisionDirection, SIGN_BIT,
};
use crate::utils::Vec2Bits;

verus! {

/// Sprite the editor cursor shows in edit mode, on the tile sheet.
pub const CURSOR_SPRITE: usize = 4;

/// Steps animated tiles through their frames.
pub struct AnimatedTileSystem;

impl AnimatedTileSystem {
    /// The sprite an animated tile shows after its frame time ran out: the next
    /// one, back to its own sprite after the last frame; a tile without frames
    /// keeps its sprite.
    pub open spec fn spec_next_sprite(sprite_number: usize, base_sprite: usize, num_frames: usize) -> usize {
        if num_frames > 0 {
            if sprite_number + 1 > base_sprite + num_frames {
                base_sprite
            } else {
                (sprite_number + 1) as usize
            }
        } else {
            sprite_number
        }
    }

    pub fn next_sprite(sprite_number: usize, base_sprite: usize, num_frames: usize) -> (r: usize)
        requires
            num_frames > 0 ==> sprite_number < usize::MAX && base_sprite + num_frames <= usize::MAX,
        ensures
            r == Self::spec_next_sprite(sprite_number, base_sprite, num_frames),
    {
        let mut number = sprite_number;
        if num_frames > 0 {
            number = number + 1;
            if number > base_sprite + num_frames {
                number = base_sprite;
            }
        }
        number
    }
}

/// The sprite an animated tile shows after `n` frame steps.
pub open spec fn sprite_after_steps(sprite_number: usize, base_sprite: usize, num_frames: usize, n: nat) -> usize
    decreases n,
{
    if n == 0 {
        sprite_number
    } else {
        AnimatedTileSystem::spec_next_sprite(
            sprite_after_steps(sprite_number, base_sprite, num_frames, (n - 1) as nat),
            base_sprite,
            num_frames,
        )
    }
}

/// An animated tile that starts on one of its frames stays on its frames, and
/// comes back to its own sprite after one step per frame and one more.
pub proof fn lemma_animation_cycles(base_sprite: usize, num_frames: usize, n: nat)
    requires
        num_frames > 0,
        base_sprite + num_frames < usize::MAX,
    ensures
        base_sprite <= sprite_after_steps(base_sprite, base_sprite, num_frames, n) <= base_sprite + num_frames,
        n <= num_frames ==> sprite_after_steps(base_sprite, base_sprite, num_frames, n) == base_sprite + n,
        n == num_frames + 1 ==> sprite_after_steps(base_sprite, base_sprite, num_frames, n) == base_sprite,
    decreases n,
{
    if n > 0 {
        lemma_animation_cycles(base_sprite, num_frames, (n - 1) as nat);
    }
}

/// How a moving character is drawn on a frame.
#[derive(Clone, Copy, Debug, PartialEq, Eq, Structural)]
pub struct SpriteUpdate {
    /// The walking animation runs at this rate (the magnitude of the speed
    /// along the ground, an `f32` bit pattern); without it the walking
    /// animations stop.
    pub walk_rate: Option<u32>,
    /// The horizontal scale (an `f32` bit pattern); while walking it is
    /// mirrored to face the way the character is oriented.
    pub scale_x: u32,
    /// The character moves across its ground, which stops its bobbing.
    pub leaves_ground: bool,
    /// Quarter turns of the sprite, counter-clockwise, so that its feet point
    /// to where its gravity comes from.
    pub quarter_turns: u8,
}

/// Draws characters according to how they move.
pub struct SpriteUpdateSystem;

impl SpriteUpdateSystem {
    /// The sprite a player shows: the second one while ducking.
    pub fn player_sprite(ducking: bool) -> (r: usize)
        ensures
            r == (if ducking { 1usize } else { 0usize }),
    {
        if ducking {
            1
        } else {
            0
        }
    }

    /// Quarter turns, counter-clockwise, for gravity from each side.
    pub open spec fn spec_quarter_turns(gravity: CollisionDirection) -> u8 {
        match gravity {
            CollisionDirection::FromTop => 0,
            CollisionDirection::FromLeft => 1,
            CollisionDirection::FromBottom => 2,
            CollisionDirection::FromRight => 3,
        }
    }

    /// How a character with `velocity`, horizontal orientation `orientation_x`
    /// and horizontal scale `scale_x` (all `f32` bit patterns) is drawn;
    /// gravity comes from the top unless it has a direction of its own. It
    /// walks while its speed along its ground is not zero.
    pub open spec fn spec_update(velocity: Vec2Bits, orientation_x: u32, scale_x: u32, gravity: Option<GravityDirection>) -> SpriteUpdate {
        let direction = match gravity {
            Some(g) => g.0,
            None => CollisionDirection::FromTop,
        };
        let along = spec_de_adapted(velocity, direction);
        let walking = !is_zero(along.x);
        SpriteUpdate {
            walk_rate: if walking { Some(along.x & MAGNITUDE_MASK) } else { None },
            scale_x: if !walking {
                scale_x
            } else if is_positive(orientation_x) {
                scale_x & MAGNITUDE_MASK
            } else {
                (scale_x & MAGNITUDE_MASK) | SIGN_BIT
            },
            leaves_ground: !is_zero(along.y),
            quarter_turns: Self::spec_quarter_turns(direction),
        }
    }

    /// See `spec_update`.
    pub fn update(velocity: &Vec2Bits, orientation_x: u32, scale_x: u32, gravity: Option<GravityDirection>) -> (r: SpriteUpdate)
        ensures
            r == Self::spec_update(*velocity, orientation_x, scale_x, gravity),
    {
        let direction = match gravity {
            Some(g) => g.0,
            None => CollisionDirection::FromTop,
        };
        let along = gravitationally_de_adapted_velocity(velocity, &GravityDirection(direction));
        let walking = along.x & MAGNITUDE_MASK != 0;
        let orientation = orientation_x & MAGNITUDE_MASK;
        let faces_right = orientation_x & SIGN_BIT == 0 && orientation != 0 && orientation <= INFINITY_BITS;
        let quarter_turns: u8 = match direction {
            CollisionDirection::FromTop => 0,
            CollisionDirection::FromLeft => 1,
            CollisionDirection::FromBottom => 2,
            CollisionDirection::FromRight => 3,
        };
        SpriteUpdate {
            walk_rate: if walking {
                Some(along.x & MAGNITUDE_MASK)
            } else {
                None
            },
            scale_x: if !walking {
                scale_x
            } else if faces_right {
                scale_x & MAGNITUDE_MASK
            } else {
                (scale_x & MAGNITUDE_MASK) | SIGN_BIT
            },
            leaves_ground: along.y & MAGNITUDE_MASK != 0,
            quarter_turns,
        }
    }
}

/// Chooses the editor cursor's sprite.
pub struct CursorSpriteUpdateSystem;

impl CursorSpriteUpdateSystem {
    /// The cursor's sheet and sprite: while inserting or editing, the object's
    /// sprite (the first tile when it has none), its number kept within the
    /// sheet when the sheet's sprite count is known, else the cursor sprite of
    /// the tile sheet. The sprite number is absent when the count is unknown.
    /// The object gets the sprite it shows.
    pub fn cursor_sprite(state: EditorState, insertion: &mut SerializedObject, sprite_count: Option<usize>) -> (r: (
        SpriteSheetType,
        Option<usize>,
    ))
        requires
            state != EditorState::EditMode && sprite_count.is_some() ==> sprite_count.unwrap() >= 1,
        ensures
            state == EditorState::EditMode ==> *final(insertion) == *old(insertion) && r == (
                SpriteSheetType::Tiles,
                Some(CURSOR_SPRITE),
            ),
            state != EditorState::EditMode ==> ({
                let sprite = match old(insertion).sprite {
                    Some(s) => s,
                    None => SpriteRenderData { sheet: SpriteSheetType::Tiles, number: 0 },
                };
                let number = match sprite_count {
                    Some(n) => if sprite.number < n { sprite.number } else { (n - 1) as usize },
                    None => sprite.number,
                };
                &&& *final(insertion) == SerializedObject {
                    sprite: Some(SpriteRenderData { number, ..sprite }),
                    ..*old(insertion)
                }
                &&& r == (sprite.sheet, if sprite_count.is_some() { Some(number) } else { None })
            }),
    {
        match state {
            EditorState::InsertMode | EditorState::EditGameObject => {
                let sprite = match insertion.sprite {
                    Some(s) => s,
                    None => SpriteRenderData::new(SpriteSheetType::Tiles, 0),
                };
                match sprite_count {
                    Some(n) => {
                        let last = n - 1;
                        let number = if sprite.number > last {
                            last
                        } else {
                            sprite.number
                        };
                        insertion.sprite = Some(SpriteRenderData { sheet: sprite.sheet, number });
                        (sprite.sheet, Some(number))
                    },
                    None => {
                        insertion.sprite = Some(sprite);
                        (sprite.sheet, None)
                    },
                }
            },
            _ => (SpriteSheetType::Tiles, Some(CURSOR_SPRITE)),
        }
    }
}

} // verus!
