use vstd::prelude::*;

use crate::components::game::{SerializedObject, Team};
use crate::utils::Vec2Bits;

verus! {

/// Events that concern the player character.
#[derive(Clone, Copy, Debug, PartialEq, Eq, Structural)]
pub enum PlayerEvent {
    /// Bring a dead player back with this much health.
    Revive(u32),
}

/// Events the game states handle; positions and sizes are carried as `f32`
/// bit patterns, entities by id.
#[derive(Clone, Copy, Debug, PartialEq, Eq, Structural)]
pub enum Events {
    Warp(Vec2Bits),
    Reset,
    AddGameObject,
    DeleteGameObject(u32),
    SaveLevel,
    LoadLevel,
    ChangeInsertionGameObject(u8),
    SetInsertionGameObject(SerializedObject),
    EntityToInsertionGameObject(u32),
    OpenFilePickerUi,
    HoverGameObject,
    /// Position, velocity, team.
    FireProjectile(Vec2Bits, Vec2Bits, Team),
    /// Parent, position, size, team.
    CreateDamageBox(Option<u32>, Vec2Bits, Vec2Bits, Team),
}

} // verus!
