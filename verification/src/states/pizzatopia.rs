//! The running game: what its keys and events do.
use vstd::prelude::*;

use crate::components::game::Team;
use crate::events::Events;
use crate::states::Trans;
use crate::utils::Vec2Bits;

verus! {

/// Frames between two refreshes of the frame-rate display.
pub const FPS_REFRESH_FRAMES: u64 = 20;

/// The running game.
pub struct Pizzatopia;

/// What the game does with an application event.
#[derive(Clone, Copy, Debug, PartialEq, Eq, Structural)]
pub enum GameCommand {
    Nothing,
    /// Put the level back as it was loaded.
    ResetLevel,
    /// Position, velocity, team.
    FireProjectile(Vec2Bits, Vec2Bits, Team),
    /// Parent, position, size, team.
    CreateDamageBox(Option<u32>, Vec2Bits, Vec2Bits, Team),
}

impl Pizzatopia {
    /// On a window event the exit key quits, else the editor key opens the
    /// editor, else the debug key turns the debug lines on or off.
    pub fn window_event(exit: bool, editor: bool, toggle_debug: bool, draw_debug_lines: &mut bool) -> (r: Trans)
        ensures
            r == (if exit {
                Trans::Quit
            } else if editor {
                Trans::PushEditor
            } else {
                Trans::Stay
            }),
            *final(draw_debug_lines) == (if !exit && !editor && toggle_debug {
                !*old(draw_debug_lines)
            } else {
                *old(draw_debug_lines)
            }),
    {
        if exit {
            Trans::Quit
        } else if editor {
            Trans::PushEditor
        } else {
            if toggle_debug {
                *draw_debug_lines = !*draw_debug_lines;
            }
            Trans::Stay
        }
    }

    /// The game resets the level, fires projectiles and creates damage boxes;
    /// it ignores the other events.
    pub fn app_event(event: Events) -> (r: GameCommand)
        ensures
            r == match event {
                Events::Reset => GameCommand::ResetLevel,
                Events::FireProjectile(p, v, t) => GameCommand::FireProjectile(p, v, t),
                Events::CreateDamageBox(parent, p, s, t) => GameCommand::CreateDamageBox(parent, p, s, t),
                _ => GameCommand::Nothing,
            },
    {
        match event {
            Events::Reset => GameCommand::ResetLevel,
            Events::FireProjectile(p, v, t) => GameCommand::FireProjectile(p, v, t),
            Events::CreateDamageBox(parent, p, s, t) => GameCommand::CreateDamageBox(parent, p, s, t),
            _ => GameCommand::Nothing,
        }
    }

    /// The frame-rate display is refreshed every twentieth frame.
    pub fn refreshes_fps(frame_number: u64) -> (r: bool)
        ensures
            r == (frame_number % FPS_REFRESH_FRAMES == 0),
    {
        frame_number % FPS_REFRESH_FRAMES == 0
    }
}

} // verus!
