//! The game's states and when they hand over to one another.
pub mod editor;
pub mod load_level;
pub mod loading;
pub mod pizzatopia;

use vstd::prelude::*;

verus! {

/// What a state asks of the state machine.
#[derive(Clone, Copy, Debug, PartialEq, Eq, Structural)]
pub enum Trans {
    /// Stay in this state.
    Stay,
    Quit,
    /// Go back to the state below.
    Pop,
    /// Open the level editor on top of the game.
    PushEditor,
    /// Replace this state with the game.
    SwitchToGame,
    /// Leave the editor and load the level anew.
    ReloadLevel,
}

/// How far loading an asset has come.
#[derive(Clone, Copy, Debug, PartialEq, Eq, Structural)]
pub enum Completion {
    Loading,
    Complete,
    Failed,
}

} // verus!
