//! Loading a level from its file.
use vstd::prelude::*;

use crate::states::{Completion, Trans};

verus! {

/// The state that waits for a level file to load.
pub struct LoadLevelState;

impl LoadLevelState {
    /// Once the level has loaded, or failed to, the game starts; until then
    /// the state waits.
    pub fn update(level_progress: Completion) -> (r: Trans)
        ensures
            r == (if level_progress == Completion::Loading {
                Trans::Stay
            } else {
                Trans::SwitchToGame
            }),
    {
        match level_progress {
            Completion::Loading => Trans::Stay,
            Completion::Complete | Completion::Failed => Trans::SwitchToGame,
        }
    }
}

} // verus!
