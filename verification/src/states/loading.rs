//! Loading the game's assets at start-up.
use vstd::prelude::*;

use crate::states::{Completion, Trans};

verus! {

/// The state that waits for the assets and the first level to load.
pub struct LoadingState;

impl LoadingState {
    /// Once the assets have loaded and the level has loaded, or failed to,
    /// the game starts; until then the state waits.
    pub fn update(assets_loaded: bool, level_progress: Completion) -> (r: Trans)
        ensures
            r == (if assets_loaded && level_progress != Completion::Loading {
                Trans::SwitchToGame
            } else {
                Trans::Stay
            }),
    {
        if assets_loaded {
            match level_progress {
                Completion::Failed | Completion::Complete => Trans::SwitchToGame,
                Completion::Loading => Trans::Stay,
            }
        } else {
            Trans::Stay
        }
    }
}

} // verus!
