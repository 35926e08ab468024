//! Game logic of a 2D platformer with a level editor: input bookkeeping,
//! collision decisions, editor state handling and user-interface navigation.
pub mod clock;
pub mod components;
pub mod events;
pub mod input;
pub mod registry;
pub mod states;
pub mod systems;
pub mod ui;
pub mod utils;
