pub mod ai;
pub mod console;
pub mod editor;
pub mod game;
pub mod graphics;
pub mod input;
pub mod physics;
pub mod player;
