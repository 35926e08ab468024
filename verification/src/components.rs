pub mod editor;
pub mod game;
pub mod graphics;
pub mod physics;
