//! The simulation side: the loop clock, the scene's components and the input
//! vocabulary.

pub mod components;
pub mod game_loop;
pub mod input;

pub use components::{CursorCaptured, Renderable, ResizeEvents};
pub use game_loop::GameLoop;
