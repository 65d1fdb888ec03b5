//! A small host framework: an application clock, the graphics context of a
//! single-pass renderer, and effects.

pub mod entry;
pub mod graphics;
pub mod shaders;

pub use entry::Application;
pub use graphics::GraphicsContext;
pub use shaders::{Effect, EffectBuilder};
