//! Core of a real-time deferred renderer: a fixed-timestep simulation clock,
//! a three-phase frame state machine, geometry and lighting submission, and
//! the swapchain bookkeeping of the renderer facade.
//!
//! Everything here plans work as plain data. The host program replays the
//! plans on the device and reports back what the device answered.

pub mod framework;
pub mod game;
pub mod renderer;
pub mod time;
pub mod timestep;

pub use framework::{Application, GraphicsContext};
pub use game::GameLoop;
pub use renderer::FrameSystem;
pub use renderer::GeometrySystem;
pub use renderer::LightingPass;
pub use renderer::Pass;
pub use renderer::Renderer;
pub use time::Time;
pub use timestep::{BlendFactor, FixedTimestep, Tick};

