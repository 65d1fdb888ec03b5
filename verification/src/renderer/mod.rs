//! The deferred renderer: what a frame records, in which order, and on which
//! resources.

pub mod compositing;
pub mod error;
pub mod frame;
pub mod frame_system;
pub mod geometry;
pub mod geometry_shaders;
pub mod helpers;
pub mod image;
pub mod light;
pub mod lighting;
pub mod linear;
pub mod mesh;
pub mod pass;
pub mod pipeline;
pub mod recording;
pub mod render_data;
pub mod render_pass;
pub mod renderer;

pub use error::RenderError;
pub use frame::Frame;
pub use frame_system::FrameSystem;
pub use geometry::GeometrySystem;
pub use geometry_shaders::{cube_indices, cube_vertices, CUBE_INDICES};
pub use light::Light;
pub use pass::{DrawPass, LightingPass, Pass};
pub use renderer::Renderer;
