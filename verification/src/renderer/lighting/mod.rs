//! The lighting subsystems. Each draws one triangle that covers the whole
//! viewport and adds the light it computes to the final colour.

pub mod ambient;
pub mod directional;
pub mod point;

pub use ambient::Ambient;
pub use directional::Directional;
pub use point::Point;

use crate::renderer::linear::{MINUS_ONE, ONE, THREE, ZERO};
use crate::renderer::pipeline::{AttachmentBlend, GraphicsPipeline, Shaders};
use crate::renderer::render_pass::Subpass;
use vstd::prelude::*;

verus! {

/// A vertex of the triangle that a light is drawn with.
#[derive(Clone, Copy, Debug, PartialEq, Eq)]
pub struct LightingVertex {
    pub position: [u32; 2],
}

/// The number of vertices that a light draws.
pub const LIGHTING_VERTEX_COUNT: u32 = 3;

/// The triangle with corners (-1, -1), (-1, 3) and (3, -1): it covers the
/// viewport, whose corners are (-1, -1) and (1, 1).
pub open spec fn full_screen_triangle_spec() -> [LightingVertex; 3] {
    [
        LightingVertex { position: [MINUS_ONE, MINUS_ONE] },
        LightingVertex { position: [MINUS_ONE, THREE] },
        LightingVertex { position: [THREE, MINUS_ONE] },
    ]
}

/// The vertices of the triangle that covers the viewport.
pub fn full_screen_triangle() -> (vertices: [LightingVertex; 3])
    ensures
        vertices == full_screen_triangle_spec(),
{
    [
        LightingVertex { position: [MINUS_ONE, MINUS_ONE] },
        LightingVertex { position: [MINUS_ONE, THREE] },
        LightingVertex { position: [THREE, MINUS_ONE] },
    ]
}

/// The pipeline of a light: no depth test, and additive blending on every
/// colour attachment of the subpass.
pub open spec fn lighting_pipeline_spec(shaders: Shaders, subpass: Subpass) -> GraphicsPipeline {
    GraphicsPipeline::for_subpass(
        shaders,
        subpass,
        false,
        Some(AttachmentBlend::additive_spec()),
    )
}

/// Builds the pipeline of a light.
pub fn lighting_pipeline(shaders: Shaders, subpass: Subpass) -> (pipeline: GraphicsPipeline)
    requires
        subpass.wf(),
    ensures
        pipeline == lighting_pipeline_spec(shaders, subpass),
{
    GraphicsPipeline::new(shaders, subpass, false, Some(AttachmentBlend::additive()))
}

/// A colour with an alpha of one.
pub open spec fn opaque_spec(color: [u32; 3]) -> [u32; 4] {
    [color[0], color[1], color[2], ONE]
}

/// A colour with an alpha of one.
pub fn opaque(color: [u32; 3]) -> (rgba: [u32; 4])
    ensures
        rgba == opaque_spec(color),
{
    [color[0], color[1], color[2], ONE]
}

/// A vector with a fourth component of zero.
pub open spec fn extended_spec(v: crate::renderer::linear::Vector3) -> [u32; 4] {
    [v.x, v.y, v.z, ZERO]
}

/// A vector with a fourth component of zero.
pub fn extended(v: crate::renderer::linear::Vector3) -> (xyzw: [u32; 4])
    ensures
        xyzw == extended_spec(v),
{
    [v.x, v.y, v.z, ZERO]
}

} // verus!
