//! Directional light: light that falls on every surface from one direction.

use crate::renderer::image::ImageView;
use crate::renderer::linear::Vector3;
use crate::renderer::lighting::{
    full_screen_triangle,
    full_screen_triangle_spec,
    lighting_pipeline,
    lighting_pipeline_spec,
    extended,
    extended_spec,
    opaque,
    opaque_spec,
    LightingVertex,
    LIGHTING_VERTEX_COUNT,
};
use crate::renderer::pipeline::{GraphicsPipeline, Shaders};
use crate::renderer::recording::{
    LightingRecording,
    PushConstants,
    SecondaryRecording,
    SecondaryRecordingView,
};
use crate::renderer::render_pass::Subpass;
use vstd::prelude::*;

verus! {

pub struct Directional {
    vertex_buffer: [LightingVertex; 3],
    subpass: Subpass,
    pipeline: GraphicsPipeline,
}

impl Directional {
    /// The subpass that the light is drawn in.
    pub closed spec fn subpass(&self) -> Subpass {
        self.subpass
    }

    /// The pipeline that the light is drawn with.
    pub closed spec fn pipeline(&self) -> GraphicsPipeline {
        self.pipeline
    }

    /// The vertices that the light is drawn with.
    pub closed spec fn vertices(&self) -> [LightingVertex; 3] {
        self.vertex_buffer
    }

    /// The pipeline blends additively in the subpass of the light, and the
    /// vertices cover the viewport.
    pub open spec fn wf(&self) -> bool {
        &&& self.subpass().wf()
        &&& self.pipeline() == lighting_pipeline_spec(Shaders::DirectionalLight, self.subpass())
        &&& self.vertices() == full_screen_triangle_spec()
    }

    /// What `draw` records.
    pub open spec fn recording_spec(
        &self,
        viewport_dimensions: [u32; 2],
        color_input: ImageView,
        normals_input: ImageView,
        direction: Vector3,
        color: [u32; 3],
    ) -> LightingRecording {
        LightingRecording {
            pipeline: self.pipeline(),
            viewport_dimensions,
            color_input,
            normals_input: Some(normals_input),
            depth_input: None,
            push_constants: PushConstants::Directional {
                color: opaque_spec(color),
                direction: extended_spec(direction),
            },
            vertex_count: LIGHTING_VERTEX_COUNT,
            instance_count: 1,
            first_vertex: 0,
            first_instance: 0,
        }
    }

    /// The directional lighting subsystem for a subpass.
    pub fn new(subpass: Subpass) -> (system: Directional)
        requires
            subpass.wf(),
        ensures
            system.wf(),
            system.subpass() == subpass,
    {
        Directional {
            vertex_buffer: full_screen_triangle(),
            subpass,
            pipeline: lighting_pipeline(Shaders::DirectionalLight, subpass),
        }
    }

    /// The vertices that the light is drawn with.
    pub fn vertex_buffer(&self) -> (vertices: [LightingVertex; 3])
        ensures
            vertices == self.vertices(),
    {
        self.vertex_buffer
    }

    /// The pipeline that the light is drawn with.
    pub fn graphics_pipeline(&self) -> (pipeline: GraphicsPipeline)
        ensures
            pipeline == self.pipeline(),
    {
        self.pipeline
    }

    /// Records one directional light: reads albedo and normals, lights every
    /// surface by how much it faces `direction`, and adds the result to the
    /// final colour.
    pub fn draw(
        &self,
        viewport_dimensions: [u32; 2],
        color_input: ImageView,
        normals_input: ImageView,
        direction: Vector3,
        color: [u32; 3],
    ) -> (recording: SecondaryRecording)
        ensures
            recording@ == SecondaryRecordingView::Lighting(
                self.recording_spec(
                    viewport_dimensions,
                    color_input,
                    normals_input,
                    direction,
                    color,
                ),
            ),
    {
        SecondaryRecording::Lighting(
            LightingRecording {
                pipeline: self.pipeline,
                viewport_dimensions,
                color_input,
                normals_input: Some(normals_input),
                depth_input: None,
                push_constants: PushConstants::Directional {
                    color: opaque(color),
                    direction: extended(direction),
                },
                vertex_count: LIGHTING_VERTEX_COUNT,
                instance_count: 1,
                first_vertex: 0,
                first_instance: 0,
            },
        )
    }
}

} // verus!
