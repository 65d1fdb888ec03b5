//! Ambient light: the albedo of every pixel, scaled by one colour.

use crate::renderer::image::ImageView;
use crate::renderer::lighting::{
    full_screen_triangle,
    full_screen_triangle_spec,
    lighting_pipeline,
    lighting_pipeline_spec,
    opaque,
    opaque_spec,
    LightingVertex,
    LIGHTING_VERTEX_COUNT,
};
use crate::renderer::pipeline::{GraphicsPipeline, Shaders};
use crate::renderer::recording::{
    LightingRecording,
    PushConstants,
    SecondaryRecording,
    SecondaryRecordingView,
};
use crate::renderer::render_pass::Subpass;
use vstd::prelude::*;

verus! {

pub struct Ambient {
    vertex_buffer: [LightingVertex; 3],
    subpass: Subpass,
    pipeline: GraphicsPipeline,
}

impl Ambient {
    /// The subpass that the light is drawn in.
    pub closed spec fn subpass(&self) -> Subpass {
        self.subpass
    }

    /// The pipeline that the light is drawn with.
    pub closed spec fn pipeline(&self) -> GraphicsPipeline {
        self.pipeline
    }

    /// The vertices that the light is drawn with.
    pub closed spec fn vertices(&self) -> [LightingVertex; 3] {
        self.vertex_buffer
    }

    /// The pipeline blends additively in the subpass of the light, and the
    /// vertices cover the viewport.
    pub open spec fn wf(&self) -> bool {
        &&& self.subpass().wf()
        &&& self.pipeline() == lighting_pipeline_spec(Shaders::AmbientLight, self.subpass())
        &&& self.vertices() == full_screen_triangle_spec()
    }

    /// What `draw` records.
    pub open spec fn recording_spec(
        &self,
        viewport_dimensions: [u32; 2],
        color_input: ImageView,
        ambient_color: [u32; 3],
    ) -> LightingRecording {
        LightingRecording {
            pipeline: self.pipeline(),
            viewport_dimensions,
            color_input,
            normals_input: None,
            depth_input: None,
            push_constants: PushConstants::Ambient { color: opaque_spec(ambient_color) },
            vertex_count: LIGHTING_VERTEX_COUNT,
            instance_count: 1,
            first_vertex: 0,
            first_instance: 0,
        }
    }

    /// The ambient lighting subsystem for a subpass.
    pub fn new(subpass: Subpass) -> (system: Ambient)
        requires
            subpass.wf(),
        ensures
            system.wf(),
            system.subpass() == subpass,
    {
        Ambient {
            vertex_buffer: full_screen_triangle(),
            subpass,
            pipeline: lighting_pipeline(Shaders::AmbientLight, subpass),
        }
    }

    /// The vertices that the light is drawn with.
    pub fn vertex_buffer(&self) -> (vertices: [LightingVertex; 3])
        ensures
            vertices == self.vertices(),
    {
        self.vertex_buffer
    }

    /// The pipeline that the light is drawn with.
    pub fn graphics_pipeline(&self) -> (pipeline: GraphicsPipeline)
        ensures
            pipeline == self.pipeline(),
    {
        self.pipeline
    }

    /// Records one ambient light: reads the albedo from `color_input`,
    /// scales it by `ambient_color` and adds the result to the final colour.
    pub fn draw(
        &self,
        viewport_dimensions: [u32; 2],
        color_input: ImageView,
        ambient_color: [u32; 3],
    ) -> (recording: SecondaryRecording)
        ensures
            recording@ == SecondaryRecordingView::Lighting(
                self.recording_spec(viewport_dimensions, color_input, ambient_color),
            ),
    {
        SecondaryRecording::Lighting(
            LightingRecording {
                pipeline: self.pipeline,
                viewport_dimensions,
                color_input,
                normals_input: None,
                depth_input: None,
                push_constants: PushConstants::Ambient { color: opaque(ambient_color) },
                vertex_count: LIGHTING_VERTEX_COUNT,
                instance_count: 1,
                first_vertex: 0,
                first_instance: 0,
            },
        )
    }
}

} // verus!
