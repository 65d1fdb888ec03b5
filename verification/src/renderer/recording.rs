//! Finished secondary recordings: what a subsystem asks the device to do
//! within one subpass.

use crate::renderer::geometry_shaders::{FrameData, ObjectData};
use crate::renderer::image::ImageView;
use crate::renderer::linear::Matrix4;
use crate::renderer::pipeline::GraphicsPipeline;
use vstd::prelude::*;

verus! {

/// One indexed draw of a mesh: its vertex and index buffers are bound, then
/// `index_count` indices are drawn.
#[derive(Clone, Copy, Debug, PartialEq, Eq)]
pub struct IndexedDraw {
    pub mesh: usize,
    pub index_count: u32,
    pub instance_count: u32,
    pub first_index: u32,
    pub vertex_offset: i32,
    pub first_instance: u32,
}

/// The recording of the geometry pass.
#[derive(Clone, Debug, PartialEq, Eq)]
pub struct GeometryRecording {
    pub pipeline: GraphicsPipeline,
    pub viewport_dimensions: [u32; 2],
    /// Bound as descriptor set 0.
    pub frame_data: FrameData,
    /// Bound as descriptor set 1.
    pub object_data: Vec<ObjectData>,
    /// The draws, in order.
    pub draws: Vec<IndexedDraw>,
}

/// The recording of the geometry pass as a mathematical value.
pub struct GeometryRecordingView {
    pub pipeline: GraphicsPipeline,
    pub viewport_dimensions: [u32; 2],
    pub frame_data: FrameData,
    pub object_data: Seq<ObjectData>,
    pub draws: Seq<IndexedDraw>,
}

impl View for GeometryRecording {
    type V = GeometryRecordingView;

    open spec fn view(&self) -> GeometryRecordingView {
        GeometryRecordingView {
            pipeline: self.pipeline,
            viewport_dimensions: self.viewport_dimensions,
            frame_data: self.frame_data,
            object_data: self.object_data@,
            draws: self.draws@,
        }
    }
}

/// The constants pushed to the fragment shader of a light. Every colour has
/// an alpha of one, and directions and positions a fourth component of zero.
#[derive(Clone, Copy, Debug, PartialEq, Eq)]
pub enum PushConstants {
    Ambient { color: [u32; 4] },
    Directional { color: [u32; 4], direction: [u32; 4] },
    Point { screen_to_world: Matrix4, color: [u32; 4], position: [u32; 4] },
}

/// The recording of one light: a triangle that covers the whole viewport,
/// drawn with the pipeline of the light over the G-buffer images it reads.
#[derive(Clone, Copy, Debug, PartialEq, Eq)]
pub struct LightingRecording {
    pub pipeline: GraphicsPipeline,
    pub viewport_dimensions: [u32; 2],
    pub color_input: ImageView,
    pub normals_input: Option<ImageView>,
    pub depth_input: Option<ImageView>,
    pub push_constants: PushConstants,
    pub vertex_count: u32,
    pub instance_count: u32,
    pub first_vertex: u32,
    pub first_instance: u32,
}

/// A finished secondary recording.
#[derive(Clone, Debug, PartialEq, Eq)]
pub enum SecondaryRecording {
    Geometry(GeometryRecording),
    Lighting(LightingRecording),
}

/// A finished secondary recording as a mathematical value.
pub enum SecondaryRecordingView {
    Geometry(GeometryRecordingView),
    Lighting(LightingRecording),
}

impl View for SecondaryRecording {
    type V = SecondaryRecordingView;

    open spec fn view(&self) -> SecondaryRecordingView {
        match self {
            SecondaryRecording::Geometry(recording) => SecondaryRecordingView::Geometry(
                recording@,
            ),
            SecondaryRecording::Lighting(recording) => SecondaryRecordingView::Lighting(
                *recording,
            ),
        }
    }
}

impl SecondaryRecordingView {
    /// The number of the subpass that the recording was made for.
    pub open spec fn subpass_id(&self) -> u32 {
        match self {
            SecondaryRecordingView::Geometry(recording) => recording.pipeline.subpass.subpass_id,
            SecondaryRecordingView::Lighting(recording) => recording.pipeline.subpass.subpass_id,
        }
    }
}

impl SecondaryRecording {
    /// The number of the subpass that the recording was made for.
    pub fn subpass_id(&self) -> (id: u32)
        ensures
            id == self@.subpass_id(),
    {
        match self {
            SecondaryRecording::Geometry(recording) => recording.pipeline.subpass.subpass_id,
            SecondaryRecording::Lighting(recording) => recording.pipeline.subpass.subpass_id,
        }
    }
}

/// The views of a list of recordings, in order.
pub open spec fn recording_views(recordings: Seq<SecondaryRecording>) -> Seq<
    SecondaryRecordingView,
> {
    Seq::new(recordings.len(), |i: int| recordings[i]@)
}

/// Appending a recording appends its view.
pub proof fn lemma_recording_views_push(
    recordings: Seq<SecondaryRecording>,
    recording: SecondaryRecording,
)
    ensures
        recording_views(recordings.push(recording)) == recording_views(recordings).push(
            recording@,
        ),
{
    assert(recording_views(recordings.push(recording)) =~= recording_views(recordings).push(
        recording@,
    ));
}

} // verus!
