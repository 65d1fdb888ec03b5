//! The passes of a frame. Each is handed out by the frame while the frame is
//! in the matching phase, and borrows the frame for as long as it lives.

use crate::renderer::error::RenderError;
use crate::renderer::frame::{Frame, PrimaryCommandBufferView, Submission};
use crate::renderer::light::Light;
use crate::renderer::linear::{Matrix4, Vector3};
use crate::renderer::recording::{SecondaryRecording, SecondaryRecordingView};
use crate::renderer::render_pass::DEFERRED_SUBPASS;
use vstd::prelude::*;

verus! {

/// The phases that a frame goes through.
#[derive(Clone, Copy, Debug, PartialEq, Eq, Hash)]
pub enum Phase {
    Deferred,
    Lighting,
    Finished,
}

pub enum Pass<'f, 's, F> {
    /// The geometry of the scene is recorded now.
    Deferred(DrawPass<'f, 's, F>),
    /// The lights of the scene are recorded now.
    Lighting(LightingPass<'f, 's, F>),
    /// The frame is recorded: submit this, and present after it.
    Finished(Submission<F>),
}

impl<'f, 's, F> Pass<'f, 's, F> {
    /// The phase that the pass belongs to.
    pub open spec fn phase_spec(&self) -> Phase {
        match self {
            Pass::Deferred(_) => Phase::Deferred,
            Pass::Lighting(_) => Phase::Lighting,
            Pass::Finished(_) => Phase::Finished,
        }
    }

    /// The phase that the pass belongs to.
    pub fn phase(&self) -> (phase: Phase)
        ensures
            phase == self.phase_spec(),
    {
        match self {
            Pass::Deferred(_) => Phase::Deferred,
            Pass::Lighting(_) => Phase::Lighting,
            Pass::Finished(_) => Phase::Finished,
        }
    }
}

/// The phase of the pass that a call handed out, if it handed out any.
pub open spec fn phase_of<'f, 's, F>(pass: Option<Pass<'f, 's, F>>) -> Option<Phase> {
    match pass {
        Some(pass) => Some(pass.phase_spec()),
        None => None,
    }
}

pub struct DrawPass<'f, 's, F> {
    pub frame: &'f mut Frame<'s, F>,
}

impl<'f, 's, F> DrawPass<'f, 's, F> {
    /// The frame is in its first phase.
    pub open spec fn wf(&self) -> bool {
        &&& self.frame.wf()
        &&& self.frame.num_pass() == 1
    }

    /// Executes a finished recording in the first subpass, after all that
    /// were executed before. A recording made for another subpass is
    /// refused, and nothing is recorded.
    pub fn execute(&mut self, command_buffer: SecondaryRecording) -> (done: Result<
        (),
        RenderError,
    >)
        requires
            old(self).wf(),
        ensures
            final(self).wf(),
            *final(final(self).frame) == *final(old(self).frame),
            final(self).frame.same_but_recording(old(self).frame),
            done is Ok <==> command_buffer@.subpass_id() == DEFERRED_SUBPASS,
            done is Err ==> {
                &&& done->Err_0 == RenderError::SubpassMismatch
                &&& final(self).frame.recording() == old(self).frame.recording()
            },
            done is Ok ==> final(self).frame.recording() == Some(
                (PrimaryCommandBufferView {
                    deferred: old(self).frame.recording()->0.deferred.push(command_buffer@),
                    ..old(self).frame.recording()->0
                }),
            ),
    {
        if command_buffer.subpass_id() != DEFERRED_SUBPASS {
            return Err(RenderError::SubpassMismatch);
        }
        self.frame.record_deferred(command_buffer);
        Ok(())
    }

    /// Width and height of what the frame draws to.
    pub fn viewport_dimensions(&self) -> (dimensions: [u32; 2])
        ensures
            dimensions == old(self.frame).framebuffer().extent_spec(),
    {
        self.frame.target().extent()
    }

    /// The view transform of the frame.
    pub fn world_to_framebuffer_matrix(&self) -> (matrix: Matrix4)
        ensures
            matrix == old(self.frame).world_to_framebuffer(),
    {
        self.frame.view_transform()
    }
}

pub struct LightingPass<'f, 's, F> {
    pub frame: &'f mut Frame<'s, F>,
}

impl<'f, 's, F> LightingPass<'f, 's, F> {
    /// The frame is in its second phase.
    pub open spec fn wf(&self) -> bool {
        &&& self.frame.wf()
        &&& self.frame.num_pass() == 2
    }

    /// What the frame has recorded for the second subpass so far.
    pub open spec fn lights(&self) -> Seq<SecondaryRecordingView> {
        self.frame.recording()->0.lighting
    }

    /// The frame after one more light was recorded.
    pub open spec fn lit_by(&self, before: &LightingPass<'f, 's, F>, light: SecondaryRecordingView) -> bool {
        &&& self.wf()
        &&& self.frame.same_but_recording(before.frame)
        &&& self.frame.recording() == Some(
            (PrimaryCommandBufferView {
                lighting: before.lights().push(light),
                ..before.frame.recording()->0
            }),
        )
    }

    /// Records one ambient light of the given colour, after all lights that
    /// were recorded before.
    pub fn ambient_light(&mut self, color: [u32; 3])
        requires
            old(self).wf(),
        ensures
            *final(final(self).frame) == *final(old(self).frame),
            final(self).lit_by(
                old(self),
                SecondaryRecordingView::Lighting(
                    old(self).frame.system().ambient().recording_spec(
                        old(self).frame.framebuffer().extent_spec(),
                        old(self).frame.system().gbuffer().diffuse,
                        color,
                    ),
                ),
            ),
    {
        let system = self.frame.frame_system();
        let command_buffer = system.ambient_lighting_system().draw(
            self.frame.target().extent(),
            system.diffuse_buffer(),
            color,
        );
        self.frame.record_lighting(command_buffer);
    }

    /// Records one light that shines in the given direction, after all
    /// lights that were recorded before.
    pub fn directional_light(&mut self, direction: Vector3, color: [u32; 3])
        requires
            old(self).wf(),
        ensures
            *final(final(self).frame) == *final(old(self).frame),
            final(self).lit_by(
                old(self),
                SecondaryRecordingView::Lighting(
                    old(self).frame.system().directional().recording_spec(
                        old(self).frame.framebuffer().extent_spec(),
                        old(self).frame.system().gbuffer().diffuse,
                        old(self).frame.system().gbuffer().normals,
                        direction,
                        color,
                    ),
                ),
            ),
    {
        let system = self.frame.frame_system();
        let command_buffer = system.directional_lighting_system().draw(
            self.frame.target().extent(),
            system.diffuse_buffer(),
            system.normals_buffer(),
            direction,
            color,
        );
        self.frame.record_lighting(command_buffer);
    }

    /// Records one light at the given position in the world, after all
    /// lights that were recorded before. The light needs the inverse of the
    /// view transform: on a frame whose view transform has none, it fails and
    /// records nothing.
    pub fn point_light(&mut self, position: Vector3, color: [u32; 3]) -> (done: Result<
        (),
        RenderError,
    >)
        requires
            old(self).wf(),
        ensures
            *final(final(self).frame) == *final(old(self).frame),
            done is Ok <==> old(self).frame.framebuffer_to_world() is Some,
            done is Err ==> {
                &&& done->Err_0 == RenderError::ViewNotInvertible
                &&& final(self).wf()
                &&& final(self).frame.same_but_recording(old(self).frame)
                &&& final(self).frame.recording() == old(self).frame.recording()
            },
            done is Ok ==> final(self).lit_by(
                old(self),
                SecondaryRecordingView::Lighting(
                    old(self).frame.system().point().recording_spec(
                        old(self).frame.framebuffer().extent_spec(),
                        old(self).frame.system().gbuffer().diffuse,
                        old(self).frame.system().gbuffer().normals,
                        old(self).frame.system().gbuffer().depth,
                        old(self).frame.framebuffer_to_world()->0,
                        position,
                        color,
                    ),
                ),
            ),
    {
        let screen_to_world = match self.frame.inverse_view_transform() {
            Some(matrix) => matrix,
            None => {
                return Err(RenderError::ViewNotInvertible);
            },
        };
        let system = self.frame.frame_system();
        let command_buffer = system.point_lighting_system().draw(
            self.frame.target().extent(),
            system.diffuse_buffer(),
            system.normals_buffer(),
            system.depth_buffer(),
            screen_to_world,
            position,
            color,
        );
        self.frame.record_lighting(command_buffer);
        Ok(())
    }

    /// Records one light, after all lights that were recorded before. A
    /// point light fails, and records nothing, on a frame whose view
    /// transform has no inverse.
    pub fn light(&mut self, light: Light) -> (done: Result<(), RenderError>)
        requires
            old(self).wf(),
        ensures
            *final(final(self).frame) == *final(old(self).frame),
            done is Ok <==> light.recordable(old(self).frame.framebuffer_to_world()),
            done is Err ==> {
                &&& done->Err_0 == RenderError::ViewNotInvertible
                &&& final(self).wf()
                &&& final(self).frame.same_but_recording(old(self).frame)
                &&& final(self).frame.recording() == old(self).frame.recording()
            },
            done is Ok ==> final(self).lit_by(
                old(self),
                light.recording_spec(
                    old(self).frame.system(),
                    old(self).frame.framebuffer().extent_spec(),
                    old(self).frame.framebuffer_to_world(),
                ),
            ),
    {
        match light {
            Light::Ambient { color } => {
                self.ambient_light(color);
                Ok(())
            },
            Light::Directional { direction, color } => {
                self.directional_light(direction, color);
                Ok(())
            },
            Light::Point { position, color } => self.point_light(position, color),
        }
    }
}

} // verus!
