//! A frame: one walk through the render pass, from the geometry of the scene
//! over its lighting to the submission.

use crate::renderer::error::RenderError;
use crate::renderer::frame_system::{clear_values_spec, FrameSystem};
use crate::renderer::image::ImageView;
use crate::renderer::linear::{Matrix4, ONE, ZERO};
use crate::renderer::pass::{phase_of, DrawPass, LightingPass, Pass, Phase};
use crate::renderer::recording::{recording_views, SecondaryRecording, SecondaryRecordingView};
use crate::renderer::render_pass::{RenderPass, DEFERRED_SUBPASS, LIGHTING_SUBPASS};
use vstd::prelude::*;

verus! {

/// The value that an attachment is cleared to.
#[derive(Clone, Copy, Debug, PartialEq, Eq)]
pub enum ClearValue {
    Float([u32; 4]),
    Depth(u32),
}

/// The images that a render pass draws to, one for each attachment, in the
/// order of the attachments.
#[derive(Clone, Copy, Debug, PartialEq, Eq)]
pub struct Framebuffer {
    pub render_pass: RenderPass,
    pub attachments: [ImageView; 4],
}

impl Framebuffer {
    /// Width and height of the framebuffer: those of the image drawn to.
    pub open spec fn extent_spec(&self) -> [u32; 2] {
        [self.attachments[0].extent[0], self.attachments[0].extent[1]]
    }

    /// Width and height of the framebuffer.
    pub fn extent(&self) -> (extent: [u32; 2])
        ensures
            extent == self.extent_spec(),
    {
        [self.attachments[0].extent[0], self.attachments[0].extent[1]]
    }

    /// Whether the first `n` images have the formats of their attachments.
    pub open spec fn formats_fit_upto(&self, n: int) -> bool {
        forall|a: int|
            0 <= a < n ==> (#[trigger] self.attachments[a]).format
                == self.render_pass.attachments[a].format
    }

    /// Whether every image has the format of its attachment.
    pub open spec fn formats_fit(&self) -> bool {
        self.formats_fit_upto(4)
    }

    /// Whether the first `n` images may be used the way both subpasses use
    /// their attachments.
    pub open spec fn usages_fit_upto(&self, n: int) -> bool {
        forall|a: int|
            0 <= a < n ==> (#[trigger] self.attachments[a]).usage.allows_spec(
                self.render_pass.role(0, a),
            ) && self.attachments[a].usage.allows_spec(self.render_pass.role(1, a))
    }

    /// Whether every image may be used the way the subpasses use its
    /// attachment.
    pub open spec fn usages_fit(&self) -> bool {
        self.usages_fit_upto(4)
    }

    /// Whether the render pass can run on the images.
    pub open spec fn fits(&self) -> bool {
        self.formats_fit() && self.usages_fit()
    }

    /// Checks that the render pass can run on the images: the formats first,
    /// then the usages.
    pub fn check(&self) -> (checked: Result<(), RenderError>)
        ensures
            checked is Ok <==> self.fits(),
            checked is Err ==> checked->Err_0 == (if self.formats_fit() {
                RenderError::AttachmentUsage
            } else {
                RenderError::AttachmentFormatMismatch
            }),
    {
        let mut a: usize = 0;
        while a < 4
            invariant
                a <= 4,
                self.formats_fit_upto(a as int),
            decreases 4 - a,
        {
            if !self.attachments[a].format.same(self.render_pass.attachments[a].format) {
                return Err(RenderError::AttachmentFormatMismatch);
            }
            a = a + 1;
        }
        let mut a: usize = 0;
        while a < 4
            invariant
                a <= 4,
                self.formats_fit(),
                self.usages_fit_upto(a as int),
            decreases 4 - a,
        {
            let usage = self.attachments[a].usage;
            if !usage.allows(self.render_pass.subpasses[0].roles[a]) || !usage.allows(
                self.render_pass.subpasses[1].roles[a],
            ) {
                return Err(RenderError::AttachmentUsage);
            }
            a = a + 1;
        }
        Ok(())
    }
}

/// The primary recording of a frame. The render pass begins on the
/// framebuffer with the clear values; the recordings of `deferred` are
/// executed in the first subpass, in order; then those of `lighting` in the
/// second; then the render pass ends.
#[derive(Clone, Debug, PartialEq, Eq)]
pub struct PrimaryCommandBuffer {
    pub framebuffer: Framebuffer,
    pub clear_values: [ClearValue; 4],
    pub deferred: Vec<SecondaryRecording>,
    pub lighting: Vec<SecondaryRecording>,
}

/// The primary recording of a frame as a mathematical value.
pub struct PrimaryCommandBufferView {
    pub framebuffer: Framebuffer,
    pub clear_values: [ClearValue; 4],
    pub deferred: Seq<SecondaryRecordingView>,
    pub lighting: Seq<SecondaryRecordingView>,
}

impl View for PrimaryCommandBuffer {
    type V = PrimaryCommandBufferView;

    open spec fn view(&self) -> PrimaryCommandBufferView {
        PrimaryCommandBufferView {
            framebuffer: self.framebuffer,
            clear_values: self.clear_values,
            deferred: recording_views(self.deferred@),
            lighting: recording_views(self.lighting@),
        }
    }
}

impl PrimaryCommandBufferView {
    /// Every recording was made for the subpass that it is executed in.
    pub open spec fn wf(&self) -> bool {
        &&& forall|i: int|
            0 <= i < self.deferred.len() ==> (#[trigger] self.deferred[i]).subpass_id()
                == DEFERRED_SUBPASS
        &&& forall|i: int|
            0 <= i < self.lighting.len() ==> (#[trigger] self.lighting[i]).subpass_id()
                == LIGHTING_SUBPASS
    }
}

impl PrimaryCommandBuffer {
    /// A recording that begins the render pass on the framebuffer and has
    /// executed nothing yet.
    pub fn begin(framebuffer: Framebuffer) -> (recording: PrimaryCommandBuffer)
        ensures
            recording@ == (PrimaryCommandBufferView {
                framebuffer,
                clear_values: clear_values_spec(),
                deferred: Seq::empty(),
                lighting: Seq::empty(),
            }),
    {
        let recording = PrimaryCommandBuffer {
            framebuffer,
            clear_values: [
                ClearValue::Float([ZERO, ZERO, ZERO, ZERO]),
                ClearValue::Float([ZERO, ZERO, ZERO, ZERO]),
                ClearValue::Float([ZERO, ZERO, ZERO, ZERO]),
                ClearValue::Depth(ONE),
            ],
            deferred: Vec::new(),
            lighting: Vec::new(),
        };
        assert(recording@.deferred =~= Seq::empty());
        assert(recording@.lighting =~= Seq::empty());
        recording
    }
}

/// A finished primary recording, and the future that it must be submitted
/// after.
#[derive(Debug)]
pub struct Submission<F> {
    pub after: F,
    pub command_buffer: PrimaryCommandBuffer,
}

/// The number of passes of a frame.
pub const PASS_COUNT: u8 = 3;

/// The phase of the pass that `next_pass` hands out on a frame that has
/// handed out `num_pass` passes before.
pub open spec fn phase_handed_out(num_pass: int) -> Option<Phase> {
    if num_pass == 0 {
        Some(Phase::Deferred)
    } else if num_pass == 1 {
        Some(Phase::Lighting)
    } else if num_pass == 2 {
        Some(Phase::Finished)
    } else {
        None
    }
}

/// The number of passes handed out after one more call of `next_pass`.
pub open spec fn num_pass_after(num_pass: int) -> int {
    if num_pass < PASS_COUNT {
        num_pass + 1
    } else {
        num_pass
    }
}

/// The number of passes handed out after `calls` more calls of `next_pass`.
pub open spec fn num_pass_after_calls(num_pass: int, calls: nat) -> int
    decreases calls,
{
    if calls == 0 {
        num_pass
    } else {
        num_pass_after(num_pass_after_calls(num_pass, (calls - 1) as nat))
    }
}

/// On a fresh frame the calls of `next_pass` hand out the deferred pass, the
/// lighting pass, the finished frame, and from then on nothing, however
/// often it is called.
pub proof fn lemma_phase_sequence(calls: nat)
    ensures
        num_pass_after_calls(0, calls) == (if calls < 3 {
            calls as int
        } else {
            3
        }),
        phase_handed_out(num_pass_after_calls(0, calls)) == (if calls == 0 {
            Some(Phase::Deferred)
        } else if calls == 1 {
            Some(Phase::Lighting)
        } else if calls == 2 {
            Some(Phase::Finished)
        } else {
            None
        }),
    decreases calls,
{
    if calls > 0 {
        lemma_phase_sequence((calls - 1) as nat);
    }
}

pub struct Frame<'a, F> {
    system: &'a FrameSystem,
    num_pass: u8,
    framebuffer: Framebuffer,
    before_main_cb_future: Option<F>,
    command_buffer_builder: Option<PrimaryCommandBuffer>,
    world_to_framebuffer: Matrix4,
    framebuffer_to_world: Option<Matrix4>,
    gbuffer_recreated: bool,
}

impl<'a, F> Frame<'a, F> {
    /// The frame system that opened the frame.
    pub closed spec fn system(&self) -> FrameSystem {
        *self.system
    }

    /// How many passes were handed out: 0 on a fresh frame, then 1 while the
    /// geometry is recorded, 2 while the lights are recorded, 3 once the
    /// frame is finished.
    pub closed spec fn num_pass(&self) -> int {
        self.num_pass as int
    }

    /// The images that the frame draws to.
    pub closed spec fn framebuffer(&self) -> Framebuffer {
        self.framebuffer
    }

    /// The future that the frame waits for, until the frame is finished.
    pub closed spec fn future(&self) -> Option<F> {
        self.before_main_cb_future
    }

    /// What the frame has recorded, until the frame is finished.
    pub closed spec fn recording(&self) -> Option<PrimaryCommandBufferView> {
        match self.command_buffer_builder {
            Some(builder) => Some(builder@),
            None => None,
        }
    }

    /// The view transform of the frame.
    pub closed spec fn world_to_framebuffer(&self) -> Matrix4 {
        self.world_to_framebuffer
    }

    /// The inverse of the view transform, if it has one.
    pub closed spec fn framebuffer_to_world(&self) -> Option<Matrix4> {
        self.framebuffer_to_world
    }

    /// Whether the G-buffer was made anew when the frame was opened.
    pub closed spec fn gbuffer_recreated(&self) -> bool {
        self.gbuffer_recreated
    }

    /// The frame holds its future and its recording exactly until it is
    /// finished; the recording draws to the framebuffer of the frame, which
    /// fits the render pass and holds the G-buffer of the frame system;
    /// nothing is recorded for the second subpass before the frame reaches
    /// it.
    pub open spec fn wf(&self) -> bool {
        &&& self.system().wf()
        &&& 0 <= self.num_pass() <= PASS_COUNT
        &&& self.num_pass() < PASS_COUNT <==> self.future() is Some
        &&& self.num_pass() < PASS_COUNT <==> self.recording() is Some
        &&& self.framebuffer().fits()
        &&& self.framebuffer().render_pass == self.system().render_pass()
        &&& self.framebuffer().attachments[1] == self.system().gbuffer().diffuse
        &&& self.framebuffer().attachments[2] == self.system().gbuffer().normals
        &&& self.framebuffer().attachments[3] == self.system().gbuffer().depth
        &&& self.recording() matches Some(recording) ==> {
            &&& recording.wf()
            &&& recording.framebuffer == self.framebuffer()
            &&& recording.clear_values == clear_values_spec()
            &&& self.num_pass() < 2 ==> recording.lighting.len() == 0
        }
    }

    /// Whether `other` is this frame in another phase: all but the number of
    /// passes is the same.
    pub open spec fn same_but_pass(&self, other: &Frame<'a, F>) -> bool {
        &&& self.system() == other.system()
        &&& self.framebuffer() == other.framebuffer()
        &&& self.future() == other.future()
        &&& self.recording() == other.recording()
        &&& self.world_to_framebuffer() == other.world_to_framebuffer()
        &&& self.framebuffer_to_world() == other.framebuffer_to_world()
        &&& self.gbuffer_recreated() == other.gbuffer_recreated()
    }

    /// Whether `other` is this frame with another recording: all but what
    /// was recorded is the same.
    pub open spec fn same_but_recording(&self, other: &Frame<'a, F>) -> bool {
        &&& self.system() == other.system()
        &&& self.num_pass() == other.num_pass()
        &&& self.framebuffer() == other.framebuffer()
        &&& self.future() == other.future()
        &&& self.world_to_framebuffer() == other.world_to_framebuffer()
        &&& self.framebuffer_to_world() == other.framebuffer_to_world()
        &&& self.gbuffer_recreated() == other.gbuffer_recreated()
    }

    /// A fresh frame of the frame system: it waits for `before_future` and
    /// continues the recording given, which has begun the render pass.
    pub fn new(
        system: &'a FrameSystem,
        before_main_cb_future: F,
        command_buffer_builder: PrimaryCommandBuffer,
        world_to_framebuffer: Matrix4,
        framebuffer_to_world: Option<Matrix4>,
    ) -> (frame: Frame<'a, F>)
        ensures
            frame.system() == *system,
            frame.num_pass() == 0,
            frame.framebuffer() == command_buffer_builder.framebuffer,
            frame.future() == Some(before_main_cb_future),
            frame.recording() == Some(command_buffer_builder@),
            frame.world_to_framebuffer() == world_to_framebuffer,
            frame.framebuffer_to_world() == framebuffer_to_world,
            frame.gbuffer_recreated() == false,
    {
        Frame {
            system,
            num_pass: 0,
            framebuffer: command_buffer_builder.framebuffer,
            before_main_cb_future: Some(before_main_cb_future),
            command_buffer_builder: Some(command_buffer_builder),
            world_to_framebuffer,
            framebuffer_to_world,
            gbuffer_recreated: false,
        }
    }

    /// A fresh frame, as the frame system opens it.
    pub(crate) fn open(
        system: &'a FrameSystem,
        before_main_cb_future: F,
        command_buffer_builder: PrimaryCommandBuffer,
        world_to_framebuffer: Matrix4,
        framebuffer_to_world: Option<Matrix4>,
        gbuffer_recreated: bool,
    ) -> (frame: Frame<'a, F>)
        ensures
            frame.system() == *system,
            frame.num_pass() == 0,
            frame.framebuffer() == command_buffer_builder.framebuffer,
            frame.future() == Some(before_main_cb_future),
            frame.recording() == Some(command_buffer_builder@),
            frame.world_to_framebuffer() == world_to_framebuffer,
            frame.framebuffer_to_world() == framebuffer_to_world,
            frame.gbuffer_recreated() == gbuffer_recreated,
    {
        Frame {
            system,
            num_pass: 0,
            framebuffer: command_buffer_builder.framebuffer,
            before_main_cb_future: Some(before_main_cb_future),
            command_buffer_builder: Some(command_buffer_builder),
            world_to_framebuffer,
            framebuffer_to_world,
            gbuffer_recreated,
        }
    }

    /// How many passes were handed out.
    pub fn passes_started(&self) -> (count: u8)
        ensures
            count == self.num_pass(),
    {
        self.num_pass
    }

    /// Whether the G-buffer was made anew when the frame was opened.
    pub fn recreated_gbuffer(&self) -> (recreated: bool)
        ensures
            recreated == self.gbuffer_recreated(),
    {
        self.gbuffer_recreated
    }

    /// The images that the frame draws to.
    pub fn target(&self) -> (framebuffer: Framebuffer)
        ensures
            framebuffer == self.framebuffer(),
    {
        self.framebuffer
    }

    /// The frame system that opened the frame.
    pub fn frame_system(&self) -> (system: &'a FrameSystem)
        ensures
            *system == self.system(),
    {
        self.system
    }

    /// The view transform of the frame.
    pub fn view_transform(&self) -> (matrix: Matrix4)
        ensures
            matrix == self.world_to_framebuffer(),
    {
        self.world_to_framebuffer
    }

    /// The inverse of the view transform, if it has one.
    pub fn inverse_view_transform(&self) -> (matrix: Option<Matrix4>)
        ensures
            matrix == self.framebuffer_to_world(),
    {
        self.framebuffer_to_world
    }

    /// Appends a recording to the first subpass.
    pub(crate) fn record_deferred(&mut self, recording: SecondaryRecording)
        requires
            old(self).wf(),
            old(self).num_pass() < PASS_COUNT,
            recording@.subpass_id() == DEFERRED_SUBPASS,
        ensures
            final(self).wf(),
            final(self).same_but_recording(old(self)),
            final(self).recording() == Some(
                (PrimaryCommandBufferView {
                    deferred: old(self).recording()->0.deferred.push(recording@),
                    ..old(self).recording()->0
                }),
            ),
    {
        let mut builder = self.command_buffer_builder.take().unwrap();
        proof {
            crate::renderer::recording::lemma_recording_views_push(builder.deferred@, recording);
        }
        builder.deferred.push(recording);
        self.command_buffer_builder = Some(builder);
    }

    /// Appends a recording to the second subpass.
    pub(crate) fn record_lighting(&mut self, recording: SecondaryRecording)
        requires
            old(self).wf(),
            old(self).num_pass() == 2,
            recording@.subpass_id() == LIGHTING_SUBPASS,
        ensures
            final(self).wf(),
            final(self).same_but_recording(old(self)),
            final(self).recording() == Some(
                (PrimaryCommandBufferView {
                    lighting: old(self).recording()->0.lighting.push(recording@),
                    ..old(self).recording()->0
                }),
            ),
    {
        let mut builder = self.command_buffer_builder.take().unwrap();
        proof {
            crate::renderer::recording::lemma_recording_views_push(builder.lighting@, recording);
        }
        builder.lighting.push(recording);
        self.command_buffer_builder = Some(builder);
    }

    /// Moves the frame to its next pass and hands out that pass.
    ///
    /// The first call hands out the pass that records geometry, with the
    /// first subpass active. The second moves the render pass to its second
    /// subpass and hands out the lighting pass. The third ends the render
    /// pass and hands out the finished recording with the future that it
    /// must be submitted after. Every later call hands out nothing and
    /// leaves the frame as it is.
    pub fn next_pass<'f>(&'f mut self) -> (pass: Option<Pass<'f, 'a, F>>)
        requires
            old(self).wf(),
        ensures
            phase_of(pass) == phase_handed_out(old(self).num_pass()),
            match pass {
                Some(Pass::Deferred(draw_pass)) => {
                    &&& old(self).num_pass() == 0
                    &&& draw_pass.frame.num_pass() == num_pass_after(old(self).num_pass())
                    &&& draw_pass.wf()
                    &&& draw_pass.frame.same_but_pass(old(self))
                    &&& *final(self) == *final(draw_pass.frame)
                },
                Some(Pass::Lighting(lighting_pass)) => {
                    &&& old(self).num_pass() == 1
                    &&& lighting_pass.frame.num_pass() == num_pass_after(old(self).num_pass())
                    &&& lighting_pass.wf()
                    &&& lighting_pass.frame.same_but_pass(old(self))
                    &&& *final(self) == *final(lighting_pass.frame)
                },
                Some(Pass::Finished(submission)) => {
                    &&& old(self).num_pass() == 2
                    &&& Some(submission.after) == old(self).future()
                    &&& Some(submission.command_buffer@) == old(self).recording()
                    &&& final(self).wf()
                    &&& final(self).num_pass() == num_pass_after(old(self).num_pass())
                    &&& final(self).system() == old(self).system()
                    &&& final(self).framebuffer() == old(self).framebuffer()
                    &&& final(self).world_to_framebuffer() == old(self).world_to_framebuffer()
                    &&& final(self).framebuffer_to_world() == old(self).framebuffer_to_world()
                    &&& final(self).gbuffer_recreated() == old(self).gbuffer_recreated()
                },
                None => {
                    &&& old(self).num_pass() == PASS_COUNT
                    &&& final(self).num_pass() == num_pass_after(old(self).num_pass())
                    &&& *final(self) == *old(self)
                },
            },
    {
        let current_pass = self.num_pass;
        if current_pass == 0 {
            self.num_pass = 1;
            Some(Pass::Deferred(DrawPass { frame: self }))
        } else if current_pass == 1 {
            self.num_pass = 2;
            Some(Pass::Lighting(LightingPass { frame: self }))
        } else if current_pass == 2 {
            self.num_pass = 3;
            let command_buffer = self.command_buffer_builder.take().unwrap();
            let after = self.before_main_cb_future.take().unwrap();
            Some(Pass::Finished(Submission { after, command_buffer }))
        } else {
            None
        }
    }
}

} // verus!
