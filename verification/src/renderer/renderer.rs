//! The renderer: keeps the swapchain bookkeeping and records whole frames.
//!
//! The device work between its steps is done by the host: recreating the
//! swapchain, acquiring an image, waiting for a fence, submitting and
//! presenting. The renderer decides what is to be done next and takes note
//! of what the device answered.

use crate::renderer::error::RenderError;
use crate::renderer::frame::{Framebuffer, PrimaryCommandBufferView, Submission};
use crate::renderer::frame_system::{clear_values_spec, FrameSystem};
use crate::renderer::geometry::GeometrySystem;
use crate::renderer::geometry_shaders::{FrameData, VertexPositionColorNormal};
use crate::renderer::image::{Format, ImageView};
use crate::renderer::light::{
    all_recordable,
    lemma_recordable_prefix,
    light_recordings,
    recordable_prefix,
    Light,
};
use crate::renderer::linear::Matrix4;
use crate::renderer::pass::{LightingPass, Pass};
use crate::renderer::recording::SecondaryRecordingView;
use vstd::pervasive::unreached;
use vstd::prelude::*;

verus! {

/// Records the lights of a list on the lighting pass, in the order of the
/// list, after the lights that the pass has recorded already. It stops at
/// the first light that cannot be recorded, which is a point light on a
/// frame whose view transform has no inverse, and fails then; the lights
/// before that one are recorded.
#[verifier::loop_isolation(false)]
pub fn render_lighting<'f, 's, F>(mut lighting: LightingPass<'f, 's, F>, lights: &Vec<Light>) -> (done:
    Result<(), RenderError>)
    requires
        lighting.wf(),
    ensures
        final(lighting.frame).wf(),
        final(lighting.frame).same_but_recording(old(lighting.frame)),
        done is Ok <==> all_recordable(
            lights@,
            lights@.len() as int,
            old(lighting.frame).framebuffer_to_world(),
        ),
        done is Err ==> done->Err_0 == RenderError::ViewNotInvertible,
        final(lighting.frame).recording() == Some(
            (PrimaryCommandBufferView {
                lighting: old(lighting.frame).recording()->0.lighting + light_recordings(
                    lights@,
                    recordable_prefix(lights@, old(lighting.frame).framebuffer_to_world()),
                    old(lighting.frame).system(),
                    old(lighting.frame).framebuffer().extent_spec(),
                    old(lighting.frame).framebuffer_to_world(),
                ),
                ..old(lighting.frame).recording()->0
            }),
        ),
{
    let ghost before = lighting;
    let mut i: usize = 0;
    assert(lighting.lights() =~= before.lights() + light_recordings(
        lights@,
        0,
        before.frame.system(),
        before.frame.framebuffer().extent_spec(),
        before.frame.framebuffer_to_world(),
    ));
    while i < lights.len()
        invariant
            i <= lights@.len(),
            lighting.wf(),
            *final(lighting.frame) == *final(before.frame),
            lighting.frame.same_but_recording(before.frame),
            all_recordable(lights@, i as int, before.frame.framebuffer_to_world()),
            lighting.frame.recording() == Some(
                (PrimaryCommandBufferView {
                    lighting: before.lights() + light_recordings(
                        lights@,
                        i as int,
                        before.frame.system(),
                        before.frame.framebuffer().extent_spec(),
                        before.frame.framebuffer_to_world(),
                    ),
                    ..before.frame.recording()->0
                }),
            ),
        decreases lights@.len() - i,
    {
        match lighting.light(lights[i]) {
            Ok(()) => {},
            Err(error) => {
                proof {
                    assert(!lights@[i as int].recordable(before.frame.framebuffer_to_world()));
                    lemma_recordable_prefix(
                        lights@,
                        before.frame.framebuffer_to_world(),
                        i as int,
                    );
                }
                return Err(error);
            },
        }
        i = i + 1;
        assert(lighting.lights() =~= before.lights() + light_recordings(
            lights@,
            i as int,
            before.frame.system(),
            before.frame.framebuffer().extent_spec(),
            before.frame.framebuffer_to_world(),
        ));
    }
    proof {
        lemma_recordable_prefix(lights@, before.frame.framebuffer_to_world(), i as int);
    }
    Ok(())
}

/// What the device answered when the next image of the swapchain was asked
/// for.
#[derive(Clone, Copy, Debug, PartialEq, Eq)]
pub enum AcquireOutcome {
    /// The image of this number was acquired. A suboptimal swapchain could
    /// still present, but no longer fits the surface.
    Ready { image_index: u32, suboptimal: bool },
    /// The swapchain no longer fits the surface at all.
    OutOfDate,
}

/// What the host does first when a frame is asked for.
#[derive(Clone, Copy, Debug, PartialEq, Eq)]
pub enum RenderStep {
    /// Nothing: the window has no area.
    Skip,
    /// Acquire the next image of the swapchain, after recreating the
    /// swapchain in the given extent if one is given.
    Acquire { recreate: Option<[u32; 2]> },
}

/// How the host chains the work of a frame once its image is acquired.
#[derive(Clone, Copy, Debug, PartialEq, Eq)]
pub struct SlotPlan {
    /// The slot of the frame: the number of the acquired image.
    pub image_index: u32,
    /// Whether the slot holds the fence of the frame that was drawn to this
    /// image before. If it does, the host waits for the fence unless it has
    /// signalled already, and chains the new work after it. If it does not,
    /// the new work starts from a future that is already complete.
    pub slot_holds_fence: bool,
}

/// What the device answered when the frame was submitted and presented.
#[derive(Debug)]
pub enum FlushOutcome<F> {
    /// The work was handed to the device; the fence signals its end.
    Signaled(F),
    /// The swapchain no longer fits the surface.
    OutOfDate,
    /// The work could not be handed to the device.
    Failed,
}

pub struct Renderer<F> {
    frame_system: FrameSystem,
    geometry_system: GeometrySystem,
    window_size: [u32; 2],
    recreate_swapchain: bool,
    fences: Vec<Option<F>>,
    uniform_buffers: Vec<FrameData>,
}

/// The number of frames in flight: the slots that hold a fence.
pub open spec fn in_flight<F>(fences: Seq<Option<F>>) -> nat {
    fences.filter(|fence: Option<F>| fence is Some).len()
}

/// There are never more frames in flight than the swapchain has images.
pub proof fn lemma_frames_in_flight_are_bounded<F>(fences: Seq<Option<F>>)
    ensures
        in_flight(fences) <= fences.len(),
{
    fences.lemma_filter_len(|fence: Option<F>| fence is Some);
}

/// Whether a window of this size has no area.
pub open spec fn zero_sized(size: [u32; 2]) -> bool {
    size[0] == 0 || size[1] == 0
}

/// What the renderer knows of the window and its swapchain.
pub struct SwapchainState {
    /// Width and height of the window, as last reported.
    pub size: [u32; 2],
    /// Whether the swapchain is to be recreated before the next frame.
    pub recreate_pending: bool,
}

impl SwapchainState {
    /// The state after the window was resized.
    pub open spec fn resized(self, new_size: [u32; 2]) -> SwapchainState {
        SwapchainState { size: new_size, recreate_pending: true }
    }

    /// The first step of a frame in this state.
    pub open spec fn first_step(self) -> RenderStep {
        if zero_sized(self.size) {
            RenderStep::Skip
        } else {
            RenderStep::Acquire {
                recreate: if self.recreate_pending {
                    Some(self.size)
                } else {
                    None
                },
            }
        }
    }

    /// The state after the first step of a frame.
    pub open spec fn begun(self) -> SwapchainState {
        if zero_sized(self.size) {
            self
        } else {
            SwapchainState { size: self.size, recreate_pending: false }
        }
    }
}

/// While the window has no area a frame is skipped whole, however often the
/// window was resized: nothing is recreated, and the recreation that the
/// resize asked for stays pending.
pub proof fn lemma_zero_sized_window_draws_nothing(state: SwapchainState, new_size: [u32; 2])
    requires
        zero_sized(new_size),
    ensures
        state.resized(new_size).first_step() == RenderStep::Skip,
        state.resized(new_size).begun() == state.resized(new_size),
        state.resized(new_size).begun().recreate_pending,
{
}

/// A resize to a window with an area recreates the swapchain exactly once,
/// in the new size, at the first frame after it.
pub proof fn lemma_resize_recreates_once(state: SwapchainState, new_size: [u32; 2])
    requires
        !zero_sized(new_size),
    ensures
        state.resized(new_size).first_step() == (RenderStep::Acquire {
            recreate: Some(new_size),
        }),
        state.resized(new_size).begun().first_step() == (RenderStep::Acquire { recreate: None }),
{
}

impl<F> Renderer<F> {
    /// The frame system of the renderer.
    pub closed spec fn frame_system(&self) -> FrameSystem {
        self.frame_system
    }

    /// The geometry subsystem of the renderer.
    pub closed spec fn geometry_system(&self) -> GeometrySystem {
        self.geometry_system
    }

    /// Width and height of the window, as last reported.
    pub closed spec fn size(&self) -> [u32; 2] {
        self.window_size
    }

    /// Whether the swapchain is to be recreated before the next frame.
    pub closed spec fn recreate_pending(&self) -> bool {
        self.recreate_swapchain
    }

    /// What the renderer knows of the window and its swapchain.
    pub open spec fn swapchain_state(&self) -> SwapchainState {
        SwapchainState { size: self.size(), recreate_pending: self.recreate_pending() }
    }

    /// The fence of each slot, one slot per image of the swapchain.
    pub closed spec fn fences(&self) -> Seq<Option<F>> {
        self.fences@
    }

    /// The camera data of each slot, one slot per image of the swapchain.
    pub closed spec fn uniforms(&self) -> Seq<FrameData> {
        self.uniform_buffers@
    }

    /// Both subsystems are well formed, the geometry is drawn in the first
    /// subpass of the frame system, and every slot has its camera data.
    pub open spec fn wf(&self) -> bool {
        &&& self.frame_system().wf()
        &&& self.geometry_system().wf()
        &&& self.geometry_system().subpass() == self.frame_system().deferred_subpass_spec()
        &&& self.fences().len() <= u32::MAX
        &&& self.uniforms().len() == self.fences().len()
    }

    /// All but the swapchain bookkeeping is the same in `other`.
    pub open spec fn same_scene(&self, other: &Renderer<F>) -> bool {
        &&& self.frame_system() == other.frame_system()
        &&& self.geometry_system() == other.geometry_system()
    }

    /// The swapchain bookkeeping is the same in `other`.
    pub open spec fn same_swapchain(&self, other: &Renderer<F>) -> bool {
        &&& self.size() == other.size()
        &&& self.recreate_pending() == other.recreate_pending()
        &&& self.fences() == other.fences()
        &&& self.uniforms() == other.uniforms()
    }

    /// A renderer for a swapchain of `image_count` images of the given
    /// format, on a window of the given size. No slot holds a fence, and the
    /// swapchain is recreated before the first frame. It fails if and only
    /// if the format holds no colour.
    pub fn new(image_format: Format, image_count: u32, window_size: [u32; 2]) -> (renderer: Result<
        Renderer<F>,
        RenderError,
    >)
        ensures
            renderer is Ok <==> image_format.is_color_spec(),
            renderer is Err ==> renderer->Err_0 == RenderError::TargetFormatNotColor,
            renderer is Ok ==> {
                let renderer = renderer->Ok_0;
                &&& renderer.wf()
                &&& renderer.frame_system().render_pass()
                    == crate::renderer::render_pass::RenderPass::deferred_spec(image_format)
                &&& renderer.frame_system().gbuffer()
                    == crate::renderer::frame_system::GBuffer::initial()
                &&& renderer.geometry_system().meshes().len() == 0
                &&& renderer.geometry_system().objects().len() == 0
                &&& renderer.size() == window_size
                &&& renderer.recreate_pending()
                &&& renderer.fences().len() == image_count
                &&& forall|i: int| 0 <= i < image_count ==> renderer.fences()[i] is None
                &&& forall|i: int|
                    0 <= i < image_count ==> renderer.uniforms()[i] == (FrameData {
                        view: Matrix4::identity_spec(),
                        proj: Matrix4::identity_spec(),
                    })
            },
    {
        let frame_system = match FrameSystem::new(image_format) {
            Ok(frame_system) => frame_system,
            Err(error) => {
                return Err(error);
            },
        };
        let geometry_system = GeometrySystem::new(frame_system.deferred_subpass());
        let mut fences: Vec<Option<F>> = Vec::new();
        let mut uniform_buffers: Vec<FrameData> = Vec::new();
        let mut i: u32 = 0;
        while i < image_count
            invariant
                i <= image_count,
                fences@.len() == i,
                uniform_buffers@.len() == i,
                forall|j: int| 0 <= j < i ==> fences@[j] is None,
                forall|j: int|
                    0 <= j < i ==> uniform_buffers@[j] == (FrameData {
                        view: Matrix4::identity_spec(),
                        proj: Matrix4::identity_spec(),
                    }),
            decreases image_count - i,
        {
            fences.push(None);
            uniform_buffers.push(
                FrameData { view: Matrix4::identity(), proj: Matrix4::identity() },
            );
            i = i + 1;
        }
        Ok(
            Renderer {
                frame_system,
                geometry_system,
                window_size,
                recreate_swapchain: true,
                fences,
                uniform_buffers,
            },
        )
    }

    /// Submits one object for the coming frame.
    pub fn enqueue_mesh(&mut self, mesh_id: usize, model: Matrix4)
        requires
            old(self).wf(),
            old(self).geometry_system().objects().len() < u32::MAX,
        ensures
            final(self).wf(),
            final(self).same_swapchain(old(self)),
            final(self).frame_system() == old(self).frame_system(),
            final(self).geometry_system().objects() == old(self).geometry_system().objects().push(
                (mesh_id, crate::renderer::geometry_shaders::ObjectData { model }),
            ),
            final(self).geometry_system().meshes() == old(self).geometry_system().meshes(),
            final(self).geometry_system().camera() == old(self).geometry_system().camera(),
    {
        self.geometry_system.enqueue_mesh(mesh_id, model);
    }

    /// Replaces the camera: projection first, view second.
    pub fn set_camera_params(&mut self, matrices: (Matrix4, Matrix4))
        requires
            old(self).wf(),
        ensures
            final(self).wf(),
            final(self).same_swapchain(old(self)),
            final(self).frame_system() == old(self).frame_system(),
            final(self).geometry_system().camera() == matrices,
            final(self).geometry_system().meshes() == old(self).geometry_system().meshes(),
            final(self).geometry_system().objects() == old(self).geometry_system().objects(),
    {
        self.geometry_system.set_camera_params(matrices);
    }

    /// Stores a mesh for good and returns its handle: the number of meshes
    /// created before it.
    pub fn create_mesh(&mut self, verts: Vec<VertexPositionColorNormal>, indices: Vec<u16>) -> (handle:
        usize)
        requires
            old(self).wf(),
            indices@.len() <= u32::MAX,
        ensures
            final(self).wf(),
            final(self).same_swapchain(old(self)),
            final(self).frame_system() == old(self).frame_system(),
            handle == old(self).geometry_system().meshes().len(),
            final(self).geometry_system().meshes().len() == handle + 1,
            final(self).geometry_system().meshes()[handle as int].vertex_buffer@ == verts@,
            final(self).geometry_system().meshes()[handle as int].index_buffer@ == indices@,
            forall|h: int|
                0 <= h < handle ==> final(self).geometry_system().meshes()[h] == old(
                    self,
                ).geometry_system().meshes()[h],
            final(self).geometry_system().objects() == old(self).geometry_system().objects(),
            final(self).geometry_system().camera() == old(self).geometry_system().camera(),
    {
        self.geometry_system.create_mesh(verts, indices)
    }

    /// Takes note that the window was resized. Nothing is recreated now: the
    /// swapchain is recreated when the next frame is asked for.
    pub fn resize(&mut self, new_size: [u32; 2])
        ensures
            final(self).swapchain_state() == old(self).swapchain_state().resized(new_size),
            final(self).same_scene(old(self)),
            final(self).fences() == old(self).fences(),
            final(self).uniforms() == old(self).uniforms(),
    {
        self.recreate_swapchain = true;
        self.window_size = new_size;
    }

    /// Width and height of the window, as last reported.
    pub fn window_size(&self) -> (size: [u32; 2])
        ensures
            size == self.size(),
    {
        self.window_size
    }

    /// Whether the swapchain is to be recreated before the next frame.
    pub fn swapchain_recreation_pending(&self) -> (pending: bool)
        ensures
            pending == self.recreate_pending(),
    {
        self.recreate_swapchain
    }

    /// The number of slots: one per image of the swapchain.
    pub fn slot_count(&self) -> (count: usize)
        ensures
            count == self.fences().len(),
    {
        self.fences.len()
    }

    /// The number of frames in flight: the slots that hold a fence. It never
    /// exceeds the number of slots.
    pub fn frames_in_flight(&self) -> (count: usize)
        ensures
            count == in_flight(self.fences()),
            count <= self.fences().len(),
    {
        let ghost holds_fence = |fence: Option<F>| fence is Some;
        let mut count: usize = 0;
        let mut i: usize = 0;
        while i < self.fences.len()
            invariant
                i <= self.fences@.len(),
                holds_fence == (|fence: Option<F>| fence is Some),
                count == self.fences@.subrange(0, i as int).filter(holds_fence).len(),
                count <= i,
            decreases self.fences@.len() - i,
        {
            proof {
                reveal(Seq::filter);
                assert(self.fences@.subrange(0, i + 1).drop_last() =~= self.fences@.subrange(
                    0,
                    i as int,
                ));
            }
            if self.fences[i].is_some() {
                count = count + 1;
            }
            i = i + 1;
        }
        assert(self.fences@.subrange(0, i as int) =~= self.fences@);
        count
    }

    /// The fence that a slot holds.
    pub fn fence(&self, slot: u32) -> (fence: &Option<F>)
        requires
            slot < self.fences().len(),
        ensures
            *fence == self.fences()[slot as int],
    {
        &self.fences[slot as usize]
    }

    /// The camera data that a slot holds.
    pub fn uniform_buffer(&self, slot: u32) -> (data: FrameData)
        requires
            slot < self.uniforms().len(),
        ensures
            data == self.uniforms()[slot as int],
    {
        self.uniform_buffers[slot as usize]
    }

    /// Writes the current camera to the camera data of a slot. The other
    /// slots keep theirs.
    pub fn update_uniforms(&mut self, index: u32)
        requires
            old(self).wf(),
            index < old(self).uniforms().len(),
        ensures
            final(self).wf(),
            final(self).same_scene(old(self)),
            final(self).swapchain_state() == old(self).swapchain_state(),
            final(self).fences() == old(self).fences(),
            final(self).uniforms() == old(self).uniforms().update(
                index as int,
                (FrameData {
                    view: old(self).geometry_system().camera().1,
                    proj: old(self).geometry_system().camera().0,
                }),
            ),
    {
        let camera = self.geometry_system.camera_params();
        self.uniform_buffers[index as usize] = FrameData { view: camera.1, proj: camera.0 };
    }

    /// The number of meshes created so far.
    pub fn mesh_count(&self) -> (count: usize)
        ensures
            count == self.geometry_system().meshes().len(),
    {
        self.geometry_system.mesh_count()
    }

    /// The number of objects submitted since the last frame.
    pub fn object_count(&self) -> (count: usize)
        ensures
            count == self.geometry_system().objects().len(),
    {
        self.geometry_system.object_count()
    }

    /// The geometry subsystem.
    pub fn geometry(&self) -> (system: &GeometrySystem)
        ensures
            *system == self.geometry_system(),
    {
        &self.geometry_system
    }

    /// The frame system.
    pub fn frames(&self) -> (system: &FrameSystem)
        ensures
            *system == self.frame_system(),
    {
        &self.frame_system
    }

    /// The first step of a frame.
    ///
    /// While the window has no area nothing is done, and nothing changes:
    /// a pending recreation stays pending. Otherwise the next image is to be
    /// acquired, and before that the swapchain is to be recreated in the
    /// size of the window if a recreation is pending, which then no longer
    /// is.
    pub fn begin_render(&mut self) -> (step: RenderStep)
        ensures
            step == old(self).swapchain_state().first_step(),
            final(self).swapchain_state() == old(self).swapchain_state().begun(),
            final(self).same_scene(old(self)),
            final(self).fences() == old(self).fences(),
            final(self).uniforms() == old(self).uniforms(),
    {
        if self.window_size[0] == 0 || self.window_size[1] == 0 {
            return RenderStep::Skip;
        }
        if self.recreate_swapchain {
            self.recreate_swapchain = false;
            RenderStep::Acquire { recreate: Some(self.window_size) }
        } else {
            RenderStep::Acquire { recreate: None }
        }
    }

    /// The slot plan of an acquired image.
    pub open spec fn slot_plan_spec(&self, image_index: u32) -> SlotPlan {
        SlotPlan { image_index, slot_holds_fence: self.fences()[image_index as int] is Some }
    }

    /// Takes note of what acquiring the next image gave.
    ///
    /// A swapchain that is out of date or suboptimal is to be recreated: a
    /// recreation becomes pending, and no frame is drawn this time. On an
    /// image of a swapchain that fits, the frame goes on with the plan for
    /// the slot of the image.
    pub fn image_acquired(&mut self, outcome: AcquireOutcome) -> (plan: Option<SlotPlan>)
        requires
            old(self).wf(),
            outcome matches AcquireOutcome::Ready { image_index, .. } ==> image_index < old(
                self,
            ).fences().len(),
        ensures
            final(self).wf(),
            final(self).same_scene(old(self)),
            final(self).size() == old(self).size(),
            final(self).fences() == old(self).fences(),
            final(self).uniforms() == old(self).uniforms(),
            match outcome {
                AcquireOutcome::OutOfDate => plan is None && final(self).recreate_pending(),
                AcquireOutcome::Ready { image_index, suboptimal } => if suboptimal {
                    plan is None && final(self).recreate_pending()
                } else {
                    &&& plan == Some(old(self).slot_plan_spec(image_index))
                    &&& final(self).recreate_pending() == old(self).recreate_pending()
                },
            },
    {
        match outcome {
            AcquireOutcome::OutOfDate => {
                self.recreate_swapchain = true;
                None
            },
            AcquireOutcome::Ready { image_index, suboptimal } => {
                if suboptimal {
                    self.recreate_swapchain = true;
                    None
                } else {
                    let slot_holds_fence = self.fences[image_index as usize].is_some();
                    Some(SlotPlan { image_index, slot_holds_fence })
                }
            },
        }
    }

    /// Takes note of what submitting and presenting the frame of a slot
    /// gave: the slot holds the new fence if there is one and none
    /// otherwise, and an out-of-date swapchain makes a recreation pending.
    pub fn frame_presented(&mut self, image_index: u32, outcome: FlushOutcome<F>)
        requires
            old(self).wf(),
            image_index < old(self).fences().len(),
        ensures
            final(self).wf(),
            final(self).same_scene(old(self)),
            final(self).size() == old(self).size(),
            final(self).uniforms() == old(self).uniforms(),
            final(self).fences() == old(self).fences().update(
                image_index as int,
                match outcome {
                    FlushOutcome::Signaled(fence) => Some(fence),
                    _ => None,
                },
            ),
            final(self).recreate_pending() == (old(self).recreate_pending()
                || outcome is OutOfDate),
    {
        let fence = match outcome {
            FlushOutcome::Signaled(fence) => Some(fence),
            FlushOutcome::OutOfDate => {
                self.recreate_swapchain = true;
                None
            },
            FlushOutcome::Failed => None,
        };
        self.fences[image_index as usize] = fence;
    }

    /// The framebuffer of a frame on the given target: the target, and the
    /// G-buffer fitted to the extent of the target.
    pub open spec fn framebuffer_spec(&self, final_image_view: ImageView) -> Framebuffer {
        let gbuffer = self.frame_system().gbuffer().fitted(final_image_view.extent);
        Framebuffer {
            render_pass: self.frame_system().render_pass(),
            attachments: [final_image_view, gbuffer.diffuse, gbuffer.normals, gbuffer.depth],
        }
    }

    /// What a frame on the given target records, when it records all of it.
    pub open spec fn frame_spec(
        &self,
        final_image_view: ImageView,
        framebuffer_to_world: Option<Matrix4>,
        lights: Seq<Light>,
    ) -> PrimaryCommandBufferView {
        let gbuffer = self.frame_system().gbuffer().fitted(final_image_view.extent);
        let framebuffer = self.framebuffer_spec(final_image_view);
        PrimaryCommandBufferView {
            framebuffer,
            clear_values: clear_values_spec(),
            deferred: seq![
                SecondaryRecordingView::Geometry(
                    self.geometry_system().recording_spec(framebuffer.extent_spec()),
                ),
            ],
            lighting: Seq::new(
                lights.len(),
                |i: int|
                    lights[i].recording_spec_on(
                        self.frame_system().ambient(),
                        self.frame_system().directional(),
                        self.frame_system().point(),
                        gbuffer,
                        framebuffer.extent_spec(),
                        framebuffer_to_world,
                    ),
            ),
        }
    }

    /// Records one whole frame on an acquired image.
    ///
    /// Opens a frame of the frame system on the image, which fits the
    /// G-buffer to the extent of the image. In the first pass the geometry
    /// subsystem draws all submitted objects, which leaves none submitted;
    /// in the second the lights are recorded in the order of the list. What
    /// comes back is the finished recording, to be submitted after
    /// `before_future`.
    ///
    /// The frame fails before anything is drawn if the render pass cannot
    /// run on the image and the G-buffer, and after the geometry is drawn on
    /// a point light when the view transform has no inverse.
    pub fn render<B>(
        &mut self,
        before_future: B,
        final_image_view: ImageView,
        world_to_framebuffer: Matrix4,
        framebuffer_to_world: Option<Matrix4>,
        lights: &Vec<Light>,
    ) -> (submission: Result<Submission<B>, RenderError>)
        requires
            old(self).wf(),
            old(self).geometry_system().handles_valid(),
        ensures
            final(self).wf(),
            final(self).same_swapchain(old(self)),
            final(self).frame_system().render_pass() == old(self).frame_system().render_pass(),
            final(self).frame_system().ambient() == old(self).frame_system().ambient(),
            final(self).frame_system().directional() == old(self).frame_system().directional(),
            final(self).frame_system().point() == old(self).frame_system().point(),
            final(self).frame_system().gbuffer() == old(self).frame_system().gbuffer().fitted(
                final_image_view.extent,
            ),
            final(self).geometry_system().meshes() == old(self).geometry_system().meshes(),
            final(self).geometry_system().camera() == old(self).geometry_system().camera(),
            !old(self).framebuffer_spec(final_image_view).fits() ==> {
                &&& submission is Err
                &&& submission->Err_0 == (if old(self).framebuffer_spec(
                    final_image_view,
                ).formats_fit() {
                    RenderError::AttachmentUsage
                } else {
                    RenderError::AttachmentFormatMismatch
                })
                &&& final(self).geometry_system().objects() == old(
                    self,
                ).geometry_system().objects()
            },
            old(self).framebuffer_spec(final_image_view).fits() ==> {
                &&& final(self).geometry_system().objects().len() == 0
                &&& submission is Ok <==> all_recordable(
                    lights@,
                    lights@.len() as int,
                    framebuffer_to_world,
                )
                &&& submission is Err ==> submission->Err_0 == RenderError::ViewNotInvertible
            },
            submission is Ok ==> {
                &&& submission->Ok_0.after == before_future
                &&& submission->Ok_0.command_buffer@ == old(self).frame_spec(
                    final_image_view,
                    framebuffer_to_world,
                    lights@,
                )
            },
    {
        let mut frame = match self.frame_system.frame(
            before_future,
            final_image_view,
            world_to_framebuffer,
            framebuffer_to_world,
        ) {
            Ok(frame) => frame,
            Err(error) => {
                return Err(error);
            },
        };
        match frame.next_pass() {
            Some(Pass::Deferred(mut draw_pass)) => {
                let command_buffer = self.geometry_system.draw(draw_pass.viewport_dimensions());
                match draw_pass.execute(command_buffer) {
                    Ok(()) => {},
                    Err(error) => {
                        return Err(error);
                    },
                }
            },
            _ => {
                unreached::<()>();
            },
        }
        match frame.next_pass() {
            Some(Pass::Lighting(lighting)) => {
                match render_lighting(lighting, lights) {
                    Ok(()) => {
                        proof {
                            lemma_recordable_prefix(
                                lights@,
                                framebuffer_to_world,
                                lights@.len() as int,
                            );
                        }
                    },
                    Err(error) => {
                        return Err(error);
                    },
                }
            },
            _ => {
                unreached::<()>();
            },
        }
        match frame.next_pass() {
            Some(Pass::Finished(submission)) => {
                proof {
                    assert(submission.command_buffer@.deferred =~= old(self).frame_spec(
                        final_image_view,
                        framebuffer_to_world,
                        lights@,
                    ).deferred);
                    assert(submission.command_buffer@.lighting =~= old(self).frame_spec(
                        final_image_view,
                        framebuffer_to_world,
                        lights@,
                    ).lighting);
                }
                Ok(submission)
            },
            _ => unreached(),
        }
    }
}

} // verus!
