//! The frame system: owns the render pass, the G-buffer images and the three
//! lighting subsystems, and opens a frame for each image to draw to.

use crate::renderer::error::RenderError;
use crate::renderer::frame::{
    ClearValue,
    Frame,
    Framebuffer,
    PrimaryCommandBuffer,
    PrimaryCommandBufferView,
};
use crate::renderer::image::{same_extent, Format, ImageUsage, ImageView};
use crate::renderer::lighting::{Ambient, Directional, Point};
use crate::renderer::linear::{Matrix4, ONE, ZERO};
use crate::renderer::render_pass::{RenderPass, Subpass, DEFERRED_SUBPASS, LIGHTING_SUBPASS};
use vstd::prelude::*;

verus! {

pub struct FrameSystem {
    render_pass: RenderPass,
    diffuse_buffer: ImageView,
    normals_buffer: ImageView,
    depth_buffer: ImageView,
    ambient_lighting_system: Ambient,
    directional_lighting_system: Directional,
    point_lighting_system: Point,
}

/// The usage of a G-buffer image that a subpass writes as colour and a later
/// one reads.
pub open spec fn color_gbuffer_usage() -> ImageUsage {
    ImageUsage {
        color_attachment: true,
        depth_stencil_attachment: false,
        transient_attachment: true,
        input_attachment: true,
    }
}

/// The usage of the G-buffer image that holds depth.
pub open spec fn depth_gbuffer_usage() -> ImageUsage {
    ImageUsage {
        color_attachment: false,
        depth_stencil_attachment: true,
        transient_attachment: true,
        input_attachment: true,
    }
}

/// The usage of a G-buffer image that is only a stand-in until the first
/// frame gives the images their size.
pub open spec fn placeholder_usage() -> ImageUsage {
    ImageUsage {
        color_attachment: false,
        depth_stencil_attachment: false,
        transient_attachment: true,
        input_attachment: true,
    }
}

/// The three G-buffer images of a frame system: albedo, normals, depth.
pub struct GBuffer {
    pub diffuse: ImageView,
    pub normals: ImageView,
    pub depth: ImageView,
}

impl GBuffer {
    /// The images that a new frame system starts with: one texel each.
    pub open spec fn initial() -> GBuffer {
        GBuffer {
            diffuse: ImageView {
                extent: [1, 1, 1],
                format: Format::A2B10G10R10_UNORM_PACK32,
                usage: color_gbuffer_usage(),
            },
            normals: ImageView {
                extent: [1, 1, 1],
                format: Format::R16G16B16A16_SFLOAT,
                usage: placeholder_usage(),
            },
            depth: ImageView {
                extent: [1, 1, 1],
                format: Format::D16_UNORM,
                usage: placeholder_usage(),
            },
        }
    }

    /// The images made anew for a target of the given extent.
    pub open spec fn sized(extent: [u32; 3]) -> GBuffer {
        GBuffer {
            diffuse: ImageView {
                extent,
                format: Format::A2B10G10R10_UNORM_PACK32,
                usage: color_gbuffer_usage(),
            },
            normals: ImageView {
                extent,
                format: Format::R16G16B16A16_SFLOAT,
                usage: color_gbuffer_usage(),
            },
            depth: ImageView { extent, format: Format::D16_UNORM, usage: depth_gbuffer_usage() },
        }
    }

    /// The images after a frame was opened on a target of the given extent:
    /// made anew if the extent differs from that of the albedo image, and
    /// untouched otherwise.
    pub open spec fn fitted(self, extent: [u32; 3]) -> GBuffer {
        if self.diffuse.extent == extent {
            self
        } else {
            GBuffer::sized(extent)
        }
    }

    /// Each image has the format of its attachment in the deferred render
    /// pass.
    pub open spec fn wf(self) -> bool {
        &&& self.diffuse.format == Format::A2B10G10R10_UNORM_PACK32
        &&& self.normals.format == Format::R16G16B16A16_SFLOAT
        &&& self.depth.format == Format::D16_UNORM
        &&& self.normals.extent == self.diffuse.extent
        &&& self.depth.extent == self.diffuse.extent
    }
}

/// The values that the attachments are cleared to when the render pass
/// begins: transparent black for the three colour images, and the far plane
/// for depth.
pub open spec fn clear_values_spec() -> [ClearValue; 4] {
    [
        ClearValue::Float([ZERO, ZERO, ZERO, ZERO]),
        ClearValue::Float([ZERO, ZERO, ZERO, ZERO]),
        ClearValue::Float([ZERO, ZERO, ZERO, ZERO]),
        ClearValue::Depth(ONE),
    ]
}

impl FrameSystem {
    /// The render pass that every frame runs.
    pub closed spec fn render_pass(&self) -> RenderPass {
        self.render_pass
    }

    /// The G-buffer images as they are now.
    pub closed spec fn gbuffer(&self) -> GBuffer {
        GBuffer {
            diffuse: self.diffuse_buffer,
            normals: self.normals_buffer,
            depth: self.depth_buffer,
        }
    }

    /// The ambient lighting subsystem.
    pub closed spec fn ambient(&self) -> Ambient {
        self.ambient_lighting_system
    }

    /// The directional lighting subsystem.
    pub closed spec fn directional(&self) -> Directional {
        self.directional_lighting_system
    }

    /// The point lighting subsystem.
    pub closed spec fn point(&self) -> Point {
        self.point_lighting_system
    }

    /// The subpass that the lighting subsystems were built for.
    pub open spec fn lighting_subpass_spec(&self) -> Subpass {
        Subpass { render_pass: self.render_pass(), subpass_id: LIGHTING_SUBPASS }
    }

    /// The subpass that fills the G-buffer.
    pub open spec fn deferred_subpass_spec(&self) -> Subpass {
        Subpass { render_pass: self.render_pass(), subpass_id: DEFERRED_SUBPASS }
    }

    /// The render pass is the deferred render pass of a colour target and
    /// obeys the ordering rules; the G-buffer images match its attachments;
    /// the lighting subsystems are built for its second subpass.
    pub open spec fn wf(&self) -> bool {
        &&& self.render_pass().attachments[0].format.is_color_spec()
        &&& self.render_pass() == RenderPass::deferred_spec(
            self.render_pass().attachments[0].format,
        )
        &&& self.render_pass().wf()
        &&& self.gbuffer().wf()
        &&& self.ambient().wf()
        &&& self.ambient().subpass() == self.lighting_subpass_spec()
        &&& self.directional().wf()
        &&& self.directional().subpass() == self.lighting_subpass_spec()
        &&& self.point().wf()
        &&& self.point().subpass() == self.lighting_subpass_spec()
    }

    /// The frame system for targets of the given format. It fails if and
    /// only if the format holds no colour.
    pub fn new(image_format: Format) -> (system: Result<FrameSystem, RenderError>)
        ensures
            system is Ok <==> image_format.is_color_spec(),
            system is Err ==> system == Err::<FrameSystem, RenderError>(
                RenderError::TargetFormatNotColor,
            ),
            system is Ok ==> {
                let system = system->Ok_0;
                &&& system.wf()
                &&& system.render_pass() == RenderPass::deferred_spec(image_format)
                &&& system.gbuffer() == GBuffer::initial()
            },
    {
        if !image_format.is_color() {
            return Err(RenderError::TargetFormatNotColor);
        }
        let render_pass = RenderPass::deferred(image_format);
        let diffuse_buffer = ImageView {
            extent: [1, 1, 1],
            format: Format::A2B10G10R10_UNORM_PACK32,
            usage: ImageUsage {
                color_attachment: true,
                depth_stencil_attachment: false,
                transient_attachment: true,
                input_attachment: true,
            },
        };
        let normals_buffer = ImageView {
            extent: [1, 1, 1],
            format: Format::R16G16B16A16_SFLOAT,
            usage: ImageUsage {
                color_attachment: false,
                depth_stencil_attachment: false,
                transient_attachment: true,
                input_attachment: true,
            },
        };
        let depth_buffer = ImageView {
            extent: [1, 1, 1],
            format: Format::D16_UNORM,
            usage: ImageUsage {
                color_attachment: false,
                depth_stencil_attachment: false,
                transient_attachment: true,
                input_attachment: true,
            },
        };
        let lighting_subpass = Subpass { render_pass, subpass_id: LIGHTING_SUBPASS };
        let ambient_lighting_system = Ambient::new(lighting_subpass);
        let directional_lighting_system = Directional::new(lighting_subpass);
        let point_lighting_system = Point::new(lighting_subpass);
        Ok(
            FrameSystem {
                render_pass,
                diffuse_buffer,
                normals_buffer,
                depth_buffer,
                ambient_lighting_system,
                directional_lighting_system,
                point_lighting_system,
            },
        )
    }

    /// The render pass that every frame runs.
    pub fn render_pass_description(&self) -> (render_pass: RenderPass)
        ensures
            render_pass == self.render_pass(),
    {
        self.render_pass
    }

    /// The image that holds the albedo of the scene.
    pub fn diffuse_buffer(&self) -> (image: ImageView)
        ensures
            image == self.gbuffer().diffuse,
    {
        self.diffuse_buffer
    }

    /// The image that holds the surface normals of the scene.
    pub fn normals_buffer(&self) -> (image: ImageView)
        ensures
            image == self.gbuffer().normals,
    {
        self.normals_buffer
    }

    /// The image that holds the depth of the scene.
    pub fn depth_buffer(&self) -> (image: ImageView)
        ensures
            image == self.gbuffer().depth,
    {
        self.depth_buffer
    }

    /// The ambient lighting subsystem.
    pub fn ambient_lighting_system(&self) -> (system: &Ambient)
        ensures
            *system == self.ambient(),
    {
        &self.ambient_lighting_system
    }

    /// The directional lighting subsystem.
    pub fn directional_lighting_system(&self) -> (system: &Directional)
        ensures
            *system == self.directional(),
    {
        &self.directional_lighting_system
    }

    /// The point lighting subsystem.
    pub fn point_lighting_system(&self) -> (system: &Point)
        ensures
            *system == self.point(),
    {
        &self.point_lighting_system
    }

    /// The framebuffer of a frame on the given target: the target and the
    /// three G-buffer images as they are now.
    pub open spec fn framebuffer_spec(&self, final_image_view: ImageView) -> Framebuffer {
        Framebuffer {
            render_pass: self.render_pass(),
            attachments: [
                final_image_view,
                self.gbuffer().diffuse,
                self.gbuffer().normals,
                self.gbuffer().depth,
            ],
        }
    }

    /// What a frame on the given target starts to record: the render pass on
    /// the target and the three G-buffer images, cleared, with nothing
    /// executed yet.
    pub open spec fn opening_spec(&self, final_image_view: ImageView) -> PrimaryCommandBufferView {
        PrimaryCommandBufferView {
            framebuffer: self.framebuffer_spec(final_image_view),
            clear_values: clear_values_spec(),
            deferred: Seq::empty(),
            lighting: Seq::empty(),
        }
    }

    /// Opens a frame on the image to draw to.
    ///
    /// If the extent of the image differs from that of the G-buffer, the
    /// three G-buffer images are made anew in that extent; otherwise they are
    /// left alone. Then the render pass must be able to run on the image and
    /// the G-buffer, or the frame fails: every image must have the format of
    /// its attachment and allow the uses that the subpasses make of it. The
    /// frame that comes back is in its first phase, with the render pass
    /// begun on the target and the G-buffer, and holds the future to wait
    /// for and the view transform.
    pub fn frame<'a, F>(
        &'a mut self,
        before_future: F,
        final_image_view: ImageView,
        world_to_framebuffer: Matrix4,
        framebuffer_to_world: Option<Matrix4>,
    ) -> (frame: Result<Frame<'a, F>, RenderError>)
        requires
            old(self).wf(),
        ensures
            final(self).wf(),
            final(self).render_pass() == old(self).render_pass(),
            final(self).ambient() == old(self).ambient(),
            final(self).directional() == old(self).directional(),
            final(self).point() == old(self).point(),
            final(self).gbuffer() == old(self).gbuffer().fitted(final_image_view.extent),
            frame is Ok <==> final(self).framebuffer_spec(final_image_view).fits(),
            frame is Err ==> frame->Err_0 == (if final(self).framebuffer_spec(
                final_image_view,
            ).formats_fit() {
                RenderError::AttachmentUsage
            } else {
                RenderError::AttachmentFormatMismatch
            }),
            final(self).framebuffer_spec(final_image_view).formats_fit() <==> final_image_view.format
                == old(self).render_pass().attachments[0].format,
            frame is Ok ==> {
                let frame = frame->Ok_0;
                &&& frame.wf()
                &&& frame.system() == *final(self)
                &&& frame.num_pass() == 0
                &&& frame.future() == Some(before_future)
                &&& frame.recording() == Some(final(self).opening_spec(final_image_view))
                &&& frame.world_to_framebuffer() == world_to_framebuffer
                &&& frame.framebuffer_to_world() == framebuffer_to_world
                &&& frame.gbuffer_recreated() == (old(self).gbuffer().diffuse.extent
                    != final_image_view.extent)
            },
    {
        let extent = final_image_view.extent;
        let recreate = !same_extent(self.diffuse_buffer.extent, extent);
        if recreate {
            self.diffuse_buffer =
            ImageView {
                extent,
                format: Format::A2B10G10R10_UNORM_PACK32,
                usage: ImageUsage {
                    color_attachment: true,
                    depth_stencil_attachment: false,
                    transient_attachment: true,
                    input_attachment: true,
                },
            };
            self.normals_buffer =
            ImageView {
                extent,
                format: Format::R16G16B16A16_SFLOAT,
                usage: ImageUsage {
                    color_attachment: true,
                    depth_stencil_attachment: false,
                    transient_attachment: true,
                    input_attachment: true,
                },
            };
            self.depth_buffer =
            ImageView {
                extent,
                format: Format::D16_UNORM,
                usage: ImageUsage {
                    color_attachment: false,
                    depth_stencil_attachment: true,
                    transient_attachment: true,
                    input_attachment: true,
                },
            };
        }
        let framebuffer = Framebuffer {
            render_pass: self.render_pass,
            attachments: [
                final_image_view,
                self.diffuse_buffer,
                self.normals_buffer,
                self.depth_buffer,
            ],
        };
        proof {
            let spec = self.framebuffer_spec(final_image_view);
            assert(framebuffer == spec);
            if final_image_view.format == self.render_pass().attachments[0].format {
                assert forall|a: int| 0 <= a < 4 implies (#[trigger] spec.attachments[a]).format
                    == spec.render_pass.attachments[a].format by {
                    if a == 0 {
                    } else if a == 1 {
                    } else if a == 2 {
                    } else {
                    }
                }
            } else {
                assert(spec.attachments[0].format != spec.render_pass.attachments[0].format);
            }
        }
        match framebuffer.check() {
            Ok(()) => {},
            Err(error) => {
                return Err(error);
            },
        }
        let command_buffer_builder = PrimaryCommandBuffer::begin(framebuffer);
        Ok(
            Frame::open(
                self,
                before_future,
                command_buffer_builder,
                world_to_framebuffer,
                framebuffer_to_world,
                recreate,
            ),
        )
    }

    /// The subpass that fills the G-buffer; the geometry pipeline is built
    /// for it.
    pub fn deferred_subpass(&self) -> (subpass: Subpass)
        ensures
            subpass == self.deferred_subpass_spec(),
            subpass.wf(),
    {
        Subpass { render_pass: self.render_pass, subpass_id: DEFERRED_SUBPASS }
    }
}

} // verus!
