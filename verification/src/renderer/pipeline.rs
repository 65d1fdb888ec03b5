//! What a graphics pipeline of the renderer is made of, and how blending
//! combines what a draw writes with what the attachment already holds.

use crate::renderer::render_pass::Subpass;
use vstd::prelude::*;

verus! {

/// How the two weighted colours of a blend are combined.
#[derive(Clone, Copy, Debug, PartialEq, Eq, Hash)]
pub enum BlendOp {
    Add,
    Max,
}

/// The weight of a colour in a blend.
#[derive(Clone, Copy, Debug, PartialEq, Eq, Hash)]
pub enum BlendWeight {
    Zero,
    One,
}

impl BlendWeight {
    /// The weight as a number.
    pub open spec fn value(self) -> int {
        match self {
            BlendWeight::Zero => 0,
            BlendWeight::One => 1,
        }
    }
}

/// One blended value: the source `src` that a draw writes over the
/// destination `dst` that the attachment holds. `Max` takes no weights.
pub open spec fn blend_value(
    op: BlendOp,
    src_weight: BlendWeight,
    dst_weight: BlendWeight,
    src: int,
    dst: int,
) -> int {
    match op {
        BlendOp::Add => src_weight.value() * src + dst_weight.value() * dst,
        BlendOp::Max => if src >= dst {
            src
        } else {
            dst
        },
    }
}

/// How a draw blends into one colour attachment.
#[derive(Clone, Copy, Debug, PartialEq, Eq, Hash)]
pub struct AttachmentBlend {
    pub color_blend_op: BlendOp,
    pub src_color_blend_factor: BlendWeight,
    pub dst_color_blend_factor: BlendWeight,
    pub alpha_blend_op: BlendOp,
    pub src_alpha_blend_factor: BlendWeight,
    pub dst_alpha_blend_factor: BlendWeight,
}

/// One texel of a colour attachment, in exact arithmetic.
pub struct Texel {
    pub r: int,
    pub g: int,
    pub b: int,
    pub a: int,
}

impl AttachmentBlend {
    /// Pure accumulation: the colour written is added to the colour held,
    /// and the larger alpha stays.
    pub open spec fn additive_spec() -> AttachmentBlend {
        AttachmentBlend {
            color_blend_op: BlendOp::Add,
            src_color_blend_factor: BlendWeight::One,
            dst_color_blend_factor: BlendWeight::One,
            alpha_blend_op: BlendOp::Max,
            src_alpha_blend_factor: BlendWeight::One,
            dst_alpha_blend_factor: BlendWeight::One,
        }
    }

    /// The blend of the lighting pipelines.
    pub fn additive() -> (blend: AttachmentBlend)
        ensures
            blend == AttachmentBlend::additive_spec(),
    {
        AttachmentBlend {
            color_blend_op: BlendOp::Add,
            src_color_blend_factor: BlendWeight::One,
            dst_color_blend_factor: BlendWeight::One,
            alpha_blend_op: BlendOp::Max,
            src_alpha_blend_factor: BlendWeight::One,
            dst_alpha_blend_factor: BlendWeight::One,
        }
    }

    /// The texel that results when `src` is drawn over `dst`.
    pub open spec fn apply(&self, src: Texel, dst: Texel) -> Texel {
        Texel {
            r: blend_value(
                self.color_blend_op,
                self.src_color_blend_factor,
                self.dst_color_blend_factor,
                src.r,
                dst.r,
            ),
            g: blend_value(
                self.color_blend_op,
                self.src_color_blend_factor,
                self.dst_color_blend_factor,
                src.g,
                dst.g,
            ),
            b: blend_value(
                self.color_blend_op,
                self.src_color_blend_factor,
                self.dst_color_blend_factor,
                src.b,
                dst.b,
            ),
            a: blend_value(
                self.alpha_blend_op,
                self.src_alpha_blend_factor,
                self.dst_alpha_blend_factor,
                src.a,
                dst.a,
            ),
        }
    }
}

/// The blending of one colour attachment: none means that a draw overwrites.
#[derive(Clone, Copy, Debug, PartialEq, Eq, Hash)]
pub struct ColorBlendAttachmentState {
    pub blend: Option<AttachmentBlend>,
}

/// The blending of all colour attachments of a subpass: the same state for
/// each of `attachment_count` attachments.
#[derive(Clone, Copy, Debug, PartialEq, Eq, Hash)]
pub struct ColorBlendState {
    pub attachment_count: u32,
    pub attachment_state: ColorBlendAttachmentState,
}

/// The shader pair of a pipeline.
#[derive(Clone, Copy, Debug, PartialEq, Eq, Hash)]
pub enum Shaders {
    Geometry,
    AmbientLight,
    DirectionalLight,
    PointLight,
}

/// A graphics pipeline. Its viewport is always set while recording.
#[derive(Clone, Copy, Debug, PartialEq, Eq, Hash)]
pub struct GraphicsPipeline {
    pub shaders: Shaders,
    pub subpass: Subpass,
    pub depth_test: bool,
    pub color_blend_state: ColorBlendState,
}

impl GraphicsPipeline {
    /// The pipeline of the given shaders for a subpass: one blend state for
    /// each colour attachment of the subpass.
    pub open spec fn for_subpass(
        shaders: Shaders,
        subpass: Subpass,
        depth_test: bool,
        blend: Option<AttachmentBlend>,
    ) -> GraphicsPipeline {
        GraphicsPipeline {
            shaders,
            subpass,
            depth_test,
            color_blend_state: ColorBlendState {
                attachment_count: subpass.num_color_attachments_spec() as u32,
                attachment_state: ColorBlendAttachmentState { blend },
            },
        }
    }

    /// Builds the pipeline of the given shaders for a subpass.
    pub fn new(
        shaders: Shaders,
        subpass: Subpass,
        depth_test: bool,
        blend: Option<AttachmentBlend>,
    ) -> (pipeline: GraphicsPipeline)
        requires
            subpass.wf(),
        ensures
            pipeline == GraphicsPipeline::for_subpass(shaders, subpass, depth_test, blend),
    {
        GraphicsPipeline {
            shaders,
            subpass,
            depth_test,
            color_blend_state: ColorBlendState {
                attachment_count: subpass.num_color_attachments(),
                attachment_state: ColorBlendAttachmentState { blend },
            },
        }
    }
}

} // verus!
