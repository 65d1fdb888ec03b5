//! The graphics context of the single-pass renderer: one colour attachment
//! in the format of the swapchain and one depth attachment.

use crate::renderer::error::RenderError;
use crate::renderer::image::Format;
use crate::renderer::render_pass::{AttachmentDescription, AttachmentLoadOp, AttachmentStoreOp};
use vstd::prelude::*;

verus! {

pub struct GraphicsContext {
    color: AttachmentDescription,
    depth_stencil: AttachmentDescription,
}

impl GraphicsContext {
    /// The colour attachment: cleared when the pass begins and kept when it
    /// ends.
    pub closed spec fn color(&self) -> AttachmentDescription {
        self.color
    }

    /// The depth attachment: cleared when the pass begins and dropped when
    /// it ends.
    pub closed spec fn depth_stencil(&self) -> AttachmentDescription {
        self.depth_stencil
    }

    /// The colour attachment of a swapchain of the given format.
    pub open spec fn color_spec(swapchain_format: Format) -> AttachmentDescription {
        AttachmentDescription {
            format: swapchain_format,
            samples: 1,
            load_op: AttachmentLoadOp::Clear,
            store_op: AttachmentStoreOp::Store,
        }
    }

    /// The depth attachment.
    pub open spec fn depth_stencil_spec() -> AttachmentDescription {
        AttachmentDescription {
            format: Format::D16_UNORM,
            samples: 1,
            load_op: AttachmentLoadOp::Clear,
            store_op: AttachmentStoreOp::DontCare,
        }
    }

    /// The graphics context for a swapchain of the given format. It fails if
    /// and only if the format holds no colour.
    pub fn new(swapchain_format: Format) -> (context: Result<GraphicsContext, RenderError>)
        ensures
            context is Ok <==> swapchain_format.is_color_spec(),
            context is Err ==> context->Err_0 == RenderError::TargetFormatNotColor,
            context is Ok ==> {
                &&& context->Ok_0.color() == GraphicsContext::color_spec(swapchain_format)
                &&& context->Ok_0.depth_stencil() == GraphicsContext::depth_stencil_spec()
            },
    {
        if !swapchain_format.is_color() {
            return Err(RenderError::TargetFormatNotColor);
        }
        Ok(
            GraphicsContext {
                color: AttachmentDescription {
                    format: swapchain_format,
                    samples: 1,
                    load_op: AttachmentLoadOp::Clear,
                    store_op: AttachmentStoreOp::Store,
                },
                depth_stencil: AttachmentDescription {
                    format: Format::D16_UNORM,
                    samples: 1,
                    load_op: AttachmentLoadOp::Clear,
                    store_op: AttachmentStoreOp::DontCare,
                },
            },
        )
    }

    /// The colour attachment.
    pub fn color_attachment(&self) -> (attachment: AttachmentDescription)
        ensures
            attachment == self.color(),
    {
        self.color
    }

    /// The depth attachment.
    pub fn depth_stencil_attachment(&self) -> (attachment: AttachmentDescription)
        ensures
            attachment == self.depth_stencil(),
    {
        self.depth_stencil
    }
}

} // verus!
