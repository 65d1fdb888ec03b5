//! The ways in which recording a frame can fail.

use vstd::prelude::*;

verus! {

#[derive(Clone, Copy, Debug, PartialEq, Eq, Hash)]
pub enum RenderError {
    /// The target of the render pass must have a colour format.
    TargetFormatNotColor,
    /// An image of the framebuffer has another format than its attachment in
    /// the render pass.
    AttachmentFormatMismatch,
    /// An image of the framebuffer may not be used the way the render pass
    /// uses its attachment.
    AttachmentUsage,
    /// A recording made for one subpass was executed in another.
    SubpassMismatch,
    /// The view transform of the frame has no inverse.
    ViewNotInvertible,
}

} // verus!
