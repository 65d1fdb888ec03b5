//! Pixel formats and the images that the render pass is attached to.

use crate::renderer::render_pass::AttachmentRole;
use vstd::prelude::*;

verus! {

/// The texel formats that the renderer works with.
#[allow(non_camel_case_types)]
#[derive(Clone, Copy, Debug, PartialEq, Eq, Hash)]
pub enum Format {
    R8G8B8A8_UNORM,
    R8G8B8A8_SRGB,
    B8G8R8A8_UNORM,
    B8G8R8A8_SRGB,
    A2B10G10R10_UNORM_PACK32,
    R16G16B16A16_SFLOAT,
    D16_UNORM,
    D32_SFLOAT,
}

impl Format {
    /// Whether texels of this format hold depth.
    pub open spec fn is_depth_spec(self) -> bool {
        self is D16_UNORM || self is D32_SFLOAT
    }

    /// Whether texels of this format hold colour.
    pub open spec fn is_color_spec(self) -> bool {
        !self.is_depth_spec()
    }

    #[verifier::when_used_as_spec(is_depth_spec)]
    pub fn is_depth(self) -> (depth: bool)
        ensures
            depth == self.is_depth_spec(),
    {
        match self {
            Format::D16_UNORM => true,
            Format::D32_SFLOAT => true,
            _ => false,
        }
    }

    /// Whether two formats are the same.
    pub fn same(self, other: Format) -> (same: bool)
        ensures
            same == (self == other),
    {
        match (self, other) {
            (Format::R8G8B8A8_UNORM, Format::R8G8B8A8_UNORM) => true,
            (Format::R8G8B8A8_SRGB, Format::R8G8B8A8_SRGB) => true,
            (Format::B8G8R8A8_UNORM, Format::B8G8R8A8_UNORM) => true,
            (Format::B8G8R8A8_SRGB, Format::B8G8R8A8_SRGB) => true,
            (Format::A2B10G10R10_UNORM_PACK32, Format::A2B10G10R10_UNORM_PACK32) => true,
            (Format::R16G16B16A16_SFLOAT, Format::R16G16B16A16_SFLOAT) => true,
            (Format::D16_UNORM, Format::D16_UNORM) => true,
            (Format::D32_SFLOAT, Format::D32_SFLOAT) => true,
            _ => false,
        }
    }

    #[verifier::when_used_as_spec(is_color_spec)]
    pub fn is_color(self) -> (color: bool)
        ensures
            color == self.is_color_spec(),
    {
        !self.is_depth()
    }
}

/// What an image may be used for.
#[derive(Clone, Copy, Debug, PartialEq, Eq, Hash)]
pub struct ImageUsage {
    pub color_attachment: bool,
    pub depth_stencil_attachment: bool,
    pub transient_attachment: bool,
    pub input_attachment: bool,
}

impl ImageUsage {
    /// Whether an image of this usage may have the role in a subpass.
    pub open spec fn allows_spec(self, role: AttachmentRole) -> bool {
        match role {
            AttachmentRole::Unused => true,
            AttachmentRole::Color => self.color_attachment,
            AttachmentRole::DepthStencil => self.depth_stencil_attachment,
            AttachmentRole::Input => self.input_attachment,
        }
    }

    /// Whether an image of this usage may have the role in a subpass.
    pub fn allows(self, role: AttachmentRole) -> (allowed: bool)
        ensures
            allowed == self.allows_spec(role),
    {
        match role {
            AttachmentRole::Unused => true,
            AttachmentRole::Color => self.color_attachment,
            AttachmentRole::DepthStencil => self.depth_stencil_attachment,
            AttachmentRole::Input => self.input_attachment,
        }
    }
}

/// A two-dimensional image with one view over the whole of it.
#[derive(Clone, Copy, Debug, PartialEq, Eq, Hash)]
pub struct ImageView {
    pub extent: [u32; 3],
    pub format: Format,
    pub usage: ImageUsage,
}

/// Whether two extents are the same in every dimension.
pub fn same_extent(a: [u32; 3], b: [u32; 3]) -> (same: bool)
    ensures
        same == (a == b),
{
    let same = a[0] == b[0] && a[1] == b[1] && a[2] == b[2];
    proof {
        if same {
            assert(a =~= b);
        }
    }
    same
}

} // verus!
