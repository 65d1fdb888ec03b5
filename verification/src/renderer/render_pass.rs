//! The render pass of the deferred renderer: four attachments, two subpasses.

use crate::renderer::image::Format;
use vstd::prelude::*;

verus! {

/// The number of attachments of the render pass.
pub const ATTACHMENT_COUNT: usize = 4;

/// The number of subpasses of the render pass.
pub const SUBPASS_COUNT: usize = 2;

/// The attachment that receives the finished picture.
pub const FINAL_COLOR: usize = 0;

/// The attachment that holds the albedo of the scene.
pub const DIFFUSE: usize = 1;

/// The attachment that holds the surface normals of the scene.
pub const NORMALS: usize = 2;

/// The attachment that holds the depth of the scene.
pub const DEPTH_STENCIL: usize = 3;

/// The subpass that fills the G-buffer.
pub const DEFERRED_SUBPASS: u32 = 0;

/// The subpass that lights the scene from the G-buffer.
pub const LIGHTING_SUBPASS: u32 = 1;

/// What happens to an attachment when the render pass begins.
#[derive(Clone, Copy, Debug, PartialEq, Eq, Hash)]
pub enum AttachmentLoadOp {
    Load,
    Clear,
    DontCare,
}

/// What happens to an attachment when the render pass ends.
#[derive(Clone, Copy, Debug, PartialEq, Eq, Hash)]
pub enum AttachmentStoreOp {
    Store,
    DontCare,
}

/// The layout that an image is in while it is used.
#[derive(Clone, Copy, Debug, PartialEq, Eq, Hash)]
pub enum ImageLayout {
    ColorAttachmentOptimal,
    DepthStencilAttachmentOptimal,
    ShaderReadOnlyOptimal,
}

/// One attachment of the render pass.
#[derive(Clone, Copy, Debug, PartialEq, Eq, Hash)]
pub struct AttachmentDescription {
    pub format: Format,
    pub samples: u32,
    pub load_op: AttachmentLoadOp,
    pub store_op: AttachmentStoreOp,
}

/// What a subpass does with an attachment.
#[derive(Clone, Copy, Debug, PartialEq, Eq, Hash)]
pub enum AttachmentRole {
    /// The subpass does not touch the attachment.
    Unused,
    /// The subpass writes colour to it.
    Color,
    /// The subpass tests and writes depth on it.
    DepthStencil,
    /// The subpass reads it, pixel by pixel, as an input.
    Input,
}

impl AttachmentRole {
    /// Whether the subpass writes the attachment.
    pub open spec fn writes(self) -> bool {
        self is Color || self is DepthStencil
    }

    /// The layout that an attachment in this role is in.
    pub open spec fn layout_spec(self) -> Option<ImageLayout> {
        match self {
            AttachmentRole::Unused => None,
            AttachmentRole::Color => Some(ImageLayout::ColorAttachmentOptimal),
            AttachmentRole::DepthStencil => Some(ImageLayout::DepthStencilAttachmentOptimal),
            AttachmentRole::Input => Some(ImageLayout::ShaderReadOnlyOptimal),
        }
    }

    /// The layout that an attachment in this role is in.
    pub fn layout(self) -> (layout: Option<ImageLayout>)
        ensures
            layout == self.layout_spec(),
    {
        match self {
            AttachmentRole::Unused => None,
            AttachmentRole::Color => Some(ImageLayout::ColorAttachmentOptimal),
            AttachmentRole::DepthStencil => Some(ImageLayout::DepthStencilAttachmentOptimal),
            AttachmentRole::Input => Some(ImageLayout::ShaderReadOnlyOptimal),
        }
    }

    /// Whether two roles are the same.
    pub fn same(self, other: AttachmentRole) -> (same: bool)
        ensures
            same == (self == other),
    {
        match (self, other) {
            (AttachmentRole::Unused, AttachmentRole::Unused) => true,
            (AttachmentRole::Color, AttachmentRole::Color) => true,
            (AttachmentRole::DepthStencil, AttachmentRole::DepthStencil) => true,
            (AttachmentRole::Input, AttachmentRole::Input) => true,
            _ => false,
        }
    }
}

/// One subpass: the role of every attachment in it.
#[derive(Clone, Copy, Debug, PartialEq, Eq, Hash)]
pub struct SubpassDescription {
    pub roles: [AttachmentRole; 4],
}

/// The attachments among the first `n` that have the given role, in order.
pub open spec fn attachments_with(roles: [AttachmentRole; 4], role: AttachmentRole, n: int) -> Seq<
    usize,
>
    decreases n,
{
    if n <= 0 {
        Seq::empty()
    } else {
        let rest = attachments_with(roles, role, n - 1);
        if roles[n - 1] == role {
            rest.push((n - 1) as usize)
        } else {
            rest
        }
    }
}

impl SubpassDescription {
    /// The colour attachments of the subpass, in order.
    pub open spec fn color_attachments_spec(&self) -> Seq<usize> {
        attachments_with(self.roles, AttachmentRole::Color, 4)
    }

    /// The input attachments of the subpass, in order.
    pub open spec fn input_attachments_spec(&self) -> Seq<usize> {
        attachments_with(self.roles, AttachmentRole::Input, 4)
    }

    /// The depth attachments of the subpass, in order.
    pub open spec fn depth_stencil_attachments_spec(&self) -> Seq<usize> {
        attachments_with(self.roles, AttachmentRole::DepthStencil, 4)
    }

    /// The attachments that have the given role in this subpass, in order.
    pub fn attachments_in_role(&self, role: AttachmentRole) -> (found: Vec<usize>)
        ensures
            found@ == attachments_with(self.roles, role, 4),
            found@.len() <= 4,
    {
        let mut found: Vec<usize> = Vec::new();
        let mut i: usize = 0;
        while i < 4
            invariant
                i <= 4,
                found@ == attachments_with(self.roles, role, i as int),
                found@.len() <= i,
            decreases 4 - i,
        {
            if self.roles[i].same(role) {
                found.push(i);
            }
            i = i + 1;
        }
        found
    }

    /// The colour attachments of the subpass, in order.
    pub fn color_attachments(&self) -> (found: Vec<usize>)
        ensures
            found@ == self.color_attachments_spec(),
    {
        self.attachments_in_role(AttachmentRole::Color)
    }

    /// The input attachments of the subpass, in order.
    pub fn input_attachments(&self) -> (found: Vec<usize>)
        ensures
            found@ == self.input_attachments_spec(),
    {
        self.attachments_in_role(AttachmentRole::Input)
    }

    /// The depth attachment of the subpass, if it has one.
    pub fn depth_stencil_attachment(&self) -> (found: Option<usize>)
        ensures
            found is Some <==> self.depth_stencil_attachments_spec().len() > 0,
            found is Some ==> found->0 == self.depth_stencil_attachments_spec()[0],
    {
        let all = self.attachments_in_role(AttachmentRole::DepthStencil);
        if all.len() > 0 {
            Some(all[0])
        } else {
            None
        }
    }
}

/// The whole render pass.
#[derive(Clone, Copy, Debug, PartialEq, Eq, Hash)]
pub struct RenderPass {
    pub attachments: [AttachmentDescription; 4],
    pub subpasses: [SubpassDescription; 2],
}

impl RenderPass {
    /// The role of attachment `a` in subpass `s`.
    pub open spec fn role(&self, s: int, a: int) -> AttachmentRole {
        self.subpasses[s].roles[a]
    }

    /// Whether some subpass before `s` writes attachment `a`.
    pub open spec fn written_before(&self, s: int, a: int) -> bool {
        exists|earlier: int| 0 <= earlier < s && #[trigger] self.role(earlier, a).writes()
    }

    /// The ordering rules of the render pass: a subpass reads as input only
    /// what an earlier subpass wrote, writes colour only to colour formats
    /// and depth only to depth formats, and has at most one depth attachment.
    pub open spec fn wf(&self) -> bool {
        &&& forall|s: int, a: int|
            0 <= s < 2 && 0 <= a < 4 && #[trigger] self.role(s, a) is Input
                ==> self.written_before(s, a)
        &&& forall|s: int, a: int|
            0 <= s < 2 && 0 <= a < 4 && #[trigger] self.role(s, a) is Color
                ==> self.attachments[a].format.is_color_spec()
        &&& forall|s: int, a: int|
            0 <= s < 2 && 0 <= a < 4 && #[trigger] self.role(s, a) is DepthStencil
                ==> self.attachments[a].format.is_depth_spec()
        &&& forall|s: int|
            0 <= s < 2 ==> (#[trigger] self.subpasses[s]).depth_stencil_attachments_spec().len()
                <= 1
    }

    /// The render pass of the deferred renderer for a target of the given
    /// format. The first subpass writes albedo, normals and depth and reads
    /// nothing; the second reads all three and writes the final colour.
    pub open spec fn deferred_spec(final_format: Format) -> RenderPass {
        RenderPass {
            attachments: [
                AttachmentDescription {
                    format: final_format,
                    samples: 1,
                    load_op: AttachmentLoadOp::Clear,
                    store_op: AttachmentStoreOp::Store,
                },
                AttachmentDescription {
                    format: Format::A2B10G10R10_UNORM_PACK32,
                    samples: 1,
                    load_op: AttachmentLoadOp::Clear,
                    store_op: AttachmentStoreOp::DontCare,
                },
                AttachmentDescription {
                    format: Format::R16G16B16A16_SFLOAT,
                    samples: 1,
                    load_op: AttachmentLoadOp::Clear,
                    store_op: AttachmentStoreOp::DontCare,
                },
                AttachmentDescription {
                    format: Format::D16_UNORM,
                    samples: 1,
                    load_op: AttachmentLoadOp::Clear,
                    store_op: AttachmentStoreOp::DontCare,
                },
            ],
            subpasses: [
                SubpassDescription {
                    roles: [
                        AttachmentRole::Unused,
                        AttachmentRole::Color,
                        AttachmentRole::Color,
                        AttachmentRole::DepthStencil,
                    ],
                },
                SubpassDescription {
                    roles: [
                        AttachmentRole::Color,
                        AttachmentRole::Input,
                        AttachmentRole::Input,
                        AttachmentRole::Input,
                    ],
                },
            ],
        }
    }

    /// Builds the render pass of the deferred renderer.
    pub fn deferred(final_format: Format) -> (render_pass: RenderPass)
        ensures
            render_pass == RenderPass::deferred_spec(final_format),
            final_format.is_color_spec() ==> render_pass.wf(),
    {
        let render_pass = RenderPass {
            attachments: [
                AttachmentDescription {
                    format: final_format,
                    samples: 1,
                    load_op: AttachmentLoadOp::Clear,
                    store_op: AttachmentStoreOp::Store,
                },
                AttachmentDescription {
                    format: Format::A2B10G10R10_UNORM_PACK32,
                    samples: 1,
                    load_op: AttachmentLoadOp::Clear,
                    store_op: AttachmentStoreOp::DontCare,
                },
                AttachmentDescription {
                    format: Format::R16G16B16A16_SFLOAT,
                    samples: 1,
                    load_op: AttachmentLoadOp::Clear,
                    store_op: AttachmentStoreOp::DontCare,
                },
                AttachmentDescription {
                    format: Format::D16_UNORM,
                    samples: 1,
                    load_op: AttachmentLoadOp::Clear,
                    store_op: AttachmentStoreOp::DontCare,
                },
            ],
            subpasses: [
                SubpassDescription {
                    roles: [
                        AttachmentRole::Unused,
                        AttachmentRole::Color,
                        AttachmentRole::Color,
                        AttachmentRole::DepthStencil,
                    ],
                },
                SubpassDescription {
                    roles: [
                        AttachmentRole::Color,
                        AttachmentRole::Input,
                        AttachmentRole::Input,
                        AttachmentRole::Input,
                    ],
                },
            ],
        };
        proof {
            if final_format.is_color_spec() {
                lemma_deferred_is_well_formed(final_format);
            }
        }
        render_pass
    }

    /// The layout that attachment `a` is in when the render pass begins: that
    /// of its first use.
    pub open spec fn initial_layout_spec(&self, a: int) -> Option<ImageLayout> {
        if self.role(0, a) is Unused {
            self.role(1, a).layout_spec()
        } else {
            self.role(0, a).layout_spec()
        }
    }

    /// The layout that attachment `a` is in when the render pass ends: that of
    /// its last use.
    pub open spec fn final_layout_spec(&self, a: int) -> Option<ImageLayout> {
        if self.role(1, a) is Unused {
            self.role(0, a).layout_spec()
        } else {
            self.role(1, a).layout_spec()
        }
    }

    /// The layout of an attachment when the render pass begins.
    pub fn initial_layout(&self, a: usize) -> (layout: Option<ImageLayout>)
        requires
            a < 4,
        ensures
            layout == self.initial_layout_spec(a as int),
    {
        let first = self.subpasses[0].roles[a];
        if first.same(AttachmentRole::Unused) {
            self.subpasses[1].roles[a].layout()
        } else {
            first.layout()
        }
    }

    /// The layout of an attachment when the render pass ends.
    pub fn final_layout(&self, a: usize) -> (layout: Option<ImageLayout>)
        requires
            a < 4,
        ensures
            layout == self.final_layout_spec(a as int),
    {
        let last = self.subpasses[1].roles[a];
        if last.same(AttachmentRole::Unused) {
            self.subpasses[0].roles[a].layout()
        } else {
            last.layout()
        }
    }

    /// The dependencies between the subpasses: each subpass waits for the one
    /// before it.
    pub open spec fn dependencies_spec() -> Seq<(u32, u32)> {
        seq![(DEFERRED_SUBPASS, LIGHTING_SUBPASS)]
    }

    /// The dependencies between the subpasses, each as the subpass waited for
    /// and the subpass that waits.
    pub fn dependencies(&self) -> (dependencies: Vec<(u32, u32)>)
        ensures
            dependencies@ == RenderPass::dependencies_spec(),
            forall|i: int|
                0 <= i < dependencies@.len() ==> (#[trigger] dependencies@[i]).0 + 1
                    == dependencies@[i].1 && dependencies@[i].1 < SUBPASS_COUNT,
    {
        let mut dependencies: Vec<(u32, u32)> = Vec::new();
        dependencies.push((DEFERRED_SUBPASS, LIGHTING_SUBPASS));
        assert(dependencies@ =~= RenderPass::dependencies_spec());
        dependencies
    }

    /// The subpass of the given number, if the render pass has one.
    pub fn subpass(&self, id: u32) -> (subpass: Option<Subpass>)
        ensures
            subpass is Some <==> id < 2,
            subpass is Some ==> subpass->0 == (Subpass { render_pass: *self, subpass_id: id }),
    {
        if id < 2 {
            Some(Subpass { render_pass: *self, subpass_id: id })
        } else {
            None
        }
    }
}

/// The deferred render pass obeys the ordering rules whenever its target has
/// a colour format.
pub proof fn lemma_deferred_is_well_formed(final_format: Format)
    requires
        final_format.is_color_spec(),
    ensures
        RenderPass::deferred_spec(final_format).wf(),
{
    let rp = RenderPass::deferred_spec(final_format);
    reveal_with_fuel(attachments_with, 5);
    assert forall|s: int, a: int|
        0 <= s < 2 && 0 <= a < 4 && #[trigger] rp.role(s, a) is Input implies rp.written_before(
        s,
        a,
    ) by {
        assert(s == 1);
        assert(rp.role(0, a).writes());
    }
    assert forall|s: int| 0 <= s < 2 implies (#[trigger] rp.subpasses[s])
        .depth_stencil_attachments_spec().len() <= 1 by {
        if s == 0 {
            assert(rp.subpasses[0].depth_stencil_attachments_spec().len() <= 1);
        } else {
            assert(rp.subpasses[1].depth_stencil_attachments_spec().len() <= 1);
        }
    }
}

/// One subpass of a render pass.
#[derive(Clone, Copy, Debug, PartialEq, Eq, Hash)]
pub struct Subpass {
    pub render_pass: RenderPass,
    pub subpass_id: u32,
}

impl Subpass {
    /// The subpass exists in its render pass.
    pub open spec fn wf(&self) -> bool {
        self.subpass_id < 2
    }

    /// What the subpass does with each attachment.
    pub open spec fn description_spec(&self) -> SubpassDescription {
        self.render_pass.subpasses[self.subpass_id as int]
    }

    /// What the subpass does with each attachment.
    pub fn description(&self) -> (description: SubpassDescription)
        requires
            self.wf(),
        ensures
            description == self.description_spec(),
    {
        self.render_pass.subpasses[self.subpass_id as usize]
    }

    /// The number of colour attachments that the subpass writes.
    pub open spec fn num_color_attachments_spec(&self) -> nat {
        self.description_spec().color_attachments_spec().len()
    }

    /// The number of colour attachments that the subpass writes.
    pub fn num_color_attachments(&self) -> (count: u32)
        requires
            self.wf(),
        ensures
            count == self.num_color_attachments_spec(),
    {
        let colors = self.description().attachments_in_role(AttachmentRole::Color);
        colors.len() as u32
    }
}

/// The first subpass of the deferred render pass writes two colour
/// attachments and reads none; the second writes one and reads three.
pub proof fn lemma_deferred_subpass_shape(final_format: Format)
    ensures
        RenderPass::deferred_spec(final_format).subpasses[0].color_attachments_spec() == seq![
            DIFFUSE,
            NORMALS,
        ],
        RenderPass::deferred_spec(final_format).subpasses[0].depth_stencil_attachments_spec()
            == seq![DEPTH_STENCIL],
        RenderPass::deferred_spec(final_format).subpasses[0].input_attachments_spec()
            == Seq::<usize>::empty(),
        RenderPass::deferred_spec(final_format).subpasses[1].color_attachments_spec() == seq![
            FINAL_COLOR,
        ],
        RenderPass::deferred_spec(final_format).subpasses[1].depth_stencil_attachments_spec()
            == Seq::<usize>::empty(),
        RenderPass::deferred_spec(final_format).subpasses[1].input_attachments_spec() == seq![
            DIFFUSE,
            NORMALS,
            DEPTH_STENCIL,
        ],
{
    reveal_with_fuel(attachments_with, 5);
}

} // verus!
