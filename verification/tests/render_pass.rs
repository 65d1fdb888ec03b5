use triton::framework::{Effect, EffectBuilder, GraphicsContext};
use triton::renderer::image::{same_extent, Format};
use triton::renderer::render_pass::{
    AttachmentDescription, AttachmentLoadOp, AttachmentRole, AttachmentStoreOp, ImageLayout,
    RenderPass, DEFERRED_SUBPASS, DEPTH_STENCIL, DIFFUSE, FINAL_COLOR, LIGHTING_SUBPASS, NORMALS,
};
use triton::renderer::RenderError;

#[test]
fn depth_formats_hold_depth_and_the_others_colour() {
    let all = [
        Format::R8G8B8A8_UNORM,
        Format::R8G8B8A8_SRGB,
        Format::B8G8R8A8_UNORM,
        Format::B8G8R8A8_SRGB,
        Format::A2B10G10R10_UNORM_PACK32,
        Format::R16G16B16A16_SFLOAT,
        Format::D16_UNORM,
        Format::D32_SFLOAT,
    ];
    for format in all {
        let depth = format == Format::D16_UNORM || format == Format::D32_SFLOAT;
        assert_eq!(format.is_depth(), depth);
        assert_eq!(format.is_color(), !depth);
        for other in all {
            assert_eq!(format.same(other), format == other);
        }
    }
}

#[test]
fn extents_are_compared_in_every_dimension() {
    assert!(same_extent([1, 2, 3], [1, 2, 3]));
    assert!(!same_extent([1, 2, 3], [0, 2, 3]));
    assert!(!same_extent([1, 2, 3], [1, 0, 3]));
    assert!(!same_extent([1, 2, 3], [1, 2, 0]));
}

#[test]
fn the_deferred_render_pass_has_four_attachments() {
    let render_pass = RenderPass::deferred(Format::B8G8R8A8_SRGB);
    assert_eq!(
        render_pass.attachments[FINAL_COLOR],
        AttachmentDescription {
            format: Format::B8G8R8A8_SRGB,
            samples: 1,
            load_op: AttachmentLoadOp::Clear,
            store_op: AttachmentStoreOp::Store,
        }
    );
    let expected = [
        (DIFFUSE, Format::A2B10G10R10_UNORM_PACK32),
        (NORMALS, Format::R16G16B16A16_SFLOAT),
        (DEPTH_STENCIL, Format::D16_UNORM),
    ];
    for (attachment, format) in expected {
        assert_eq!(
            render_pass.attachments[attachment],
            AttachmentDescription {
                format,
                samples: 1,
                load_op: AttachmentLoadOp::Clear,
                store_op: AttachmentStoreOp::DontCare,
            }
        );
    }
}

#[test]
fn the_first_subpass_writes_the_gbuffer_and_reads_nothing() {
    let render_pass = RenderPass::deferred(Format::B8G8R8A8_UNORM);
    let subpass = render_pass.subpass(DEFERRED_SUBPASS).unwrap();
    assert_eq!(subpass.subpass_id, 0);
    assert_eq!(subpass.render_pass, render_pass);
    let description = subpass.description();
    assert_eq!(description.color_attachments(), vec![DIFFUSE, NORMALS]);
    assert_eq!(description.depth_stencil_attachment(), Some(DEPTH_STENCIL));
    assert_eq!(description.input_attachments(), Vec::<usize>::new());
    assert_eq!(description.attachments_in_role(AttachmentRole::Unused), vec![FINAL_COLOR]);
    assert_eq!(subpass.num_color_attachments(), 2);
}

#[test]
fn the_second_subpass_reads_the_gbuffer_and_writes_the_final_colour() {
    let render_pass = RenderPass::deferred(Format::B8G8R8A8_UNORM);
    let subpass = render_pass.subpass(LIGHTING_SUBPASS).unwrap();
    assert_eq!(subpass.subpass_id, 1);
    let description = subpass.description();
    assert_eq!(description.color_attachments(), vec![FINAL_COLOR]);
    assert_eq!(description.depth_stencil_attachment(), None);
    assert_eq!(description.input_attachments(), vec![DIFFUSE, NORMALS, DEPTH_STENCIL]);
    assert_eq!(subpass.num_color_attachments(), 1);
}

#[test]
fn the_render_pass_has_exactly_two_subpasses() {
    let render_pass = RenderPass::deferred(Format::B8G8R8A8_UNORM);
    assert!(render_pass.subpass(0).is_some());
    assert!(render_pass.subpass(1).is_some());
    assert!(render_pass.subpass(2).is_none());
    assert!(render_pass.subpass(u32::MAX).is_none());
}

#[test]
fn an_attachment_begins_in_the_layout_of_its_first_use_and_ends_in_that_of_its_last() {
    let render_pass = RenderPass::deferred(Format::B8G8R8A8_UNORM);
    let color = Some(ImageLayout::ColorAttachmentOptimal);
    let depth = Some(ImageLayout::DepthStencilAttachmentOptimal);
    let read = Some(ImageLayout::ShaderReadOnlyOptimal);
    assert_eq!(render_pass.initial_layout(FINAL_COLOR), color);
    assert_eq!(render_pass.final_layout(FINAL_COLOR), color);
    assert_eq!(render_pass.initial_layout(DIFFUSE), color);
    assert_eq!(render_pass.final_layout(DIFFUSE), read);
    assert_eq!(render_pass.initial_layout(NORMALS), color);
    assert_eq!(render_pass.final_layout(NORMALS), read);
    assert_eq!(render_pass.initial_layout(DEPTH_STENCIL), depth);
    assert_eq!(render_pass.final_layout(DEPTH_STENCIL), read);
}

#[test]
fn roles_have_layouts_unless_unused() {
    assert_eq!(AttachmentRole::Unused.layout(), None);
    assert_eq!(AttachmentRole::Color.layout(), Some(ImageLayout::ColorAttachmentOptimal));
    assert_eq!(
        AttachmentRole::DepthStencil.layout(),
        Some(ImageLayout::DepthStencilAttachmentOptimal)
    );
    assert_eq!(AttachmentRole::Input.layout(), Some(ImageLayout::ShaderReadOnlyOptimal));
    assert!(AttachmentRole::Input.same(AttachmentRole::Input));
    assert!(!AttachmentRole::Input.same(AttachmentRole::Color));
}

#[test]
fn the_graphics_context_wants_a_colour_format() {
    let context = GraphicsContext::new(Format::R8G8B8A8_SRGB).unwrap();
    assert_eq!(context.color_attachment().format, Format::R8G8B8A8_SRGB);
    assert_eq!(context.color_attachment().load_op, AttachmentLoadOp::Clear);
    assert_eq!(context.color_attachment().store_op, AttachmentStoreOp::Store);
    assert_eq!(context.depth_stencil_attachment().format, Format::D16_UNORM);
    assert_eq!(context.depth_stencil_attachment().store_op, AttachmentStoreOp::DontCare);
    assert_eq!(
        GraphicsContext::new(Format::D32_SFLOAT).err(),
        Some(RenderError::TargetFormatNotColor)
    );
}

#[test]
fn an_effect_tessellates_when_it_has_both_tessellation_stages() {
    let plain = Effect::builder("vs", "fs").build();
    assert_eq!((plain.vertex, plain.fragment), ("vs", "fs"));
    assert_eq!((plain.tess_control, plain.tess_evaluation), (None, None));
    assert!(!plain.is_tesselation());

    let half = EffectBuilder::new("vs", "fs").tesselation_control_shader("tc").build();
    assert_eq!(half.tess_control, Some("tc"));
    assert!(!half.is_tesselation());
    let other_half = EffectBuilder::new("vs", "fs").tesselation_evaluation_shader("te").build();
    assert_eq!(other_half.tess_evaluation, Some("te"));
    assert!(!other_half.is_tesselation());

    let full = EffectBuilder::new("vs", "fs")
        .tesselation_evaluation_shader("te")
        .tesselation_control_shader("tc")
        .tesselation_control_shader("tc2")
        .build();
    assert_eq!((full.vertex, full.fragment), ("vs", "fs"));
    assert_eq!((full.tess_control, full.tess_evaluation), (Some("tc2"), Some("te")));
    assert!(full.is_tesselation());
}
