use triton::renderer::frame::{ClearValue, Frame, Framebuffer, PrimaryCommandBuffer, PASS_COUNT};
use triton::renderer::frame_system::FrameSystem;
use triton::renderer::geometry_shaders::VertexPositionColorNormal;
use triton::renderer::image::{Format, ImageUsage, ImageView};
use triton::renderer::light::Light;
use triton::renderer::lighting::{full_screen_triangle, LightingVertex};
use triton::renderer::linear::{Matrix4, Vector3};
use triton::renderer::pass::{Pass, Phase};
use triton::renderer::pipeline::{AttachmentBlend, BlendOp, BlendWeight, Shaders};
use triton::renderer::recording::{LightingRecording, PushConstants, SecondaryRecording};
use triton::renderer::render_pass::RenderPass;
use triton::renderer::RenderError;
use triton::GeometrySystem;

fn target(width: u32, height: u32) -> ImageView {
    ImageView {
        extent: [width, height, 1],
        format: Format::B8G8R8A8_UNORM,
        usage: ImageUsage {
            color_attachment: true,
            depth_stencil_attachment: false,
            transient_attachment: false,
            input_attachment: false,
        },
    }
}

fn color(r: f32, g: f32, b: f32) -> [u32; 3] {
    [r.to_bits(), g.to_bits(), b.to_bits()]
}

fn vector(x: f32, y: f32, z: f32) -> Vector3 {
    Vector3 { x: x.to_bits(), y: y.to_bits(), z: z.to_bits() }
}

fn scaling(s: f32) -> Matrix4 {
    let o = 0.0f32.to_bits();
    let s = s.to_bits();
    Matrix4 { x: [s, o, o, o], y: [o, s, o, o], z: [o, o, s, o], w: [o, o, o, 1.0f32.to_bits()] }
}

fn system() -> FrameSystem {
    FrameSystem::new(Format::B8G8R8A8_UNORM).unwrap()
}

fn lighting_of(recording: &SecondaryRecording) -> LightingRecording {
    match recording {
        SecondaryRecording::Lighting(recording) => *recording,
        SecondaryRecording::Geometry(_) => panic!("a light records lighting"),
    }
}

fn phases_of(frame: &mut Frame<'_, u32>, calls: usize) -> Vec<Option<Phase>> {
    let mut phases = Vec::new();
    for _ in 0..calls {
        phases.push(frame.next_pass().map(|pass| pass.phase()));
    }
    phases
}

#[test]
fn a_frame_system_wants_a_colour_target() {
    assert!(FrameSystem::new(Format::B8G8R8A8_UNORM).is_ok());
    assert!(FrameSystem::new(Format::R8G8B8A8_SRGB).is_ok());
    assert_eq!(
        FrameSystem::new(Format::D16_UNORM).err(),
        Some(RenderError::TargetFormatNotColor)
    );
    assert_eq!(
        FrameSystem::new(Format::D32_SFLOAT).err(),
        Some(RenderError::TargetFormatNotColor)
    );
}

#[test]
fn a_new_frame_system_has_a_gbuffer_of_one_texel() {
    let system = system();
    assert_eq!(system.render_pass_description(), RenderPass::deferred(Format::B8G8R8A8_UNORM));
    assert_eq!(system.diffuse_buffer().extent, [1, 1, 1]);
    assert_eq!(system.normals_buffer().extent, [1, 1, 1]);
    assert_eq!(system.depth_buffer().extent, [1, 1, 1]);
    assert_eq!(system.diffuse_buffer().format, Format::A2B10G10R10_UNORM_PACK32);
    assert_eq!(system.normals_buffer().format, Format::R16G16B16A16_SFLOAT);
    assert_eq!(system.depth_buffer().format, Format::D16_UNORM);
    assert!(system.diffuse_buffer().usage.color_attachment);
    assert!(system.diffuse_buffer().usage.input_attachment);
    assert!(system.normals_buffer().usage.transient_attachment);
    assert!(!system.depth_buffer().usage.depth_stencil_attachment);
    assert_eq!(system.deferred_subpass().subpass_id, 0);
    assert_eq!(system.deferred_subpass().render_pass, system.render_pass_description());
}

#[test]
fn the_passes_come_in_order_and_then_never_again() {
    let mut system = system();
    let mut frame = system.frame(0u32, target(8, 8), Matrix4::identity(), None).unwrap();
    assert_eq!(frame.passes_started(), 0);
    assert_eq!(
        phases_of(&mut frame, 10),
        vec![
            Some(Phase::Deferred),
            Some(Phase::Lighting),
            Some(Phase::Finished),
            None,
            None,
            None,
            None,
            None,
            None,
            None,
        ]
    );
    assert_eq!(frame.passes_started(), PASS_COUNT);
}

#[test]
fn a_frame_says_nothing_after_a_thousand_calls() {
    let mut system = system();
    let mut frame = system.frame(0u32, target(8, 8), Matrix4::identity(), None).unwrap();
    let phases = phases_of(&mut frame, 1000);
    assert!(phases[3..].iter().all(|phase| phase.is_none()));
    assert_eq!(frame.passes_started(), 3);
}

#[test]
fn the_pass_counter_follows_the_calls() {
    let mut system = system();
    let mut frame = system.frame(0u32, target(8, 8), Matrix4::identity(), None).unwrap();
    for expected in [1u8, 2, 3, 3, 3] {
        let _ = frame.next_pass();
        assert_eq!(frame.passes_started(), expected);
    }
}

#[test]
fn the_gbuffer_follows_the_extent_of_the_target() {
    let mut system = system();
    {
        let frame = system.frame(0u32, target(800, 600), Matrix4::identity(), None).unwrap();
        assert!(frame.recreated_gbuffer());
        let framebuffer = frame.target();
        assert_eq!(framebuffer.extent(), [800, 600]);
        assert_eq!(framebuffer.attachments[0], target(800, 600));
        assert_eq!(framebuffer.attachments[1], frame.frame_system().diffuse_buffer());
        assert_eq!(framebuffer.attachments[2], frame.frame_system().normals_buffer());
        assert_eq!(framebuffer.attachments[3], frame.frame_system().depth_buffer());
        assert_eq!(framebuffer.render_pass, RenderPass::deferred(Format::B8G8R8A8_UNORM));
    }
    for image in [system.diffuse_buffer(), system.normals_buffer(), system.depth_buffer()] {
        assert_eq!(image.extent, [800, 600, 1]);
        assert!(image.usage.transient_attachment);
        assert!(image.usage.input_attachment);
    }
    assert!(system.diffuse_buffer().usage.color_attachment);
    assert!(system.normals_buffer().usage.color_attachment);
    assert!(!system.depth_buffer().usage.color_attachment);
    assert!(system.depth_buffer().usage.depth_stencil_attachment);
    {
        let frame = system.frame(0u32, target(800, 600), Matrix4::identity(), None).unwrap();
        assert!(!frame.recreated_gbuffer());
    }
    {
        let frame = system.frame(0u32, target(800, 601), Matrix4::identity(), None).unwrap();
        assert!(frame.recreated_gbuffer());
    }
    assert_eq!(system.depth_buffer().extent, [800, 601, 1]);
}

#[test]
fn a_target_of_one_texel_leaves_the_stand_in_gbuffer_which_cannot_be_drawn_to() {
    let mut system = system();
    let before = (system.diffuse_buffer(), system.normals_buffer(), system.depth_buffer());
    let frame = system.frame(0u32, target(1, 1), Matrix4::identity(), None);
    assert_eq!(frame.err(), Some(RenderError::AttachmentUsage));
    assert_eq!(
        (system.diffuse_buffer(), system.normals_buffer(), system.depth_buffer()),
        before
    );
    // Once a larger target has given the G-buffer its size, one texel works.
    assert!(system.frame(0u32, target(2, 1), Matrix4::identity(), None).is_ok());
    let frame = system.frame(0u32, target(1, 1), Matrix4::identity(), None).unwrap();
    assert!(frame.recreated_gbuffer());
    assert_eq!(frame.target().check(), Ok(()));
}

#[test]
fn a_target_that_is_no_colour_attachment_is_refused() {
    let mut system = system();
    let mut image = target(64, 64);
    image.usage.color_attachment = false;
    let frame = system.frame(0u32, image, Matrix4::identity(), None);
    assert_eq!(frame.err(), Some(RenderError::AttachmentUsage));
    assert_eq!(system.diffuse_buffer().extent, [64, 64, 1]);
}

#[test]
fn a_framebuffer_is_checked_for_formats_first_and_usages_second() {
    let mut system = system();
    let good = system.frame(0u32, target(8, 8), Matrix4::identity(), None).unwrap().target();
    assert_eq!(good.check(), Ok(()));

    let mut wrong_format = good;
    wrong_format.attachments[2].format = Format::D16_UNORM;
    assert_eq!(wrong_format.check(), Err(RenderError::AttachmentFormatMismatch));

    let mut not_an_input = good;
    not_an_input.attachments[3].usage.input_attachment = false;
    assert_eq!(not_an_input.check(), Err(RenderError::AttachmentUsage));

    let mut not_written = good;
    not_written.attachments[1].usage.color_attachment = false;
    assert_eq!(not_written.check(), Err(RenderError::AttachmentUsage));

    let mut both = good;
    both.attachments[0].format = Format::R8G8B8A8_SRGB;
    both.attachments[3].usage.depth_stencil_attachment = false;
    assert_eq!(both.check(), Err(RenderError::AttachmentFormatMismatch));

    // A usage that no subpass needs does no harm.
    let mut more = good;
    more.attachments[0].usage.input_attachment = true;
    more.attachments[0].usage.transient_attachment = true;
    assert_eq!(more.check(), Ok(()));
}

#[test]
fn a_target_of_another_format_is_refused() {
    let mut system = system();
    let mut image = target(64, 64);
    image.format = Format::B8G8R8A8_SRGB;
    let frame = system.frame(0u32, image, Matrix4::identity(), None);
    assert_eq!(frame.err(), Some(RenderError::AttachmentFormatMismatch));
    // The G-buffer was fitted to the image before the image was refused.
    assert_eq!(system.diffuse_buffer().extent, [64, 64, 1]);
}

#[test]
fn a_fresh_frame_has_begun_the_render_pass_and_recorded_nothing() {
    let mut system = system();
    let mut frame = system.frame(42u32, target(320, 200), scaling(2.0), None).unwrap();
    assert_eq!(frame.view_transform(), scaling(2.0));
    assert_eq!(frame.inverse_view_transform(), None);
    let framebuffer = frame.target();
    let _ = frame.next_pass();
    let _ = frame.next_pass();
    match frame.next_pass() {
        Some(Pass::Finished(submission)) => {
            assert_eq!(submission.after, 42);
            assert_eq!(
                submission.command_buffer,
                PrimaryCommandBuffer {
                    framebuffer,
                    clear_values: [
                        ClearValue::Float([0; 4]),
                        ClearValue::Float([0; 4]),
                        ClearValue::Float([0; 4]),
                        ClearValue::Depth(1.0f32.to_bits()),
                    ],
                    deferred: vec![],
                    lighting: vec![],
                }
            );
        }
        _ => panic!("the third pass finishes the frame"),
    }
}

#[test]
fn the_deferred_pass_executes_geometry_in_order() {
    let mut system = system();
    let mut geometry = GeometrySystem::new(system.deferred_subpass());
    let vertex = VertexPositionColorNormal { position: [0; 3], color: [0; 3], normal: [0; 3] };
    let mesh = geometry.create_mesh(vec![vertex; 3], vec![0, 1, 2]);
    let mut frame = system.frame(1u32, target(30, 20), Matrix4::identity(), None).unwrap();
    let mut recorded = Vec::new();
    match frame.next_pass() {
        Some(Pass::Deferred(mut draw_pass)) => {
            assert_eq!(draw_pass.viewport_dimensions(), [30, 20]);
            assert_eq!(draw_pass.world_to_framebuffer_matrix(), Matrix4::identity());
            for count in [1usize, 0, 2] {
                for _ in 0..count {
                    geometry.enqueue_mesh(mesh, Matrix4::identity());
                }
                let recording = geometry.draw(draw_pass.viewport_dimensions());
                recorded.push(recording.clone());
                assert_eq!(draw_pass.execute(recording), Ok(()));
            }
        }
        _ => panic!("the first pass is the deferred pass"),
    }
    let _ = frame.next_pass();
    match frame.next_pass() {
        Some(Pass::Finished(submission)) => {
            assert_eq!(submission.command_buffer.deferred, recorded);
            assert!(submission.command_buffer.lighting.is_empty());
        }
        _ => panic!("the third pass finishes the frame"),
    }
}

#[test]
fn the_deferred_pass_refuses_a_recording_of_the_lighting_subpass() {
    let mut system = system();
    let light = system.ambient_lighting_system().draw(
        [30, 20],
        system.diffuse_buffer(),
        color(1.0, 1.0, 1.0),
    );
    let mut frame = system.frame(1u32, target(30, 20), Matrix4::identity(), None).unwrap();
    match frame.next_pass() {
        Some(Pass::Deferred(mut draw_pass)) => {
            assert_eq!(draw_pass.execute(light), Err(RenderError::SubpassMismatch));
        }
        _ => panic!("the first pass is the deferred pass"),
    }
    let _ = frame.next_pass();
    match frame.next_pass() {
        Some(Pass::Finished(submission)) => {
            assert!(submission.command_buffer.deferred.is_empty());
        }
        _ => panic!("the third pass finishes the frame"),
    }
}

#[test]
fn each_light_records_one_draw_of_the_full_screen_triangle() {
    let mut system = system();
    let inverse = scaling(0.5);
    let mut frame = system.frame(1u32, target(640, 480), scaling(2.0), Some(inverse)).unwrap();
    let _ = frame.next_pass();
    match frame.next_pass() {
        Some(Pass::Lighting(mut lighting)) => {
            lighting.ambient_light(color(0.01, 0.01, 0.01));
            lighting.directional_light(vector(0.2, -0.1, -0.7), color(0.6, 0.6, 0.6));
            assert_eq!(lighting.point_light(vector(0.5, -0.5, -0.1), color(1.0, 0.0, 0.0)), Ok(()));
        }
        _ => panic!("the second pass is the lighting pass"),
    }
    let gbuffer = (system_images(&frame).0, system_images(&frame).1, system_images(&frame).2);
    let submission = match frame.next_pass() {
        Some(Pass::Finished(submission)) => submission,
        _ => panic!("the third pass finishes the frame"),
    };
    let lights: Vec<LightingRecording> =
        submission.command_buffer.lighting.iter().map(lighting_of).collect();
    assert_eq!(lights.len(), 3);
    let one = 1.0f32.to_bits();
    let zero = 0.0f32.to_bits();

    assert_eq!(lights[0].pipeline.shaders, Shaders::AmbientLight);
    assert_eq!(lights[0].color_input, gbuffer.0);
    assert_eq!(lights[0].normals_input, None);
    assert_eq!(lights[0].depth_input, None);
    let c = color(0.01, 0.01, 0.01);
    assert_eq!(lights[0].push_constants, PushConstants::Ambient { color: [c[0], c[1], c[2], one] });

    assert_eq!(lights[1].pipeline.shaders, Shaders::DirectionalLight);
    assert_eq!(lights[1].color_input, gbuffer.0);
    assert_eq!(lights[1].normals_input, Some(gbuffer.1));
    assert_eq!(lights[1].depth_input, None);
    let c = color(0.6, 0.6, 0.6);
    let d = vector(0.2, -0.1, -0.7);
    assert_eq!(
        lights[1].push_constants,
        PushConstants::Directional {
            color: [c[0], c[1], c[2], one],
            direction: [d.x, d.y, d.z, zero],
        }
    );

    assert_eq!(lights[2].pipeline.shaders, Shaders::PointLight);
    assert_eq!(lights[2].color_input, gbuffer.0);
    assert_eq!(lights[2].normals_input, Some(gbuffer.1));
    assert_eq!(lights[2].depth_input, Some(gbuffer.2));
    let c = color(1.0, 0.0, 0.0);
    let p = vector(0.5, -0.5, -0.1);
    assert_eq!(
        lights[2].push_constants,
        PushConstants::Point {
            screen_to_world: inverse,
            color: [c[0], c[1], c[2], one],
            position: [p.x, p.y, p.z, zero],
        }
    );

    for light in lights {
        assert_eq!(light.viewport_dimensions, [640, 480]);
        assert_eq!(
            (light.vertex_count, light.instance_count, light.first_vertex, light.first_instance),
            (3, 1, 0, 0)
        );
        assert_eq!(light.pipeline.subpass.subpass_id, 1);
        assert!(!light.pipeline.depth_test);
        assert_eq!(light.pipeline.color_blend_state.attachment_count, 1);
        assert_eq!(
            light.pipeline.color_blend_state.attachment_state.blend,
            Some(AttachmentBlend::additive())
        );
    }
}

fn system_images(frame: &Frame<'_, u32>) -> (ImageView, ImageView, ImageView) {
    let system = frame.frame_system();
    (system.diffuse_buffer(), system.normals_buffer(), system.depth_buffer())
}

#[test]
fn lighting_blends_by_pure_addition() {
    assert_eq!(
        AttachmentBlend::additive(),
        AttachmentBlend {
            color_blend_op: BlendOp::Add,
            src_color_blend_factor: BlendWeight::One,
            dst_color_blend_factor: BlendWeight::One,
            alpha_blend_op: BlendOp::Max,
            src_alpha_blend_factor: BlendWeight::One,
            dst_alpha_blend_factor: BlendWeight::One,
        }
    );
}

#[test]
fn the_full_screen_triangle_covers_the_viewport() {
    let corner = |x: f32, y: f32| LightingVertex { position: [x.to_bits(), y.to_bits()] };
    assert_eq!(
        full_screen_triangle(),
        [corner(-1.0, -1.0), corner(-1.0, 3.0), corner(3.0, -1.0)]
    );
    let system = system();
    assert_eq!(system.ambient_lighting_system().vertex_buffer(), full_screen_triangle());
    assert_eq!(system.directional_lighting_system().vertex_buffer(), full_screen_triangle());
    assert_eq!(system.point_lighting_system().vertex_buffer(), full_screen_triangle());
}

#[test]
fn a_point_light_needs_the_inverse_of_the_view_transform() {
    let mut system = system();
    let mut frame = system.frame(1u32, target(64, 64), Matrix4::identity(), None).unwrap();
    let _ = frame.next_pass();
    match frame.next_pass() {
        Some(Pass::Lighting(mut lighting)) => {
            lighting.ambient_light(color(0.5, 0.5, 0.5));
            assert_eq!(
                lighting.point_light(vector(0.0, 0.0, 0.0), color(1.0, 1.0, 1.0)),
                Err(RenderError::ViewNotInvertible)
            );
            assert_eq!(
                lighting.light(Light::Point {
                    position: vector(0.0, 0.0, 0.0),
                    color: color(1.0, 1.0, 1.0),
                }),
                Err(RenderError::ViewNotInvertible)
            );
            assert_eq!(lighting.light(Light::Ambient { color: color(0.1, 0.1, 0.1) }), Ok(()));
        }
        _ => panic!("the second pass is the lighting pass"),
    }
    match frame.next_pass() {
        Some(Pass::Finished(submission)) => {
            let shaders: Vec<Shaders> = submission
                .command_buffer
                .lighting
                .iter()
                .map(|recording| lighting_of(recording).pipeline.shaders)
                .collect();
            assert_eq!(shaders, vec![Shaders::AmbientLight, Shaders::AmbientLight]);
        }
        _ => panic!("the third pass finishes the frame"),
    }
}

#[test]
fn the_same_lights_in_another_order_record_the_same_draws() {
    let lights = [
        Light::Ambient { color: color(0.01, 0.01, 0.01) },
        Light::Directional { direction: vector(0.2, -0.1, -0.7), color: color(0.6, 0.6, 0.6) },
        Light::Point { position: vector(0.5, -0.5, -0.1), color: color(1.0, 0.0, 0.0) },
        Light::Point { position: vector(-0.9, 0.2, -0.15), color: color(0.0, 1.0, 0.0) },
        Light::Point { position: vector(0.0, 0.5, -0.05), color: color(0.0, 0.0, 1.0) },
    ];
    let orders: [[usize; 5]; 4] = [[0, 1, 2, 3, 4], [4, 3, 2, 1, 0], [2, 0, 4, 1, 3], [1, 2, 3, 4, 0]];
    let mut recorded: Vec<Vec<LightingRecording>> = Vec::new();
    for order in orders {
        let mut system = system();
        let mut frame =
            system.frame(1u32, target(64, 64), Matrix4::identity(), Some(Matrix4::identity())).unwrap();
        let _ = frame.next_pass();
        match frame.next_pass() {
            Some(Pass::Lighting(mut lighting)) => {
                for i in order {
                    assert_eq!(lighting.light(lights[i]), Ok(()));
                }
            }
            _ => panic!("the second pass is the lighting pass"),
        }
        match frame.next_pass() {
            Some(Pass::Finished(submission)) => {
                let in_order: Vec<LightingRecording> =
                    submission.command_buffer.lighting.iter().map(lighting_of).collect();
                // Undo the permutation: entry `k` was recorded for light `order[k]`.
                let mut by_light = in_order.clone();
                for (k, i) in order.iter().enumerate() {
                    by_light[*i] = in_order[k];
                }
                recorded.push(by_light);
            }
            _ => panic!("the third pass finishes the frame"),
        }
    }
    for other in &recorded[1..] {
        assert_eq!(other, &recorded[0]);
    }
}

#[test]
fn additive_blending_adds_up_to_the_same_colour_in_any_order() {
    // The blend of the lighting pipelines on whole numbers: colour is added,
    // the larger alpha stays.
    let blend = |src: [i64; 4], dst: [i64; 4]| {
        [src[0] + dst[0], src[1] + dst[1], src[2] + dst[2], src[3].max(dst[3])]
    };
    let lights = [[1, 0, 0, 1], [0, 20, 0, 1], [0, 0, 300, 1], [4, 4, 4, 0]];
    let orders: [[usize; 4]; 3] = [[0, 1, 2, 3], [3, 2, 1, 0], [2, 0, 3, 1]];
    for order in orders {
        let mut texel = [10, 10, 10, 0];
        for i in order {
            texel = blend(lights[i], texel);
        }
        assert_eq!(texel, [15, 34, 314, 1]);
    }
}

#[test]
fn a_frame_can_be_made_by_hand() {
    let mut system = system();
    assert!(system.frame(0u32, target(4, 4), Matrix4::identity(), None).is_ok());
    let framebuffer = Framebuffer {
        render_pass: system.render_pass_description(),
        attachments: [
            target(4, 4),
            system.diffuse_buffer(),
            system.normals_buffer(),
            system.depth_buffer(),
        ],
    };
    assert_eq!(framebuffer.check(), Ok(()));
    let mut frame = Frame::new(
        &system,
        7u32,
        PrimaryCommandBuffer::begin(framebuffer),
        Matrix4::identity(),
        Some(Matrix4::identity()),
    );
    assert!(!frame.recreated_gbuffer());
    assert_eq!(frame.target(), framebuffer);
    assert_eq!(
        phases_of(&mut frame, 4),
        vec![Some(Phase::Deferred), Some(Phase::Lighting), Some(Phase::Finished), None]
    );
}
