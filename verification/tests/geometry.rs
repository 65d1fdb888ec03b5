use triton::renderer::geometry_shaders::{
    cube_indices, cube_vertices, FrameData, ObjectData, VertexPositionColorNormal, CUBE_INDICES,
    CUBE_VERTEX_COUNT,
};
use triton::renderer::helpers::{
    select_physical_device, PhysicalDevice, PhysicalDeviceType, QueueFamily,
};
use triton::renderer::linear::Matrix4;
use triton::renderer::mesh::MeshBuilder;
use triton::renderer::pipeline::{GraphicsPipeline, Shaders};
use triton::renderer::recording::{IndexedDraw, SecondaryRecording};
use triton::renderer::render_data::RenderData;
use triton::renderer::render_pass::{RenderPass, Subpass};
use triton::renderer::image::Format;
use triton::GeometrySystem;

fn bits(values: [f32; 3]) -> [u32; 3] {
    [values[0].to_bits(), values[1].to_bits(), values[2].to_bits()]
}

fn vertex(x: f32, y: f32, z: f32) -> VertexPositionColorNormal {
    VertexPositionColorNormal {
        position: bits([x, y, z]),
        color: bits([1.0, 1.0, 1.0]),
        normal: bits([0.0, 0.0, 1.0]),
    }
}

fn matrix(columns: [[f32; 4]; 4]) -> Matrix4 {
    let column = |c: [f32; 4]| [c[0].to_bits(), c[1].to_bits(), c[2].to_bits(), c[3].to_bits()];
    Matrix4 {
        x: column(columns[0]),
        y: column(columns[1]),
        z: column(columns[2]),
        w: column(columns[3]),
    }
}

fn translation(x: f32, y: f32, z: f32) -> Matrix4 {
    matrix([
        [1.0, 0.0, 0.0, 0.0],
        [0.0, 1.0, 0.0, 0.0],
        [0.0, 0.0, 1.0, 0.0],
        [x, y, z, 1.0],
    ])
}

fn quad() -> (Vec<VertexPositionColorNormal>, Vec<u16>) {
    (
        vec![
            vertex(-1.0, -1.0, 0.0),
            vertex(1.0, -1.0, 0.0),
            vertex(1.0, 1.0, 0.0),
            vertex(-1.0, 1.0, 0.0),
        ],
        vec![0, 1, 2, 2, 3, 0],
    )
}

fn triangle() -> (Vec<VertexPositionColorNormal>, Vec<u16>) {
    (
        vec![vertex(0.0, 1.0, 0.0), vertex(-1.0, -1.0, 0.0), vertex(1.0, -1.0, 0.0)],
        vec![0, 1, 2],
    )
}

fn deferred_subpass() -> Subpass {
    RenderPass::deferred(Format::B8G8R8A8_UNORM).subpass(0).unwrap()
}

fn geometry_of(recording: SecondaryRecording) -> triton::renderer::recording::GeometryRecording {
    match recording {
        SecondaryRecording::Geometry(recording) => recording,
        SecondaryRecording::Lighting(_) => panic!("the geometry system records geometry"),
    }
}

#[test]
fn the_identity_has_ones_on_the_diagonal() {
    assert_eq!(Matrix4::identity(), translation(0.0, 0.0, 0.0));
    assert_eq!(triton::renderer::linear::ONE, 1.0f32.to_bits());
    assert_eq!(triton::renderer::linear::ZERO, 0.0f32.to_bits());
    assert_eq!(triton::renderer::linear::MINUS_ONE, (-1.0f32).to_bits());
    assert_eq!(triton::renderer::linear::THREE, 3.0f32.to_bits());
}

#[test]
fn a_new_geometry_system_is_empty() {
    let system = GeometrySystem::new(deferred_subpass());
    assert_eq!(system.mesh_count(), 0);
    assert_eq!(system.object_count(), 0);
    assert_eq!(system.camera_params(), (Matrix4::identity(), Matrix4::identity()));
}

#[test]
fn meshes_get_their_handles_in_creation_order() {
    let mut system = GeometrySystem::new(deferred_subpass());
    for expected in 0..5usize {
        let (verts, indices) = if expected % 2 == 0 { quad() } else { triangle() };
        assert_eq!(system.create_mesh(verts, indices), expected);
        assert_eq!(system.mesh_count(), expected + 1);
    }
}

#[test]
fn a_handle_keeps_its_mesh() {
    let mut system = GeometrySystem::new(deferred_subpass());
    let (quad_verts, quad_indices) = quad();
    let a = system.create_mesh(quad_verts.clone(), quad_indices.clone());
    let before = system.mesh(a).clone();
    assert_eq!(before.vertex_buffer, quad_verts);
    assert_eq!(before.index_buffer, quad_indices);

    let (verts, indices) = triangle();
    let b = system.create_mesh(verts.clone(), indices.clone());
    system.enqueue_mesh(b, Matrix4::identity());
    system.set_camera_params((translation(1.0, 2.0, 3.0), Matrix4::identity()));
    system.draw([640, 480]);
    let (more_verts, more_indices) = quad();
    system.create_mesh(more_verts, more_indices);

    assert_eq!(*system.mesh(a), before);
    assert_eq!(system.mesh(b).vertex_buffer, verts);
    assert_eq!(system.mesh(b).index_buffer, indices);
}

#[test]
fn draw_records_one_indexed_draw_per_enqueued_object() {
    let mut system = GeometrySystem::new(deferred_subpass());
    let (verts, indices) = quad();
    let mesh = system.create_mesh(verts, indices);
    for k in 0..7usize {
        for _ in 0..k {
            system.enqueue_mesh(mesh, Matrix4::identity());
        }
        assert_eq!(system.object_count(), k);
        let recording = geometry_of(system.draw([800, 600]));
        assert_eq!(recording.draws.len(), k);
        assert_eq!(recording.object_data.len(), k);
        for (i, draw) in recording.draws.iter().enumerate() {
            assert_eq!(draw.first_instance as usize, i);
            assert_eq!(draw.instance_count, 1);
        }
        assert_eq!(system.object_count(), 0);
    }
}

#[test]
fn draw_without_objects_records_no_draw() {
    let mut system = GeometrySystem::new(deferred_subpass());
    let recording = geometry_of(system.draw([1, 1]));
    assert!(recording.draws.is_empty());
    assert!(recording.object_data.is_empty());
    assert_eq!(recording.viewport_dimensions, [1, 1]);
}

#[test]
fn quad_and_triangle_are_drawn_with_their_own_indices() {
    let mut system = GeometrySystem::new(deferred_subpass());
    let (quad_verts, quad_indices) = quad();
    let (tri_verts, tri_indices) = triangle();
    let a = system.create_mesh(quad_verts, quad_indices);
    let b = system.create_mesh(tri_verts, tri_indices);
    assert_eq!((a, b), (0, 1));

    system.enqueue_mesh(a, Matrix4::identity());
    system.enqueue_mesh(b, translation(5.0, 0.0, 0.0));
    system.set_camera_params((Matrix4::identity(), Matrix4::identity()));

    let recording = geometry_of(system.draw([800, 600]));
    assert_eq!(
        recording.draws,
        vec![
            IndexedDraw {
                mesh: 0,
                index_count: 6,
                instance_count: 1,
                first_index: 0,
                vertex_offset: 0,
                first_instance: 0,
            },
            IndexedDraw {
                mesh: 1,
                index_count: 3,
                instance_count: 1,
                first_index: 0,
                vertex_offset: 0,
                first_instance: 1,
            },
        ]
    );
    assert_eq!(
        recording.object_data,
        vec![
            ObjectData { model: Matrix4::identity() },
            ObjectData { model: translation(5.0, 0.0, 0.0) },
        ]
    );
    assert_eq!(
        recording.frame_data,
        FrameData { view: Matrix4::identity(), proj: Matrix4::identity() }
    );
    assert_eq!(recording.viewport_dimensions, [800, 600]);
    assert_eq!(system.object_count(), 0);
}

#[test]
fn the_same_mesh_can_be_drawn_many_times() {
    let mut system = GeometrySystem::new(deferred_subpass());
    let (verts, indices) = triangle();
    let mesh = system.create_mesh(verts, indices);
    system.enqueue_mesh(mesh, translation(1.0, 0.0, 0.0));
    system.enqueue_mesh(mesh, translation(2.0, 0.0, 0.0));
    system.enqueue_mesh(mesh, translation(3.0, 0.0, 0.0));
    let recording = geometry_of(system.draw([10, 10]));
    let instances: Vec<u32> = recording.draws.iter().map(|d| d.first_instance).collect();
    assert_eq!(instances, vec![0, 1, 2]);
    assert!(recording.draws.iter().all(|d| d.mesh == mesh && d.index_count == 3));
    assert_eq!(recording.object_data[2].model, translation(3.0, 0.0, 0.0));
}

#[test]
fn an_object_may_be_enqueued_before_its_mesh_exists() {
    let mut system = GeometrySystem::new(deferred_subpass());
    system.enqueue_mesh(0, Matrix4::identity());
    let (verts, indices) = quad();
    assert_eq!(system.create_mesh(verts, indices), 0);
    let recording = geometry_of(system.draw([10, 10]));
    assert_eq!(recording.draws.len(), 1);
    assert_eq!(recording.draws[0].index_count, 6);
}

#[test]
fn the_camera_stays_until_it_is_replaced() {
    let mut system = GeometrySystem::new(deferred_subpass());
    let proj = translation(0.0, 0.0, -1.0);
    let view = translation(0.0, 2.0, 0.0);
    system.set_camera_params((proj, view));
    assert_eq!(system.camera_params(), (proj, view));
    for _ in 0..3 {
        let recording = geometry_of(system.draw([10, 10]));
        assert_eq!(recording.frame_data, FrameData { view, proj });
    }
    system.set_camera_params((view, proj));
    let recording = geometry_of(system.draw([10, 10]));
    assert_eq!(recording.frame_data, FrameData { view: proj, proj: view });
}

#[test]
fn the_geometry_pipeline_tests_depth_and_overwrites_two_attachments() {
    let subpass = deferred_subpass();
    let mut system = GeometrySystem::new(subpass);
    let recording = geometry_of(system.draw([10, 10]));
    assert_eq!(recording.pipeline, GraphicsPipeline::new(Shaders::Geometry, subpass, true, None));
    assert_eq!(recording.pipeline.shaders, Shaders::Geometry);
    assert_eq!(recording.pipeline.subpass, subpass);
    assert!(recording.pipeline.depth_test);
    assert_eq!(recording.pipeline.color_blend_state.attachment_count, 2);
    assert_eq!(recording.pipeline.color_blend_state.attachment_state.blend, None);
    assert_eq!(SecondaryRecording::Geometry(recording).subpass_id(), 0);
}

#[test]
fn a_mesh_builder_keeps_the_last_lists_given() {
    let (quad_verts, quad_indices) = quad();
    let (tri_verts, tri_indices) = triangle();
    let mesh = MeshBuilder::default()
        .with_vertices(quad_verts)
        .with_indices(quad_indices)
        .with_indices(tri_indices.clone())
        .with_vertices(tri_verts.clone())
        .build();
    assert_eq!(mesh.vertex_buffer, tri_verts);
    assert_eq!(mesh.index_buffer, tri_indices);
    assert_eq!(mesh.index_count(), 3);
}

#[test]
fn render_data_numbers_the_objects_in_submission_order() {
    let mut data = RenderData::default();
    assert_eq!(data.mesh_position(), 0);
    let (verts, indices) = quad();
    data.add_mesh(MeshBuilder::default().with_vertices(verts).with_indices(indices).build());
    let (verts, indices) = triangle();
    data.add_mesh(MeshBuilder::default().with_vertices(verts).with_indices(indices).build());
    assert_eq!(data.mesh_position(), 2);

    data.add_object_data(1, ObjectData { model: translation(1.0, 0.0, 0.0) });
    data.add_object_data(0, ObjectData { model: translation(2.0, 0.0, 0.0) });
    data.add_object_data(1, ObjectData { model: translation(3.0, 0.0, 0.0) });
    assert_eq!(data.object_count(), 3);
    assert_eq!(data.mesh_handle(1), 0);

    let pairs = data.render_iter();
    let seen: Vec<(u32, usize)> = pairs.iter().map(|(i, m)| (*i, m.index_buffer.len())).collect();
    assert_eq!(seen, vec![(0, 3), (1, 6), (2, 3)]);
    assert_eq!(
        data.object_data(),
        vec![
            ObjectData { model: translation(1.0, 0.0, 0.0) },
            ObjectData { model: translation(2.0, 0.0, 0.0) },
            ObjectData { model: translation(3.0, 0.0, 0.0) },
        ]
    );

    data.reset_object_data();
    assert_eq!(data.object_count(), 0);
    assert_eq!(data.mesh_position(), 2);
    assert!(data.render_iter().is_empty());
}

#[test]
fn render_data_starts_with_identity_cameras() {
    let mut data = RenderData::default();
    assert_eq!(data.cam_matrices(), (Matrix4::identity(), Matrix4::identity()));
    data.update_cam_matrices((translation(1.0, 1.0, 1.0), Matrix4::identity()));
    assert_eq!(data.cam_matrices().0, translation(1.0, 1.0, 1.0));
    assert_eq!(data.cam_matrices().1, Matrix4::identity());
}

#[test]
fn the_cube_has_two_triangles_on_each_of_six_faces() {
    let indices = cube_indices();
    assert_eq!(indices.len(), 36);
    assert_eq!(indices, CUBE_INDICES.to_vec());
    assert_eq!(CUBE_VERTEX_COUNT, 24);
    for (i, index) in indices.iter().enumerate() {
        let face = i / 6;
        assert!((*index as usize) < CUBE_VERTEX_COUNT);
        assert!(4 * face <= *index as usize && (*index as usize) < 4 * face + 4);
    }
    assert_eq!(&indices[0..6], &[0, 1, 2, 2, 3, 0]);
    assert_eq!(&indices[30..36], &[20, 21, 22, 22, 23, 20]);
}

#[test]
fn the_cube_has_four_corners_on_each_face() {
    let vertices = cube_vertices();
    assert_eq!(vertices.len(), 24);
    let one = 1.0f32.to_bits();
    let minus_one = (-1.0f32).to_bits();
    // Axis and side of the faces: front, right, back, left, top, bottom.
    let faces = [(2, one), (0, one), (2, minus_one), (0, minus_one), (1, one), (1, minus_one)];
    for (i, vertex) in vertices.iter().enumerate() {
        let (axis, side) = faces[i / 4];
        for k in 0..3 {
            assert!(vertex.position[k] == one || vertex.position[k] == minus_one);
            assert!(vertex.color[k] == one || vertex.color[k] == 0);
            assert_eq!(vertex.normal[k], if k == axis { side } else { 0 });
        }
        assert_eq!(vertex.position[axis], side);
    }
    assert_eq!(
        vertices[0],
        VertexPositionColorNormal {
            position: bits([-1.0, -1.0, 1.0]),
            color: bits([1.0, 1.0, 1.0]),
            normal: bits([0.0, 0.0, 1.0]),
        }
    );
    assert_eq!(
        vertices[5],
        VertexPositionColorNormal {
            position: bits([1.0, -1.0, -1.0]),
            color: bits([1.0, 0.0, 1.0]),
            normal: bits([1.0, 0.0, 0.0]),
        }
    );
    assert_eq!(
        vertices[23],
        VertexPositionColorNormal {
            position: bits([-1.0, -1.0, -1.0]),
            color: bits([0.0, 0.0, 1.0]),
            normal: bits([0.0, -1.0, 0.0]),
        }
    );
}

#[test]
fn the_cube_can_be_drawn() {
    let mut system = GeometrySystem::new(deferred_subpass());
    let cube = system.create_mesh(cube_vertices(), cube_indices());
    system.enqueue_mesh(cube, Matrix4::identity());
    system.enqueue_mesh(cube, translation(5.0, 0.0, 0.0));
    let recording = geometry_of(system.draw([800, 600]));
    assert_eq!(recording.draws.len(), 2);
    assert!(recording.draws.iter().all(|draw| draw.index_count == 36 && draw.mesh == cube));
}

fn family(graphics: bool, surface_support: bool) -> QueueFamily {
    QueueFamily { graphics, surface_support }
}

fn device(
    device_type: PhysicalDeviceType,
    supports_extensions: bool,
    queue_families: Vec<QueueFamily>,
) -> PhysicalDevice {
    PhysicalDevice { device_type, supports_extensions, queue_families }
}

#[test]
fn device_types_are_ranked_by_likely_speed() {
    assert_eq!(PhysicalDeviceType::DiscreteGpu.score(), 0);
    assert_eq!(PhysicalDeviceType::IntegratedGpu.score(), 1);
    assert_eq!(PhysicalDeviceType::VirtualGpu.score(), 2);
    assert_eq!(PhysicalDeviceType::Cpu.score(), 3);
    assert_eq!(PhysicalDeviceType::Other.score(), 4);
}

#[test]
fn the_first_queue_family_that_draws_and_presents_is_used() {
    let d = device(
        PhysicalDeviceType::DiscreteGpu,
        true,
        vec![family(false, true), family(true, false), family(true, true), family(true, true)],
    );
    assert_eq!(d.queue_family(), Some(2));
    let d = device(PhysicalDeviceType::DiscreteGpu, true, vec![family(true, false)]);
    assert_eq!(d.queue_family(), None);
    let d = device(PhysicalDeviceType::DiscreteGpu, true, vec![]);
    assert_eq!(d.queue_family(), None);
}

#[test]
fn the_fastest_eligible_device_is_selected() {
    let usable = || vec![family(false, false), family(true, true)];
    let devices = vec![
        device(PhysicalDeviceType::Cpu, true, usable()),
        device(PhysicalDeviceType::DiscreteGpu, false, usable()),
        device(PhysicalDeviceType::DiscreteGpu, true, vec![family(true, false)]),
        device(PhysicalDeviceType::IntegratedGpu, true, usable()),
        device(PhysicalDeviceType::IntegratedGpu, true, vec![family(true, true)]),
        device(PhysicalDeviceType::VirtualGpu, true, usable()),
    ];
    assert_eq!(select_physical_device(&devices), Some((3, 1)));
    assert_eq!(select_physical_device(&devices[..1].to_vec()), Some((0, 1)));
    assert_eq!(select_physical_device(&devices[1..3].to_vec()), None);
    assert_eq!(select_physical_device(&Vec::new()), None);

    let mut with_discrete = devices.clone();
    with_discrete.push(device(PhysicalDeviceType::DiscreteGpu, true, vec![family(true, true)]));
    assert_eq!(select_physical_device(&with_discrete), Some((6, 0)));
}

#[test]
fn a_mesh_may_be_empty() {
    let mut system = GeometrySystem::new(deferred_subpass());
    let empty = system.create_mesh(Vec::new(), Vec::new());
    assert_eq!(empty, 0);
    assert!(system.mesh(empty).vertex_buffer.is_empty());
    system.enqueue_mesh(empty, Matrix4::identity());
    let recording = geometry_of(system.draw([4, 4]));
    assert_eq!(recording.draws.len(), 1);
    assert_eq!(recording.draws[0].index_count, 0);
    let mesh = MeshBuilder::default().build();
    assert!(mesh.vertex_buffer.is_empty() && mesh.index_buffer.is_empty());
}
