//! The geometry subsystem: owns the meshes and the objects submitted for the
//! coming frame, and records the draws of the first subpass.

use crate::renderer::geometry_shaders::{FrameData, ObjectData, VertexPositionColorNormal};
use crate::renderer::linear::Matrix4;
use crate::renderer::mesh::{BasicMesh, MeshBuilder};
use crate::renderer::pipeline::{GraphicsPipeline, Shaders};
use crate::renderer::recording::{
    GeometryRecording,
    GeometryRecordingView,
    IndexedDraw,
    SecondaryRecording,
    SecondaryRecordingView,
};
use crate::renderer::render_data::RenderData;
use crate::renderer::render_pass::Subpass;
use vstd::prelude::*;

verus! {

pub struct GeometrySystem {
    subpass: Subpass,
    pipeline: GraphicsPipeline,
    render_data: RenderData,
}

/// The draw of object `i`: the indices of its mesh, once, with the number of
/// the object as the instance number.
pub open spec fn draw_of(
    meshes: Seq<BasicMesh>,
    objects: Seq<(usize, ObjectData)>,
    i: int,
) -> IndexedDraw {
    IndexedDraw {
        mesh: objects[i].0,
        index_count: meshes[objects[i].0 as int].index_buffer@.len() as u32,
        instance_count: 1,
        first_index: 0,
        vertex_offset: 0,
        first_instance: i as u32,
    }
}

/// One draw per object, in submission order.
pub open spec fn draws_of(meshes: Seq<BasicMesh>, objects: Seq<(usize, ObjectData)>) -> Seq<
    IndexedDraw,
> {
    Seq::new(objects.len(), |i: int| draw_of(meshes, objects, i))
}

impl GeometrySystem {
    /// The subpass that the subsystem draws in.
    pub closed spec fn subpass(&self) -> Subpass {
        self.subpass
    }

    /// The pipeline that the subsystem draws with.
    pub closed spec fn pipeline(&self) -> GraphicsPipeline {
        self.pipeline
    }

    /// The meshes, by handle.
    pub closed spec fn meshes(&self) -> Seq<BasicMesh> {
        self.render_data.meshes()
    }

    /// The objects submitted since the last draw: mesh handle and shader
    /// entry, in submission order.
    pub closed spec fn objects(&self) -> Seq<(usize, ObjectData)> {
        self.render_data.objects()
    }

    /// The camera: projection first, view second.
    pub closed spec fn camera(&self) -> (Matrix4, Matrix4) {
        self.render_data.camera()
    }

    /// The meshes are well formed, the objects can be numbered in 32 bits,
    /// and the pipeline is the geometry pipeline of the subpass.
    pub open spec fn wf(&self) -> bool {
        &&& forall|h: int| 0 <= h < self.meshes().len() ==> (#[trigger] self.meshes()[h]).wf()
        &&& self.objects().len() <= u32::MAX
        &&& self.subpass().wf()
        &&& self.pipeline() == GraphicsPipeline::for_subpass(
            Shaders::Geometry,
            self.subpass(),
            true,
            None,
        )
    }

    /// Every submitted object names a mesh that exists.
    pub open spec fn handles_valid(&self) -> bool {
        forall|i: int|
            0 <= i < self.objects().len() ==> (#[trigger] self.objects()[i]).0
                < self.meshes().len()
    }

    /// What `draw` records for a viewport of the given size.
    pub open spec fn recording_spec(&self, viewport_dimensions: [u32; 2]) -> GeometryRecordingView {
        GeometryRecordingView {
            pipeline: self.pipeline(),
            viewport_dimensions,
            frame_data: FrameData { view: self.camera().1, proj: self.camera().0 },
            object_data: Seq::new(self.objects().len(), |i: int| self.objects()[i].1),
            draws: draws_of(self.meshes(), self.objects()),
        }
    }

    /// A geometry subsystem for the given subpass, with no mesh, no object
    /// and the identity for both camera matrices. Its pipeline tests depth
    /// and overwrites every colour attachment of the subpass.
    pub fn new(subpass: Subpass) -> (system: GeometrySystem)
        requires
            subpass.wf(),
        ensures
            system.wf(),
            system.subpass() == subpass,
            system.pipeline() == GraphicsPipeline::for_subpass(
                Shaders::Geometry,
                subpass,
                true,
                None,
            ),
            system.meshes().len() == 0,
            system.objects().len() == 0,
            system.camera() == (Matrix4::identity_spec(), Matrix4::identity_spec()),
    {
        GeometrySystem {
            subpass,
            pipeline: GraphicsPipeline::new(Shaders::Geometry, subpass, true, None),
            render_data: RenderData::default(),
        }
    }

    /// The pipeline that the subsystem draws with.
    pub fn graphics_pipeline(&self) -> (pipeline: GraphicsPipeline)
        ensures
            pipeline == self.pipeline(),
    {
        self.pipeline
    }

    /// The number of meshes created so far.
    pub fn mesh_count(&self) -> (count: usize)
        ensures
            count == self.meshes().len(),
    {
        self.render_data.mesh_position()
    }

    /// The number of objects submitted since the last draw.
    pub fn object_count(&self) -> (count: usize)
        ensures
            count == self.objects().len(),
    {
        self.render_data.object_count()
    }

    /// The camera: projection first, view second.
    pub fn camera_params(&self) -> (matrices: (Matrix4, Matrix4))
        ensures
            matrices == self.camera(),
    {
        self.render_data.cam_matrices()
    }

    /// The mesh of a handle.
    pub fn mesh(&self, handle: usize) -> (mesh: &BasicMesh)
        requires
            handle < self.meshes().len(),
        ensures
            *mesh == self.meshes()[handle as int],
    {
        self.render_data.mesh(handle)
    }

    /// Records the geometry of the frame: the camera and the shader entries
    /// of all submitted objects, then one indexed draw per object, in
    /// submission order. The draw of object `i` draws all indices of its mesh
    /// as instance `i`. Afterwards no object is submitted any more.
    pub fn draw(&mut self, viewport_dimensions: [u32; 2]) -> (recording: SecondaryRecording)
        requires
            old(self).wf(),
            old(self).handles_valid(),
        ensures
            final(self).wf(),
            recording@ == SecondaryRecordingView::Geometry(
                old(self).recording_spec(viewport_dimensions),
            ),
            final(self).objects().len() == 0,
            final(self).meshes() == old(self).meshes(),
            final(self).camera() == old(self).camera(),
            final(self).subpass() == old(self).subpass(),
            final(self).pipeline() == old(self).pipeline(),
    {
        let camera = self.render_data.cam_matrices();
        let object_data = self.render_data.object_data();
        let mut draws: Vec<IndexedDraw> = Vec::new();
        let pairs = self.render_data.render_iter();
        let mut i: usize = 0;
        while i < pairs.len()
            invariant
                self.render_data.wf(),
                self.render_data.handles_valid(),
                pairs@.len() == self.render_data.objects().len(),
                forall|j: int|
                    0 <= j < pairs@.len() ==> (#[trigger] pairs@[j]).0 == j && *pairs@[j].1
                        == self.render_data.meshes()[self.render_data.objects()[j].0 as int],
                i <= pairs@.len(),
                draws@.len() == i,
                forall|j: int|
                    0 <= j < i ==> (#[trigger] draws@[j]) == draw_of(
                        self.render_data.meshes(),
                        self.render_data.objects(),
                        j,
                    ),
            decreases pairs@.len() - i,
        {
            let (index, mesh) = pairs[i];
            assert(self.render_data.objects()[i as int].0 < self.render_data.meshes().len());
            assert(mesh.wf());
            draws.push(
                IndexedDraw {
                    mesh: self.render_data.mesh_handle(i),
                    index_count: mesh.index_count(),
                    instance_count: 1,
                    first_index: 0,
                    vertex_offset: 0,
                    first_instance: index,
                },
            );
            i = i + 1;
        }
        let recording = GeometryRecording {
            pipeline: self.pipeline,
            viewport_dimensions,
            frame_data: FrameData { view: camera.1, proj: camera.0 },
            object_data,
            draws,
        };
        proof {
            assert(recording.draws@ =~= draws_of(self.meshes(), self.objects()));
            assert(recording@.object_data =~= self.recording_spec(viewport_dimensions).object_data);
        }
        self.render_data.reset_object_data();
        SecondaryRecording::Geometry(recording)
    }

    /// Stores a mesh for good and returns its handle: the number of meshes
    /// created before it. Handles given out earlier keep their meshes.
    pub fn create_mesh(&mut self, verts: Vec<VertexPositionColorNormal>, indices: Vec<u16>) -> (handle:
        usize)
        requires
            old(self).wf(),
            indices@.len() <= u32::MAX,
        ensures
            final(self).wf(),
            handle == old(self).meshes().len(),
            final(self).meshes().len() == old(self).meshes().len() + 1,
            final(self).meshes()[handle as int].vertex_buffer@ == verts@,
            final(self).meshes()[handle as int].index_buffer@ == indices@,
            forall|h: int|
                0 <= h < old(self).meshes().len() ==> final(self).meshes()[h] == old(
                    self,
                ).meshes()[h],
            final(self).objects() == old(self).objects(),
            final(self).camera() == old(self).camera(),
            final(self).subpass() == old(self).subpass(),
            final(self).pipeline() == old(self).pipeline(),
    {
        let position = self.render_data.mesh_position();
        let mesh = MeshBuilder::default().with_vertices(verts).with_indices(indices).build();
        self.render_data.add_mesh(mesh);
        position
    }

    /// Submits one object for the coming frame: the mesh of the handle, placed
    /// by the model matrix.
    pub fn enqueue_mesh(&mut self, mesh_id: usize, model: Matrix4)
        requires
            old(self).wf(),
            old(self).objects().len() < u32::MAX,
        ensures
            final(self).wf(),
            final(self).objects() == old(self).objects().push((mesh_id, ObjectData { model })),
            final(self).meshes() == old(self).meshes(),
            final(self).camera() == old(self).camera(),
            final(self).subpass() == old(self).subpass(),
            final(self).pipeline() == old(self).pipeline(),
    {
        self.render_data.add_object_data(mesh_id, ObjectData { model });
    }

    /// Replaces the camera: projection first, view second. Every draw reads
    /// it until it is replaced again.
    pub fn set_camera_params(&mut self, cam_matrices: (Matrix4, Matrix4))
        ensures
            final(self).camera() == cam_matrices,
            final(self).meshes() == old(self).meshes(),
            final(self).objects() == old(self).objects(),
            final(self).subpass() == old(self).subpass(),
            final(self).pipeline() == old(self).pipeline(),
            old(self).wf() ==> final(self).wf(),
    {
        self.render_data.update_cam_matrices(cam_matrices);
    }
}

/// The objects submitted after `calls` were made to `enqueue_mesh`, each
/// with a mesh handle and a model matrix, on a system that held `objects`.
pub open spec fn enqueued(
    objects: Seq<(usize, ObjectData)>,
    calls: Seq<(usize, Matrix4)>,
) -> Seq<(usize, ObjectData)> {
    objects + Seq::new(calls.len(), |i: int| (calls[i].0, ObjectData { model: calls[i].1 }))
}

/// One more call of `enqueue_mesh` appends one more object.
pub proof fn lemma_enqueued_push(
    objects: Seq<(usize, ObjectData)>,
    calls: Seq<(usize, Matrix4)>,
    mesh_id: usize,
    model: Matrix4,
)
    ensures
        enqueued(objects, Seq::empty()) == objects,
        enqueued(objects, calls.push((mesh_id, model))) == enqueued(objects, calls).push(
            (mesh_id, ObjectData { model }),
        ),
{
    assert(enqueued(objects, Seq::empty()) =~= objects);
    assert(enqueued(objects, calls.push((mesh_id, model))) =~= enqueued(objects, calls).push(
        (mesh_id, ObjectData { model }),
    ));
}

/// After a draw, which leaves no object submitted, `k` calls of
/// `enqueue_mesh` make the next draw record exactly `k` indexed draws. The
/// draw of call `i` draws the mesh of that call as instance `i`, and no two
/// draws have the same instance number.
pub proof fn lemma_one_draw_per_enqueue(meshes: Seq<BasicMesh>, calls: Seq<(usize, Matrix4)>)
    requires
        calls.len() <= u32::MAX,
    ensures
        draws_of(meshes, enqueued(Seq::empty(), calls)).len() == calls.len(),
        forall|i: int|
            0 <= i < calls.len() ==> {
                let draw = #[trigger] draws_of(meshes, enqueued(Seq::empty(), calls))[i];
                &&& draw.first_instance == i
                &&& draw.instance_count == 1
                &&& draw.mesh == calls[i].0
            },
        forall|i: int, j: int|
            0 <= i < j < calls.len() ==> (#[trigger] draws_of(
                meshes,
                enqueued(Seq::empty(), calls),
            )[i]).first_instance != (#[trigger] draws_of(
                meshes,
                enqueued(Seq::empty(), calls),
            )[j]).first_instance,
{
}

/// The draw of an object counts the indices of the mesh of the object, as
/// long as the mesh exists and is well formed.
pub proof fn lemma_draw_counts_indices(
    meshes: Seq<BasicMesh>,
    objects: Seq<(usize, ObjectData)>,
    i: int,
)
    requires
        0 <= i < objects.len(),
        objects[i].0 < meshes.len(),
        meshes[objects[i].0 as int].wf(),
    ensures
        draws_of(meshes, objects)[i].index_count == meshes[objects[i].0 as int].index_buffer@.len(),
        draws_of(meshes, objects)[i].mesh == objects[i].0,
{
}

} // verus!
