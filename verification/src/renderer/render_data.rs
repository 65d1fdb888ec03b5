//! What the geometry pass draws: the meshes ever created, the objects
//! submitted for the coming frame, and the camera.

use crate::renderer::geometry_shaders::ObjectData;
use crate::renderer::linear::Matrix4;
use crate::renderer::mesh::BasicMesh;
use vstd::prelude::*;

verus! {

pub struct RenderData {
    meshes: Vec<BasicMesh>,
    object_data: Vec<(usize, ObjectData)>,
    cam_matrices: (Matrix4, Matrix4),
}

impl RenderData {
    /// The meshes, by handle.
    pub closed spec fn meshes(&self) -> Seq<BasicMesh> {
        self.meshes@
    }

    /// The objects submitted since the last draw, in submission order: the
    /// handle of the mesh and the entry for the shader.
    pub closed spec fn objects(&self) -> Seq<(usize, ObjectData)> {
        self.object_data@
    }

    /// The camera: projection first, view second.
    pub closed spec fn camera(&self) -> (Matrix4, Matrix4) {
        self.cam_matrices
    }

    /// Every mesh is well formed and the objects can be numbered in 32 bits.
    pub open spec fn wf(&self) -> bool {
        &&& forall|h: int| 0 <= h < self.meshes().len() ==> (#[trigger] self.meshes()[h]).wf()
        &&& self.objects().len() <= u32::MAX
    }

    /// Every submitted object names a mesh that exists.
    pub open spec fn handles_valid(&self) -> bool {
        forall|i: int|
            0 <= i < self.objects().len() ==> (#[trigger] self.objects()[i]).0
                < self.meshes().len()
    }

    /// The handle that the next mesh will get: the number of meshes so far.
    pub fn mesh_position(&self) -> (position: usize)
        ensures
            position == self.meshes().len(),
    {
        self.meshes.len()
    }

    /// Appends a mesh. The meshes before it keep their handles.
    pub fn add_mesh(&mut self, mesh: BasicMesh)
        requires
            old(self).wf(),
            mesh.wf(),
        ensures
            final(self).wf(),
            final(self).meshes() == old(self).meshes().push(mesh),
            final(self).objects() == old(self).objects(),
            final(self).camera() == old(self).camera(),
    {
        self.meshes.push(mesh);
        assert forall|h: int| 0 <= h < self.meshes().len() implies (#[trigger] self.meshes()[h])
            .wf() by {
            if h < old(self).meshes().len() {
                assert(self.meshes()[h] == old(self).meshes()[h]);
            }
        }
    }

    /// Forgets the submitted objects.
    pub fn reset_object_data(&mut self)
        ensures
            final(self).objects().len() == 0,
            final(self).meshes() == old(self).meshes(),
            final(self).camera() == old(self).camera(),
            old(self).wf() ==> final(self).wf(),
    {
        self.object_data = Vec::new();
    }

    /// Submits one object for the coming frame.
    pub fn add_object_data(&mut self, mesh_id: usize, object_data: ObjectData)
        requires
            old(self).wf(),
            old(self).objects().len() < u32::MAX,
        ensures
            final(self).wf(),
            final(self).objects() == old(self).objects().push((mesh_id, object_data)),
            final(self).meshes() == old(self).meshes(),
            final(self).camera() == old(self).camera(),
    {
        self.object_data.push((mesh_id, object_data));
        assert(self.meshes() == old(self).meshes());
    }

    /// Replaces the camera.
    pub fn update_cam_matrices(&mut self, matrices: (Matrix4, Matrix4))
        ensures
            final(self).camera() == matrices,
            final(self).meshes() == old(self).meshes(),
            final(self).objects() == old(self).objects(),
            old(self).wf() ==> final(self).wf(),
    {
        self.cam_matrices = matrices;
    }

    /// The camera: projection first, view second.
    pub fn cam_matrices(&self) -> (matrices: (Matrix4, Matrix4))
        ensures
            matrices == self.camera(),
    {
        self.cam_matrices
    }

    /// The number of objects submitted since the last draw.
    pub fn object_count(&self) -> (count: usize)
        ensures
            count == self.objects().len(),
    {
        self.object_data.len()
    }

    /// The shader entries of the submitted objects, in submission order.
    pub open spec fn object_data_spec(&self) -> Seq<ObjectData> {
        Seq::new(self.objects().len(), |i: int| self.objects()[i].1)
    }

    /// The shader entries of the submitted objects, in submission order.
    pub fn object_data(&self) -> (entries: Vec<ObjectData>)
        ensures
            entries@ == self.object_data_spec(),
    {
        let mut entries: Vec<ObjectData> = Vec::new();
        let mut i: usize = 0;
        while i < self.object_data.len()
            invariant
                i <= self.object_data@.len(),
                entries@.len() == i,
                forall|j: int| 0 <= j < i ==> entries@[j] == self.object_data@[j].1,
            decreases self.object_data@.len() - i,
        {
            entries.push(self.object_data[i].1);
            i = i + 1;
        }
        assert(entries@ =~= self.object_data_spec());
        entries
    }

    /// The mesh handle of the object with the given number.
    pub fn mesh_handle(&self, index: usize) -> (handle: usize)
        requires
            index < self.objects().len(),
        ensures
            handle == self.objects()[index as int].0,
    {
        self.object_data[index].0
    }

    /// The mesh of a handle.
    pub fn mesh(&self, handle: usize) -> (mesh: &BasicMesh)
        requires
            handle < self.meshes().len(),
        ensures
            *mesh == self.meshes()[handle as int],
    {
        &self.meshes[handle]
    }

    /// For each submitted object, in submission order: its number, which is
    /// the instance number of its draw, and its mesh.
    pub fn render_iter<'a>(&'a self) -> (pairs: Vec<(u32, &'a BasicMesh)>)
        requires
            self.wf(),
            self.handles_valid(),
        ensures
            pairs@.len() == self.objects().len(),
            forall|i: int|
                0 <= i < pairs@.len() ==> (#[trigger] pairs@[i]).0 == i && *pairs@[i].1
                    == self.meshes()[self.objects()[i].0 as int],
    {
        let mut pairs: Vec<(u32, &'a BasicMesh)> = Vec::new();
        let mut i: usize = 0;
        while i < self.object_data.len()
            invariant
                self.wf(),
                self.handles_valid(),
                i <= self.object_data@.len(),
                pairs@.len() == i,
                forall|j: int|
                    0 <= j < i ==> (#[trigger] pairs@[j]).0 == j && *pairs@[j].1
                        == self.meshes()[self.objects()[j].0 as int],
            decreases self.object_data@.len() - i,
        {
            let mesh_index: usize = self.object_data[i].0;
            assert(self.objects()[i as int].0 < self.meshes().len());
            pairs.push((i as u32, &self.meshes[mesh_index]));
            i = i + 1;
        }
        pairs
    }
}

impl Default for RenderData {
    fn default() -> (data: RenderData)
        ensures
            data.wf(),
            data.meshes().len() == 0,
            data.objects().len() == 0,
            data.camera() == (Matrix4::identity_spec(), Matrix4::identity_spec()),
    {
        RenderData {
            meshes: Vec::new(),
            object_data: Vec::new(),
            cam_matrices: (Matrix4::identity(), Matrix4::identity()),
        }
    }
}

} // verus!
