//! Meshes: a list of vertices and a list of indices into it.

use crate::renderer::geometry_shaders::VertexPositionColorNormal;
use vstd::prelude::*;

verus! {

/// An immutable mesh.
#[derive(Clone, Debug, PartialEq, Eq)]
pub struct BasicMesh {
    pub vertex_buffer: Vec<VertexPositionColorNormal>,
    pub index_buffer: Vec<u16>,
}

impl BasicMesh {
    /// The number of indices fits the count of an indexed draw.
    pub open spec fn wf(&self) -> bool {
        self.index_buffer@.len() <= u32::MAX
    }

    /// The number of indices, as an indexed draw counts them.
    pub fn index_count(&self) -> (count: u32)
        requires
            self.wf(),
        ensures
            count == self.index_buffer@.len(),
    {
        self.index_buffer.len() as u32
    }
}

/// Collects the parts of a mesh.
pub struct MeshBuilder {
    vertices: Option<Vec<VertexPositionColorNormal>>,
    indices: Option<Vec<u16>>,
}

impl MeshBuilder {
    /// The vertices given so far; none when no list was given.
    pub closed spec fn vertices(&self) -> Seq<VertexPositionColorNormal> {
        match self.vertices {
            Some(v) => v@,
            None => Seq::empty(),
        }
    }

    /// The indices given so far; none when no list was given.
    pub closed spec fn indices(&self) -> Seq<u16> {
        match self.indices {
            Some(v) => v@,
            None => Seq::empty(),
        }
    }

    /// Replaces the vertices of the mesh.
    pub fn with_vertices(self, value: Vec<VertexPositionColorNormal>) -> (builder: MeshBuilder)
        ensures
            builder.vertices() == value@,
            builder.indices() == self.indices(),
    {
        MeshBuilder { vertices: Some(value), indices: self.indices }
    }

    /// Replaces the indices of the mesh.
    pub fn with_indices(self, value: Vec<u16>) -> (builder: MeshBuilder)
        ensures
            builder.indices() == value@,
            builder.vertices() == self.vertices(),
    {
        MeshBuilder { vertices: self.vertices, indices: Some(value) }
    }

    /// The mesh of the vertices and indices given.
    pub fn build(self) -> (mesh: BasicMesh)
        requires
            self.indices().len() <= u32::MAX,
        ensures
            mesh.wf(),
            mesh.vertex_buffer@ == self.vertices(),
            mesh.index_buffer@ == self.indices(),
    {
        let vertex_buffer = match self.vertices {
            Some(v) => v,
            None => Vec::new(),
        };
        let index_buffer = match self.indices {
            Some(v) => v,
            None => Vec::new(),
        };
        BasicMesh { vertex_buffer, index_buffer }
    }
}

impl Default for MeshBuilder {
    fn default() -> (builder: MeshBuilder)
        ensures
            builder.vertices().len() == 0,
            builder.indices().len() == 0,
    {
        MeshBuilder { vertices: None, indices: None }
    }
}

} // verus!
