//! The data that the geometry shaders read: vertices, one entry per drawn
//! object, and the camera of the frame.

use crate::renderer::linear::{Matrix4, MINUS_ONE, ONE, ZERO};
use vstd::prelude::*;

verus! {

/// A vertex with a position, a colour and a normal.
#[derive(Clone, Copy, Debug, PartialEq, Eq)]
pub struct VertexPositionColorNormal {
    pub position: [u32; 3],
    pub color: [u32; 3],
    pub normal: [u32; 3],
}

/// What the vertex shader knows of one drawn object. The shader finds the
/// entry of an object by the instance number of its draw.
#[derive(Clone, Copy, Debug, PartialEq, Eq)]
pub struct ObjectData {
    pub model: Matrix4,
}

/// What the vertex shader knows of the camera.
#[derive(Clone, Copy, Debug, PartialEq, Eq)]
pub struct FrameData {
    pub view: Matrix4,
    pub proj: Matrix4,
}

/// The number of vertices of the cube.
pub const CUBE_VERTEX_COUNT: usize = 24;

/// The index list of a cube of 24 vertices, four to a face: two triangles
/// per face, in the order front, right, back, left, top, bottom.
pub const CUBE_INDICES: [u16; 36] = [
    0, 1, 2, 2, 3, 0,
    4, 5, 6, 6, 7, 4,
    8, 9, 10, 10, 11, 8,
    12, 13, 14, 14, 15, 12,
    16, 17, 18, 18, 19, 16,
    20, 21, 22, 22, 23, 20,
];

/// The index list of the cube as a vector. Every index names one of the 24
/// vertices, and entry `6 * f + j` belongs to face `f`.
pub fn cube_indices() -> (indices: Vec<u16>)
    ensures
        indices@ == CUBE_INDICES@,
        indices@.len() == 36,
        forall|i: int| 0 <= i < 36 ==> (#[trigger] indices@[i]) < CUBE_VERTEX_COUNT,
        forall|i: int| 0 <= i < 36 ==> 4 * (i / 6) <= (#[trigger] indices@[i]) < 4 * (i / 6) + 4,
{
    let mut indices: Vec<u16> = Vec::new();
    let mut i: usize = 0;
    while i < 36
        invariant
            i <= 36,
            indices@ == CUBE_INDICES@.subrange(0, i as int),
        decreases 36 - i,
    {
        indices.push(CUBE_INDICES[i]);
        i = i + 1;
        assert(indices@ =~= CUBE_INDICES@.subrange(0, i as int));
    }
    assert(indices@ =~= CUBE_INDICES@);
    indices
}

/// The vertices of a cube with corners at plus and minus one: four for each
/// face, in the order front, right, back, left, top, bottom. The normal of a
/// vertex is the outward normal of its face.
pub open spec fn cube_vertices_spec() -> Seq<VertexPositionColorNormal> {
    seq![
        VertexPositionColorNormal {
            position: [MINUS_ONE, MINUS_ONE, ONE],
            color: [ONE, ONE, ONE],
            normal: [ZERO, ZERO, ONE],
        },
        VertexPositionColorNormal {
            position: [ONE, MINUS_ONE, ONE],
            color: [ONE, ONE, ONE],
            normal: [ZERO, ZERO, ONE],
        },
        VertexPositionColorNormal {
            position: [ONE, ONE, ONE],
            color: [ONE, ONE, ONE],
            normal: [ZERO, ZERO, ONE],
        },
        VertexPositionColorNormal {
            position: [MINUS_ONE, ONE, ONE],
            color: [ONE, ONE, ONE],
            normal: [ZERO, ZERO, ONE],
        },
        VertexPositionColorNormal {
            position: [ONE, MINUS_ONE, ONE],
            color: [ONE, ZERO, ZERO],
            normal: [ONE, ZERO, ZERO],
        },
        VertexPositionColorNormal {
            position: [ONE, MINUS_ONE, MINUS_ONE],
            color: [ONE, ZERO, ONE],
            normal: [ONE, ZERO, ZERO],
        },
        VertexPositionColorNormal {
            position: [ONE, ONE, MINUS_ONE],
            color: [ONE, ONE, ONE],
            normal: [ONE, ZERO, ZERO],
        },
        VertexPositionColorNormal {
            position: [ONE, ONE, ONE],
            color: [ONE, ONE, ZERO],
            normal: [ONE, ZERO, ZERO],
        },
        VertexPositionColorNormal {
            position: [MINUS_ONE, MINUS_ONE, MINUS_ONE],
            color: [ZERO, ZERO, ONE],
            normal: [ZERO, ZERO, MINUS_ONE],
        },
        VertexPositionColorNormal {
            position: [ONE, MINUS_ONE, MINUS_ONE],
            color: [ONE, ZERO, ONE],
            normal: [ZERO, ZERO, MINUS_ONE],
        },
        VertexPositionColorNormal {
            position: [ONE, ONE, MINUS_ONE],
            color: [ONE, ONE, ONE],
            normal: [ZERO, ZERO, MINUS_ONE],
        },
        VertexPositionColorNormal {
            position: [MINUS_ONE, ONE, MINUS_ONE],
            color: [ZERO, ONE, ONE],
            normal: [ZERO, ZERO, MINUS_ONE],
        },
        VertexPositionColorNormal {
            position: [MINUS_ONE, MINUS_ONE, ONE],
            color: [ZERO, ZERO, ZERO],
            normal: [MINUS_ONE, ZERO, ZERO],
        },
        VertexPositionColorNormal {
            position: [MINUS_ONE, MINUS_ONE, MINUS_ONE],
            color: [ZERO, ZERO, ONE],
            normal: [MINUS_ONE, ZERO, ZERO],
        },
        VertexPositionColorNormal {
            position: [MINUS_ONE, ONE, MINUS_ONE],
            color: [ZERO, ONE, ONE],
            normal: [MINUS_ONE, ZERO, ZERO],
        },
        VertexPositionColorNormal {
            position: [MINUS_ONE, ONE, ONE],
            color: [ZERO, ONE, ZERO],
            normal: [MINUS_ONE, ZERO, ZERO],
        },
        VertexPositionColorNormal {
            position: [MINUS_ONE, ONE, ONE],
            color: [ZERO, ONE, ZERO],
            normal: [ZERO, ONE, ZERO],
        },
        VertexPositionColorNormal {
            position: [ONE, ONE, ONE],
            color: [ONE, ONE, ZERO],
            normal: [ZERO, ONE, ZERO],
        },
        VertexPositionColorNormal {
            position: [ONE, ONE, MINUS_ONE],
            color: [ONE, ONE, ONE],
            normal: [ZERO, ONE, ZERO],
        },
        VertexPositionColorNormal {
            position: [MINUS_ONE, ONE, MINUS_ONE],
            color: [ZERO, ONE, ONE],
            normal: [ZERO, ONE, ZERO],
        },
        VertexPositionColorNormal {
            position: [MINUS_ONE, MINUS_ONE, ONE],
            color: [ZERO, ZERO, ZERO],
            normal: [ZERO, MINUS_ONE, ZERO],
        },
        VertexPositionColorNormal {
            position: [ONE, MINUS_ONE, ONE],
            color: [ONE, ZERO, ZERO],
            normal: [ZERO, MINUS_ONE, ZERO],
        },
        VertexPositionColorNormal {
            position: [ONE, MINUS_ONE, MINUS_ONE],
            color: [ONE, ZERO, ONE],
            normal: [ZERO, MINUS_ONE, ZERO],
        },
        VertexPositionColorNormal {
            position: [MINUS_ONE, MINUS_ONE, MINUS_ONE],
            color: [ZERO, ZERO, ONE],
            normal: [ZERO, MINUS_ONE, ZERO],
        },
    ]
}

/// The vertices of the cube.
pub fn cube_vertices() -> (vertices: Vec<VertexPositionColorNormal>)
    ensures
        vertices@ == cube_vertices_spec(),
        vertices@.len() == CUBE_VERTEX_COUNT,
{
    let mut vertices: Vec<VertexPositionColorNormal> = Vec::new();
    vertices.push(
        VertexPositionColorNormal {
            position: [MINUS_ONE, MINUS_ONE, ONE],
            color: [ONE, ONE, ONE],
            normal: [ZERO, ZERO, ONE],
        }
    );
    vertices.push(
        VertexPositionColorNormal {
            position: [ONE, MINUS_ONE, ONE],
            color: [ONE, ONE, ONE],
            normal: [ZERO, ZERO, ONE],
        }
    );
    vertices.push(
        VertexPositionColorNormal {
            position: [ONE, ONE, ONE],
            color: [ONE, ONE, ONE],
            normal: [ZERO, ZERO, ONE],
        }
    );
    vertices.push(
        VertexPositionColorNormal {
            position: [MINUS_ONE, ONE, ONE],
            color: [ONE, ONE, ONE],
            normal: [ZERO, ZERO, ONE],
        }
    );
    vertices.push(
        VertexPositionColorNormal {
            position: [ONE, MINUS_ONE, ONE],
            color: [ONE, ZERO, ZERO],
            normal: [ONE, ZERO, ZERO],
        }
    );
    vertices.push(
        VertexPositionColorNormal {
            position: [ONE, MINUS_ONE, MINUS_ONE],
            color: [ONE, ZERO, ONE],
            normal: [ONE, ZERO, ZERO],
        }
    );
    vertices.push(
        VertexPositionColorNormal {
            position: [ONE, ONE, MINUS_ONE],
            color: [ONE, ONE, ONE],
            normal: [ONE, ZERO, ZERO],
        }
    );
    vertices.push(
        VertexPositionColorNormal {
            position: [ONE, ONE, ONE],
            color: [ONE, ONE, ZERO],
            normal: [ONE, ZERO, ZERO],
        }
    );
    vertices.push(
        VertexPositionColorNormal {
            position: [MINUS_ONE, MINUS_ONE, MINUS_ONE],
            color: [ZERO, ZERO, ONE],
            normal: [ZERO, ZERO, MINUS_ONE],
        }
    );
    vertices.push(
        VertexPositionColorNormal {
            position: [ONE, MINUS_ONE, MINUS_ONE],
            color: [ONE, ZERO, ONE],
            normal: [ZERO, ZERO, MINUS_ONE],
        }
    );
    vertices.push(
        VertexPositionColorNormal {
            position: [ONE, ONE, MINUS_ONE],
            color: [ONE, ONE, ONE],
            normal: [ZERO, ZERO, MINUS_ONE],
        }
    );
    vertices.push(
        VertexPositionColorNormal {
            position: [MINUS_ONE, ONE, MINUS_ONE],
            color: [ZERO, ONE, ONE],
            normal: [ZERO, ZERO, MINUS_ONE],
        }
    );
    vertices.push(
        VertexPositionColorNormal {
            position: [MINUS_ONE, MINUS_ONE, ONE],
            color: [ZERO, ZERO, ZERO],
            normal: [MINUS_ONE, ZERO, ZERO],
        }
    );
    vertices.push(
        VertexPositionColorNormal {
            position: [MINUS_ONE, MINUS_ONE, MINUS_ONE],
            color: [ZERO, ZERO, ONE],
            normal: [MINUS_ONE, ZERO, ZERO],
        }
    );
    vertices.push(
        VertexPositionColorNormal {
            position: [MINUS_ONE, ONE, MINUS_ONE],
            color: [ZERO, ONE, ONE],
            normal: [MINUS_ONE, ZERO, ZERO],
        }
    );
    vertices.push(
        VertexPositionColorNormal {
            position: [MINUS_ONE, ONE, ONE],
            color: [ZERO, ONE, ZERO],
            normal: [MINUS_ONE, ZERO, ZERO],
        }
    );
    vertices.push(
        VertexPositionColorNormal {
            position: [MINUS_ONE, ONE, ONE],
            color: [ZERO, ONE, ZERO],
            normal: [ZERO, ONE, ZERO],
        }
    );
    vertices.push(
        VertexPositionColorNormal {
            position: [ONE, ONE, ONE],
            color: [ONE, ONE, ZERO],
            normal: [ZERO, ONE, ZERO],
        }
    );
    vertices.push(
        VertexPositionColorNormal {
            position: [ONE, ONE, MINUS_ONE],
            color: [ONE, ONE, ONE],
            normal: [ZERO, ONE, ZERO],
        }
    );
    vertices.push(
        VertexPositionColorNormal {
            position: [MINUS_ONE, ONE, MINUS_ONE],
            color: [ZERO, ONE, ONE],
            normal: [ZERO, ONE, ZERO],
        }
    );
    vertices.push(
        VertexPositionColorNormal {
            position: [MINUS_ONE, MINUS_ONE, ONE],
            color: [ZERO, ZERO, ZERO],
            normal: [ZERO, MINUS_ONE, ZERO],
        }
    );
    vertices.push(
        VertexPositionColorNormal {
            position: [ONE, MINUS_ONE, ONE],
            color: [ONE, ZERO, ZERO],
            normal: [ZERO, MINUS_ONE, ZERO],
        }
    );
    vertices.push(
        VertexPositionColorNormal {
            position: [ONE, MINUS_ONE, MINUS_ONE],
            color: [ONE, ZERO, ONE],
            normal: [ZERO, MINUS_ONE, ZERO],
        }
    );
    vertices.push(
        VertexPositionColorNormal {
            position: [MINUS_ONE, MINUS_ONE, MINUS_ONE],
            color: [ZERO, ZERO, ONE],
            normal: [ZERO, MINUS_ONE, ZERO],
        }
    );
    assert(vertices@ =~= cube_vertices_spec());
    vertices
}

/// The axis that the faces in this position are normal to: 2 for front and
/// back, 0 for right and left, 1 for top and bottom.
pub open spec fn cube_face_axis(face: int) -> int {
    if face == 0 || face == 2 {
        2
    } else if face == 1 || face == 3 {
        0
    } else {
        1
    }
}

/// On which side of the cube a face lies along its axis.
pub open spec fn cube_face_side(face: int) -> u32 {
    if face == 0 || face == 1 || face == 4 {
        ONE
    } else {
        MINUS_ONE
    }
}

/// Every vertex of the cube is a corner of the cube, lies on the face that
/// its place in the list gives it, and has the outward normal of that face.
pub proof fn lemma_cube_vertices_lie_on_their_faces(i: int)
    requires
        0 <= i < 24,
    ensures
        ({
            let vertex = cube_vertices_spec()[i];
            let axis = cube_face_axis(i / 4);
            let side = cube_face_side(i / 4);
            &&& forall|k: int|
                0 <= k < 3 ==> vertex.position[k] == ONE || vertex.position[k] == MINUS_ONE
            &&& vertex.position[axis] == side
            &&& vertex.normal[axis] == side
            &&& forall|k: int| 0 <= k < 3 && k != axis ==> vertex.normal[k] == ZERO
        }),
{
}

} // verus!
