//! Triangle meshes handed to the renderer and to the from-mesh body
//! constructor: a vertex list and index triangles with cached normals.

pub mod polyhedron_meshes;

use vstd::prelude::*;
use crate::math::vector::{
    cross_vec, dir_spec, mag_sq_spec, vec3, Vector3d, MAX_COORD, UNIT,
};

verus! {

/// The unit normal of the triangle spanned by three positions: the
/// cross of the two unit edge directions out of the first vertex,
/// normalized again; the zero vector when the triangle is degenerate.
pub open spec fn triangle_normal_spec(v1: Vector3d, v2: Vector3d, v3: Vector3d) -> Vector3d {
    let d1 = vec3(v2.x - v1.x, v2.y - v1.y, v2.z - v1.z);
    let d2 = vec3(v3.x - v1.x, v3.y - v1.y, v3.z - v1.z);
    if mag_sq_spec(d1) == 0 || mag_sq_spec(d2) == 0 {
        Vector3d { x: 0, y: 0, z: 0 }
    } else {
        let c = cross_vec(dir_spec(d1), dir_spec(d2));
        if mag_sq_spec(c) == 0 {
            Vector3d { x: 0, y: 0, z: 0 }
        } else {
            dir_spec(c)
        }
    }
}

/// One triangle of a mesh: three vertex indices and a cached normal.
#[derive(Clone, Copy, PartialEq, Eq, Debug)]
pub struct MeshTriangle {
    pub vertex_indices: [usize; 3],
    pub normal: Vector3d,
}

impl MeshTriangle {
    pub fn new(vertex_indices: &[usize; 3], normal: &Vector3d) -> (r: Self)
        ensures
            r.vertex_indices == *vertex_indices,
            r.normal == *normal,
    {
        MeshTriangle { vertex_indices: *vertex_indices, normal: *normal }
    }

    /// The unit normal of the triangle spanned by three positions; the
    /// zero vector when the triangle is degenerate.
    pub fn normal(vertex_1: &Vector3d, vertex_2: &Vector3d, vertex_3: &Vector3d) -> (r: Vector3d)
        requires
            vertex_1.bounded(MAX_COORD as int),
            vertex_2.bounded(MAX_COORD as int),
            vertex_3.bounded(MAX_COORD as int),
        ensures
            r == triangle_normal_spec(*vertex_1, *vertex_2, *vertex_3),
            r.bounded(UNIT as int),
    {
        let d1 = vertex_2.sub(vertex_1);
        let d2 = vertex_3.sub(vertex_1);
        let u1 = match d1.dir() {
            Some(u) => u,
            Option::None => {
                return Vector3d { x: 0, y: 0, z: 0 };
            },
        };
        let u2 = match d2.dir() {
            Some(u) => u,
            Option::None => {
                return Vector3d { x: 0, y: 0, z: 0 };
            },
        };
        let c = u1.cross(&u2);
        proof {
            crate::math::vector::lemma_cross_vec_bound(u1, u2, UNIT as int);
        }
        match c.dir() {
            Some(u) => u,
            Option::None => Vector3d { x: 0, y: 0, z: 0 },
        }
    }

    /// A triangle whose cached normal is the unit normal of its own
    /// three indexed vertices.
    pub fn norm_from_vertices(vertices: &[Vector3d], vertex_indices: &[usize; 3]) -> (r: Self)
        requires
            vertex_indices@[0] < vertices@.len(),
            vertex_indices@[1] < vertices@.len(),
            vertex_indices@[2] < vertices@.len(),
            vertices@[vertex_indices@[0] as int].bounded(MAX_COORD as int),
            vertices@[vertex_indices@[1] as int].bounded(MAX_COORD as int),
            vertices@[vertex_indices@[2] as int].bounded(MAX_COORD as int),
        ensures
            r.vertex_indices == *vertex_indices,
            r.normal == triangle_normal_spec(
                vertices@[vertex_indices@[0] as int],
                vertices@[vertex_indices@[1] as int],
                vertices@[vertex_indices@[2] as int],
            ),
    {
        Self::new(
            vertex_indices,
            &Self::normal(
                &vertices[vertex_indices[0]],
                &vertices[vertex_indices[1]],
                &vertices[vertex_indices[2]],
            ),
        )
    }
}

/// A triangle mesh.
#[derive(Clone, PartialEq, Eq, Debug)]
pub struct Mesh {
    pub vertices: Vec<Vector3d>,
    pub mesh_triangles: Vec<MeshTriangle>,
}

impl Mesh {
    pub fn new(vertices: Vec<Vector3d>, mesh_triangles: Vec<MeshTriangle>) -> (r: Self)
        ensures
            r.vertices@ == vertices@,
            r.mesh_triangles@ == mesh_triangles@,
    {
        Mesh { vertices, mesh_triangles }
    }
}

} // verus!
