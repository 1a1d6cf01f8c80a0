//! Ready-made meshes for the common body shapes.

use vstd::prelude::*;
use crate::math::vector::{vec3, Vector3d, MAX_COORD};
use crate::mesh::{triangle_normal_spec, Mesh, MeshTriangle};

verus! {

/// The eight corner positions of the cuboid mesh, in its own standard
/// order: the minimum corner first, the maximum corner fifth.
pub open spec fn cuboid_mesh_vertices(hx: int, hy: int, hz: int) -> Seq<Vector3d> {
    seq![
        vec3(-hx, -hy, -hz),
        vec3(-hx, -hy, hz),
        vec3(-hx, hy, -hz),
        vec3(-hx, hy, hz),
        vec3(hx, hy, hz),
        vec3(hx, hy, -hz),
        vec3(hx, -hy, hz),
        vec3(hx, -hy, -hz),
    ]
}

/// The index triples of the twelve cuboid mesh triangles.
pub open spec fn cuboid_mesh_triangles() -> Seq<[usize; 3]> {
    seq![
        [0usize, 2, 5],
        [0usize, 5, 7],
        [7usize, 5, 4],
        [7usize, 4, 6],
        [6usize, 4, 3],
        [6usize, 3, 1],
        [1usize, 3, 2],
        [1usize, 2, 0],
        [2usize, 3, 4],
        [2usize, 4, 5],
        [6usize, 1, 0],
        [6usize, 0, 7],
    ]
}

/// A cuboid mesh: half of each dimension on either side of the origin,
/// two triangles per face, each triangle's normal the unit normal of
/// its own three corners, wound to face away from the center.
pub fn cuboid(dim: &Vector3d) -> (r: Mesh)
    requires
        0 <= dim.x <= MAX_COORD,
        0 <= dim.y <= MAX_COORD,
        0 <= dim.z <= MAX_COORD,
    ensures
        r.vertices@ == cuboid_mesh_vertices(dim.x as int / 2, dim.y as int / 2, dim.z as int / 2),
        r.mesh_triangles@.len() == 12,
        forall|k: int|
            0 <= k < 12 ==> (#[trigger] r.mesh_triangles@[k]).vertex_indices
                == cuboid_mesh_triangles()[k],
        forall|k: int|
            0 <= k < 12 ==> {
                let t = #[trigger] r.mesh_triangles@[k];
                t.normal == triangle_normal_spec(
                    r.vertices@[t.vertex_indices@[0] as int],
                    r.vertices@[t.vertex_indices@[1] as int],
                    r.vertices@[t.vertex_indices@[2] as int],
                )
            },
{
    let hx = ((dim.x as u64) / 2) as i64;
    let hy = ((dim.y as u64) / 2) as i64;
    let hz = ((dim.z as u64) / 2) as i64;
    let mut vertices: Vec<Vector3d> = Vec::new();
    vertices.push(Vector3d { x: -hx, y: -hy, z: -hz });
    vertices.push(Vector3d { x: -hx, y: -hy, z: hz });
    vertices.push(Vector3d { x: -hx, y: hy, z: -hz });
    vertices.push(Vector3d { x: -hx, y: hy, z: hz });
    vertices.push(Vector3d { x: hx, y: hy, z: hz });
    vertices.push(Vector3d { x: hx, y: hy, z: -hz });
    vertices.push(Vector3d { x: hx, y: -hy, z: hz });
    vertices.push(Vector3d { x: hx, y: -hy, z: -hz });
    proof {
        assert(vertices@ =~= cuboid_mesh_vertices(
            dim.x as int / 2,
            dim.y as int / 2,
            dim.z as int / 2,
        ));
        assert forall|k: int| 0 <= k < vertices@.len() implies (
        #[trigger] vertices@[k]).bounded(MAX_COORD as int) by {
        }
    }
    let t0 = MeshTriangle::norm_from_vertices(vertices.as_slice(), &[0, 2, 5]);
    let t1 = MeshTriangle::norm_from_vertices(vertices.as_slice(), &[0, 5, 7]);
    let t2 = MeshTriangle::norm_from_vertices(vertices.as_slice(), &[7, 5, 4]);
    let t3 = MeshTriangle::norm_from_vertices(vertices.as_slice(), &[7, 4, 6]);
    let t4 = MeshTriangle::norm_from_vertices(vertices.as_slice(), &[6, 4, 3]);
    let t5 = MeshTriangle::norm_from_vertices(vertices.as_slice(), &[6, 3, 1]);
    let t6 = MeshTriangle::norm_from_vertices(vertices.as_slice(), &[1, 3, 2]);
    let t7 = MeshTriangle::norm_from_vertices(vertices.as_slice(), &[1, 2, 0]);
    let t8 = MeshTriangle::norm_from_vertices(vertices.as_slice(), &[2, 3, 4]);
    let t9 = MeshTriangle::norm_from_vertices(vertices.as_slice(), &[2, 4, 5]);
    let t10 = MeshTriangle::norm_from_vertices(vertices.as_slice(), &[6, 1, 0]);
    let t11 = MeshTriangle::norm_from_vertices(vertices.as_slice(), &[6, 0, 7]);
    let mut mesh_triangles: Vec<MeshTriangle> = Vec::new();
    mesh_triangles.push(t0);
    mesh_triangles.push(t1);
    mesh_triangles.push(t2);
    mesh_triangles.push(t3);
    mesh_triangles.push(t4);
    mesh_triangles.push(t5);
    mesh_triangles.push(t6);
    mesh_triangles.push(t7);
    mesh_triangles.push(t8);
    mesh_triangles.push(t9);
    mesh_triangles.push(t10);
    mesh_triangles.push(t11);
    proof {
        assert(mesh_triangles@ =~= seq![t0, t1, t2, t3, t4, t5, t6, t7, t8, t9, t10, t11]);
        assert forall|k: int| 0 <= k < 12 implies (
        #[trigger] mesh_triangles@[k]).vertex_indices == cuboid_mesh_triangles()[k] by {
        }
    }
    Mesh::new(vertices, mesh_triangles)
}

} // verus!
