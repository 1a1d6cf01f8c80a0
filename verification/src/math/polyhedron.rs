//! The convex polyhedron: vertices, edges with cached unit directions,
//! and faces with cached outward normals, bounding-edge sets and flip
//! flags. `update` refreshes every cached direction after vertex motion.

use vstd::prelude::*;
use vstd::string::StringExecFns;
use crate::math::geometry::{pos_raw_plane_signed_dist, signed_dist_spec, tdiv, tdiv_i128};
use crate::math::vector::{
    abs1, cross_vec, dir_spec, in_range, is_isqrt, lemma_cross_vec_bound, lemma_isqrt_eq,
    mag_sq_spec, neg_vec, scaled_unit, vec3, Vector3d, MAX_COORD, UNIT,
};

verus! {

/// An edge: two vertex indices and the cached unit direction from the
/// start vertex to the end vertex.
#[derive(Clone, Copy, PartialEq, Eq, Structural, Debug)]
#[verifier::ext_equal]
pub struct Edge {
    start_index: usize,
    end_index: usize,
    direction: Vector3d,
}

impl Edge {
    /// Index of the start vertex.
    pub closed spec fn start_spec(self) -> int {
        self.start_index as int
    }

    /// Index of the end vertex.
    pub closed spec fn end_spec(self) -> int {
        self.end_index as int
    }

    /// The cached unit direction.
    pub closed spec fn direction_spec(self) -> Vector3d {
        self.direction
    }

    /// The vertex difference the direction is derived from.
    pub open spec fn delta(self, vertices: Seq<Vector3d>) -> Vector3d {
        vec3(
            vertices[self.end_spec()].x - vertices[self.start_spec()].x,
            vertices[self.end_spec()].y - vertices[self.start_spec()].y,
            vertices[self.end_spec()].z - vertices[self.start_spec()].z,
        )
    }

    /// Whether the edge's indices lie inside `vertices` and its two
    /// endpoints do not coincide.
    pub open spec fn structure_ok(self, vertices: Seq<Vector3d>) -> bool {
        &&& 0 <= self.start_spec() < vertices.len()
        &&& 0 <= self.end_spec() < vertices.len()
        &&& mag_sq_spec(self.delta(vertices)) > 0
    }

    /// Whether the cached direction is the unit direction of the delta.
    pub open spec fn current(self, vertices: Seq<Vector3d>) -> bool {
        &&& self.structure_ok(vertices)
        &&& self.direction_spec() == dir_spec(self.delta(vertices))
        &&& self.direction_spec().bounded(UNIT as int)
    }

    /// An edge over `vertices`, its direction cached at construction;
    /// a zero-length edge gets the zero direction and is rejected later
    /// by the polyhedron constructor.
    pub fn new(start_index: usize, end_index: usize, vertices: &Vec<Vector3d>) -> (r: Self)
        requires
            start_index < vertices@.len(),
            end_index < vertices@.len(),
            forall|i: int|
                0 <= i < vertices@.len() ==> (#[trigger] vertices@[i]).bounded(MAX_COORD as int),
        ensures
            r.start_spec() == start_index,
            r.end_spec() == end_index,
            r.direction_spec() == if mag_sq_spec(r.delta(vertices@)) == 0 {
                Vector3d { x: 0, y: 0, z: 0 }
            } else {
                dir_spec(r.delta(vertices@))
            },
            mag_sq_spec(r.delta(vertices@)) > 0 ==> r.current(vertices@),
    {
        let delta = vertices[end_index].sub(&vertices[start_index]);
        let direction = match delta.dir() {
            Some(d) => d,
            Option::None => Vector3d { x: 0, y: 0, z: 0 },
        };
        Edge { start_index, end_index, direction }
    }

    /// Index of the start vertex.
    pub fn start_index(&self) -> (r: usize)
        ensures
            r == self.start_spec(),
    {
        self.start_index
    }

    /// Index of the end vertex.
    pub fn end_index(&self) -> (r: usize)
        ensures
            r == self.end_spec(),
    {
        self.end_index
    }

    /// The cached unit direction.
    pub fn direction(&self) -> (r: &Vector3d)
        ensures
            *r == self.direction_spec(),
    {
        &self.direction
    }

    /// Refreshes the cached direction from the current vertices.
    pub fn update(&mut self, vertices: &Vec<Vector3d>)
        requires
            old(self).structure_ok(vertices@),
            forall|i: int|
                0 <= i < vertices@.len() ==> (#[trigger] vertices@[i]).bounded(MAX_COORD as int),
        ensures
            final(self).start_spec() == old(self).start_spec(),
            final(self).end_spec() == old(self).end_spec(),
            final(self).current(vertices@),
    {
        let delta = vertices[self.end_index].sub(&vertices[self.start_index]);
        let direction = match delta.dir() {
            Some(d) => d,
            Option::None => {
                proof {
                    assert(false);
                }
                Vector3d { x: 0, y: 0, z: 0 }
            },
        };
        self.direction = direction;
    }
}

/// A face: its vertex loop, the edges sharing exactly two of its
/// vertices (bounding) and at least one (connected), the cached outward
/// unit normal, and whether the raw normal must be flipped outward.
#[derive(Clone, PartialEq, Eq, Debug)]
#[verifier::ext_equal]
pub struct Face {
    vertex_indices: Vec<usize>,
    connected_edge_indices: Vec<usize>,
    edge_indices: Vec<usize>,
    direction: Vector3d,
    flip_direction: bool,
}

impl Face {
    /// The face's vertex loop.
    pub closed spec fn vertex_indices_spec(self) -> Seq<usize> {
        self.vertex_indices@
    }

    /// Indices of the bounding edges.
    pub closed spec fn edge_indices_spec(self) -> Seq<usize> {
        self.edge_indices@
    }

    /// Indices of the connected edges.
    pub closed spec fn connected_edge_indices_spec(self) -> Seq<usize> {
        self.connected_edge_indices@
    }

    /// The cached outward unit normal.
    pub closed spec fn direction_spec(self) -> Vector3d {
        self.direction
    }

    /// Whether the raw normal points inward and is negated on every
    /// refresh.
    pub closed spec fn flip_spec(self) -> bool {
        self.flip_direction
    }

    /// The cross product of the first two bounding edges' directions.
    pub open spec fn raw_cross(self, edges: Seq<Edge>) -> Vector3d {
        cross_vec(
            edges[self.edge_indices_spec()[0] as int].direction_spec(),
            edges[self.edge_indices_spec()[1] as int].direction_spec(),
        )
    }

    /// The outward unit normal the cache must hold: the unit direction
    /// of the raw cross, negated when the flip flag is set.
    pub open spec fn dir_of(self, edges: Seq<Edge>) -> Vector3d {
        let d = dir_spec(self.raw_cross(edges));
        if self.flip_spec() {
            neg_vec(d)
        } else {
            d
        }
    }

    /// Whether the face's index lists lie inside the polyhedron's
    /// arrays and give it at least a triangle and two bounding edges.
    pub open spec fn structure_ok(self, num_vertices: int, num_edges: int) -> bool {
        &&& self.vertex_indices_spec().len() >= 3
        &&& forall|k: int|
            0 <= k < self.vertex_indices_spec().len() ==> (#[trigger] self.vertex_indices_spec()[
            k]) < num_vertices
        &&& self.edge_indices_spec().len() >= 2
        &&& forall|k: int|
            0 <= k < self.edge_indices_spec().len() ==> (#[trigger] self.edge_indices_spec()[k])
                < num_edges
        &&& forall|k: int|
            0 <= k < self.connected_edge_indices_spec().len() ==> (
            #[trigger] self.connected_edge_indices_spec()[k]) < num_edges
    }

    /// Whether the cached normal is the outward unit normal over the
    /// given edges.
    pub open spec fn current(self, edges: Seq<Edge>) -> bool {
        &&& mag_sq_spec(self.raw_cross(edges)) > 0
        &&& self.direction_spec() == self.dir_of(edges)
        &&& self.direction_spec().bounded(UNIT as int)
    }

    /// The cached outward unit normal.
    pub fn direction(&self) -> (r: &Vector3d)
        ensures
            *r == self.direction_spec(),
    {
        &self.direction
    }

    /// Indices of the bounding edges.
    pub fn edge_indices(&self) -> (r: &[usize])
        ensures
            r@ == self.edge_indices_spec(),
    {
        self.edge_indices.as_slice()
    }

    /// Indices of the connected edges.
    pub fn connected_edge_indices(&self) -> (r: &[usize])
        ensures
            r@ == self.connected_edge_indices_spec(),
    {
        self.connected_edge_indices.as_slice()
    }

    /// The face's vertex loop.
    pub fn vertex_indices(&self) -> (r: &[usize])
        ensures
            r@ == self.vertex_indices_spec(),
    {
        self.vertex_indices.as_slice()
    }

    /// Refreshes the cached normal from the current edge directions,
    /// reapplying the remembered flip.
    pub fn update(&mut self, edges: &Vec<Edge>)
        requires
            old(self).edge_indices_spec().len() >= 2,
            forall|k: int|
                0 <= k < old(self).edge_indices_spec().len() ==> (
                #[trigger] old(self).edge_indices_spec()[k]) < edges@.len(),
            mag_sq_spec(old(self).raw_cross(edges@)) > 0,
            forall|i: int|
                0 <= i < edges@.len() ==> (#[trigger] edges@[i]).direction_spec().bounded(
                UNIT as int),
        ensures
            final(self).vertex_indices_spec() == old(self).vertex_indices_spec(),
            final(self).edge_indices_spec() == old(self).edge_indices_spec(),
            final(self).connected_edge_indices_spec() == old(self).connected_edge_indices_spec(),
            final(self).flip_spec() == old(self).flip_spec(),
            final(self).current(edges@),
    {
        let ei0 = self.edge_indices[0];
        let ei1 = self.edge_indices[1];
        let d0 = edges[ei0].direction;
        let d1 = edges[ei1].direction;
        let c = d0.cross(&d1);
        proof {
            lemma_cross_vec_bound(d0, d1, UNIT as int);
        }
        let direction = match c.dir() {
            Some(d) => d,
            Option::None => {
                proof {
                    assert(false);
                }
                Vector3d { x: 0, y: 0, z: 0 }
            },
        };
        self.direction = if self.flip_direction {
            Vector3d { x: -direction.x, y: -direction.y, z: -direction.z }
        } else {
            direction
        };
    }
}

/// One enclosing side-plane of a face: anchored at a bounding edge's
/// start vertex, its direction pointing away from the face interior.
#[derive(Clone, Copy, PartialEq, Eq, Structural, Debug)]
pub struct EnclosingPlane {
    vertex_index: usize,
    direction: Vector3d,
}

impl EnclosingPlane {
    /// Index of the anchor vertex.
    pub closed spec fn vertex_index_spec(self) -> int {
        self.vertex_index as int
    }

    /// The plane's direction; not normalized.
    pub closed spec fn direction_spec(self) -> Vector3d {
        self.direction
    }

    /// Index of the anchor vertex.
    pub fn vertex_index(&self) -> (r: usize)
        ensures
            r == self.vertex_index_spec(),
    {
        self.vertex_index
    }

    /// The plane's direction; not normalized.
    pub fn direction(&self) -> (r: &Vector3d)
        ensures
            *r == self.direction_spec(),
    {
        &self.direction
    }
}

/// A convex polyhedron with cached edge directions and face normals.
#[derive(Clone, PartialEq, Eq, Debug)]
#[verifier::ext_equal]
pub struct Polyhedron {
    faces: Vec<Face>,
    edges: Vec<Edge>,
    vertices: Vec<Vector3d>,
}

impl Polyhedron {
    /// The vertex positions.
    pub closed spec fn vertices_spec(self) -> Seq<Vector3d> {
        self.vertices@
    }

    /// The edges.
    pub closed spec fn edges_spec(self) -> Seq<Edge> {
        self.edges@
    }

    /// The faces.
    pub closed spec fn faces_spec(self) -> Seq<Face> {
        self.faces@
    }

    /// The cross of a face's first two bounding edges as their
    /// directions will stand after a refresh over the current vertices.
    pub open spec fn face_fresh_cross(self, f: Face) -> Vector3d {
        cross_vec(
            dir_spec(self.edges_spec()[f.edge_indices_spec()[0] as int].delta(self.vertices_spec())),
            dir_spec(self.edges_spec()[f.edge_indices_spec()[1] as int].delta(self.vertices_spec())),
        )
    }

    /// Whether a refresh of every cached direction is defined: all
    /// coordinates in range, no zero-length edge, every face at least a
    /// triangle with two non-parallel bounding edges.
    pub open spec fn update_defined(self) -> bool {
        &&& forall|i: int|
            0 <= i < self.vertices_spec().len() ==> (#[trigger] self.vertices_spec()[i]).bounded(
            MAX_COORD as int)
        &&& forall|i: int|
            0 <= i < self.edges_spec().len() ==> (#[trigger] self.edges_spec()[i]).structure_ok(
            self.vertices_spec())
        &&& forall|i: int|
            0 <= i < self.faces_spec().len() ==> (#[trigger] self.faces_spec()[i]).structure_ok(
            self.vertices_spec().len() as int,
            self.edges_spec().len() as int,
            )
        &&& forall|i: int|
            0 <= i < self.faces_spec().len() ==> mag_sq_spec(
                self.face_fresh_cross(#[trigger] self.faces_spec()[i]),
            ) > 0
    }

    /// Whether every cached direction is current for the vertices.
    pub open spec fn wf(self) -> bool {
        &&& self.update_defined()
        &&& forall|i: int|
            0 <= i < self.edges_spec().len() ==> (#[trigger] self.edges_spec()[i]).current(
            self.vertices_spec())
        &&& forall|i: int|
            0 <= i < self.faces_spec().len() ==> (#[trigger] self.faces_spec()[i]).current(
            self.edges_spec())
    }

    /// How one refresh relates the new polyhedron to the old: the
    /// structure is kept, every edge direction is the unit direction of
    /// its delta, every face normal is derived from the refreshed edges.
    pub open spec fn is_updated_from(post: Polyhedron, pre: Polyhedron) -> bool {
        &&& post.vertices_spec() == pre.vertices_spec()
        &&& post.edges_spec().len() == pre.edges_spec().len()
        &&& forall|i: int|
            0 <= i < pre.edges_spec().len() ==> {
                let e = #[trigger] post.edges_spec()[i];
                &&& e.start_spec() == pre.edges_spec()[i].start_spec()
                &&& e.end_spec() == pre.edges_spec()[i].end_spec()
                &&& e.direction_spec() == dir_spec(
                    pre.edges_spec()[i].delta(pre.vertices_spec()),
                )
            }
        &&& post.faces_spec().len() == pre.faces_spec().len()
        &&& forall|i: int|
            0 <= i < pre.faces_spec().len() ==> {
                let f = #[trigger] post.faces_spec()[i];
                &&& f.vertex_indices_spec() == pre.faces_spec()[i].vertex_indices_spec()
                &&& f.edge_indices_spec() == pre.faces_spec()[i].edge_indices_spec()
                &&& f.connected_edge_indices_spec() == pre.faces_spec()[
                    i].connected_edge_indices_spec()
                &&& f.flip_spec() == pre.faces_spec()[i].flip_spec()
                &&& f.direction_spec() == pre.faces_spec()[i].dir_of(post.edges_spec())
            }
    }

    /// The edges.
    pub fn edges(&self) -> (r: &[Edge])
        ensures
            r@ == self.edges_spec(),
    {
        self.edges.as_slice()
    }

    /// The faces.
    pub fn faces(&self) -> (r: &[Face])
        ensures
            r@ == self.faces_spec(),
    {
        self.faces.as_slice()
    }

    /// The vertex positions.
    pub fn vertices(&self) -> (r: &[Vector3d])
        ensures
            r@ == self.vertices_spec(),
    {
        self.vertices.as_slice()
    }

    /// Vertices, edges and faces at once.
    pub fn get_refs(&self) -> (r: (&[Vector3d], &[Edge], &[Face]))
        ensures
            r.0@ == self.vertices_spec(),
            r.1@ == self.edges_spec(),
            r.2@ == self.faces_spec(),
    {
        (self.vertices.as_slice(), self.edges.as_slice(), self.faces.as_slice())
    }

    /// The vertex positions, writable; the caller moves vertices and
    /// then refreshes the cached directions with `update`.
    pub fn vertices_mut(&mut self) -> (r: &mut Vec<Vector3d>)
        ensures
            r@ == old(self).vertices_spec(),
            final(self).edges_spec() == old(self).edges_spec(),
            final(self).faces_spec() == old(self).faces_spec(),
            final(self).vertices_spec() == final(r)@,
    {
        &mut self.vertices
    }

    /// What `update_defined` says, restated over the raw views.
    proof fn lemma_update_defined_unfold(p: Polyhedron)
        requires
            p.update_defined(),
        ensures
            forall|i: int|
                0 <= i < p.vertices@.len() ==> (#[trigger] p.vertices@[i]).bounded(
                MAX_COORD as int),
            forall|i: int|
                0 <= i < p.edges@.len() ==> (#[trigger] p.edges@[i]).structure_ok(p.vertices@),
            forall|i: int|
                0 <= i < p.faces@.len() ==> (#[trigger] p.faces@[i]).structure_ok(
                    p.vertices@.len() as int,
                    p.edges@.len() as int,
                ),
            forall|i: int|
                0 <= i < p.faces@.len() ==> mag_sq_spec(
                    p.face_fresh_cross(#[trigger] p.faces@[i]),
                ) > 0,
    {
        assert forall|i: int| 0 <= i < p.vertices@.len() implies (
        #[trigger] p.vertices@[i]).bounded(MAX_COORD as int) by {
            assert(p.vertices_spec()[i].bounded(MAX_COORD as int));
        }
        assert forall|i: int| 0 <= i < p.edges@.len() implies (
        #[trigger] p.edges@[i]).structure_ok(p.vertices@) by {
            assert(p.edges_spec()[i].structure_ok(p.vertices_spec()));
        }
        assert forall|i: int| 0 <= i < p.faces@.len() implies (
        #[trigger] p.faces@[i]).structure_ok(p.vertices@.len() as int, p.edges@.len() as int) by {
            assert(p.faces_spec()[i].structure_ok(
                p.vertices_spec().len() as int,
                p.edges_spec().len() as int,
            ));
        }
        assert forall|i: int| 0 <= i < p.faces@.len() implies mag_sq_spec(
            p.face_fresh_cross(#[trigger] p.faces@[i]),
        ) > 0 by {
            assert(mag_sq_spec(p.face_fresh_cross(p.faces_spec()[i])) > 0);
        }
    }

    /// Refreshes every edge direction, then every face normal.
    pub fn update(&mut self)
        requires
            old(self).update_defined(),
        ensures
            Polyhedron::is_updated_from(*final(self), *old(self)),
            final(self).wf(),
    {
        let ne = self.edges.len();
        let mut i: usize = 0;
        while i < ne
            invariant
                ne == self.edges@.len(),
                i <= ne,
                self.vertices@ == old(self).vertices@,
                self.faces@ == old(self).faces@,
                self.edges@.len() == old(self).edges@.len(),
                old(self).update_defined(),
                forall|k: int|
                    i <= k < ne ==> #[trigger] self.edges@[k] == old(self).edges@[k],
                forall|k: int|
                    0 <= k < i ==> {
                        let e = #[trigger] self.edges@[k];
                        &&& e.start_spec() == old(self).edges@[k].start_spec()
                        &&& e.end_spec() == old(self).edges@[k].end_spec()
                        &&& e.current(old(self).vertices@)
                        &&& e.direction_spec() == dir_spec(
                            old(self).edges@[k].delta(old(self).vertices@),
                        )
                    },
            decreases ne - i,
        {
            let mut e = self.edges[i];
            proof {
                Polyhedron::lemma_update_defined_unfold(*old(self));
                assert(e.structure_ok(self.vertices@));
            }
            e.update(&self.vertices);
            self.edges[i] = e;
            i = i + 1;
        }
        let nf = self.faces.len();
        let mut j: usize = 0;
        while j < nf
            invariant
                nf == self.faces@.len(),
                j <= nf,
                self.vertices@ == old(self).vertices@,
                self.faces@.len() == old(self).faces@.len(),
                old(self).update_defined(),
                self.edges@.len() == old(self).edges@.len(),
                forall|k: int|
                    0 <= k < self.edges@.len() ==> {
                        let e = #[trigger] self.edges@[k];
                        &&& e.start_spec() == old(self).edges@[k].start_spec()
                        &&& e.end_spec() == old(self).edges@[k].end_spec()
                        &&& e.current(old(self).vertices@)
                        &&& e.direction_spec() == dir_spec(
                            old(self).edges@[k].delta(old(self).vertices@),
                        )
                    },
                forall|k: int|
                    j <= k < nf ==> #[trigger] self.faces@[k] == old(self).faces@[k],
                forall|k: int|
                    0 <= k < j ==> {
                        let f = #[trigger] self.faces@[k];
                        &&& f.vertex_indices_spec() == old(self).faces@[k].vertex_indices_spec()
                        &&& f.edge_indices_spec() == old(self).faces@[k].edge_indices_spec()
                        &&& f.connected_edge_indices_spec() == old(self).faces@[
                            k].connected_edge_indices_spec()
                        &&& f.flip_spec() == old(self).faces@[k].flip_spec()
                        &&& f.direction_spec() == old(self).faces@[k].dir_of(self.edges@)
                        &&& f.current(self.edges@)
                    },
            decreases nf - j,
        {
            proof {
                Polyhedron::lemma_update_defined_unfold(*old(self));
                assert(self.faces@[j as int] == old(self).faces@[j as int]);
                assert(old(self).faces@[j as int].structure_ok(
                    old(self).vertices@.len() as int,
                    old(self).edges@.len() as int,
                ));
            }
            let ei0 = self.faces[j].edge_indices[0];
            let ei1 = self.faces[j].edge_indices[1];
            let flip = self.faces[j].flip_direction;
            let d0 = self.edges[ei0].direction;
            let d1 = self.edges[ei1].direction;
            let c = d0.cross(&d1);
            proof {
                let f0 = old(self).faces@[j as int];
                assert(ei0 == f0.edge_indices_spec()[0] && ei1 == f0.edge_indices_spec()[1]);
                assert(d0 == self.edges@[ei0 as int].direction_spec());
                assert(d1 == self.edges@[ei1 as int].direction_spec());
                assert(d0.bounded(UNIT as int) && d1.bounded(UNIT as int));
                lemma_cross_vec_bound(d0, d1, UNIT as int);
                assert(c == f0.raw_cross(self.edges@));
                assert(d0 == dir_spec(
                    old(self).edges_spec()[ei0 as int].delta(old(self).vertices_spec()),
                ));
                assert(d1 == dir_spec(
                    old(self).edges_spec()[ei1 as int].delta(old(self).vertices_spec()),
                ));
                assert(c == old(self).face_fresh_cross(f0));
                assert(mag_sq_spec(old(self).face_fresh_cross(f0)) > 0);
            }
            let direction = match c.dir() {
                Some(d) => d,
                Option::None => {
                    proof {
                        assert(false);
                    }
                    Vector3d { x: 0, y: 0, z: 0 }
                },
            };
            let newdir = if flip {
                Vector3d { x: -direction.x, y: -direction.y, z: -direction.z }
            } else {
                direction
            };
            self.faces[j].direction = newdir;
            j = j + 1;
        }
        proof {
            Polyhedron::lemma_update_defined_unfold(*old(self));
            assert(self.vertices_spec() == old(self).vertices_spec());
            assert forall|k: int| 0 <= k < self.vertices_spec().len() implies (
            #[trigger] self.vertices_spec()[k]).bounded(MAX_COORD as int) by {
                assert(old(self).vertices@[k].bounded(MAX_COORD as int));
            }
            assert forall|k: int| 0 <= k < self.edges_spec().len() implies (
            #[trigger] self.edges_spec()[k]).current(self.vertices_spec())
                && self.edges_spec()[k].structure_ok(self.vertices_spec()) by {
                assert(self.edges@[k].current(old(self).vertices@));
            }
            assert forall|k: int| 0 <= k < self.faces_spec().len() implies (
            #[trigger] self.faces_spec()[k]).structure_ok(
                self.vertices_spec().len() as int,
                self.edges_spec().len() as int,
            ) by {
                let f = self.faces@[k];
                let f0 = old(self).faces@[k];
                assert(f0.structure_ok(
                    old(self).vertices@.len() as int,
                    old(self).edges@.len() as int,
                ));
                assert(f.vertex_indices_spec() == f0.vertex_indices_spec());
                assert(f.edge_indices_spec() == f0.edge_indices_spec());
                assert(f.connected_edge_indices_spec() == f0.connected_edge_indices_spec());
            }
            assert forall|k: int| 0 <= k < self.faces_spec().len() implies mag_sq_spec(
                self.face_fresh_cross(#[trigger] self.faces_spec()[k]),
            ) > 0 by {
                let f = self.faces@[k];
                let f0 = old(self).faces@[k];
                assert(mag_sq_spec(old(self).face_fresh_cross(f0)) > 0);
                let b0 = f0.edge_indices_spec()[0] as int;
                let b1 = f0.edge_indices_spec()[1] as int;
                assert(f.edge_indices_spec() == f0.edge_indices_spec());
                assert(f0.structure_ok(
                    old(self).vertices@.len() as int,
                    old(self).edges@.len() as int,
                ));
                assert(self.edges@[b0].delta(self.vertices@) == old(self).edges@[b0].delta(
                    old(self).vertices@,
                ));
                assert(self.edges@[b1].delta(self.vertices@) == old(self).edges@[b1].delta(
                    old(self).vertices@,
                ));
                assert(self.face_fresh_cross(f) == old(self).face_fresh_cross(f0));
            }
            assert forall|k: int| 0 <= k < self.faces_spec().len() implies (
            #[trigger] self.faces_spec()[k]).current(self.edges_spec()) by {
                assert(self.faces@[k].current(self.edges@));
            }
        }
    }

    /// Refreshing the caches twice is a refresh once: a second `update`
    /// with unchanged vertices leaves every vertex and edge, and every
    /// face's index lists, flip flag and normal, exactly as the first
    /// left them.
    pub proof fn lemma_update_idempotent(p0: Polyhedron, p1: Polyhedron, p2: Polyhedron)
        requires
            Polyhedron::is_updated_from(p1, p0),
            Polyhedron::is_updated_from(p2, p1),
        ensures
            p2.vertices_spec() == p1.vertices_spec(),
            p2.edges_spec() == p1.edges_spec(),
            p2.faces_spec().len() == p1.faces_spec().len(),
            forall|i: int|
                0 <= i < p1.faces_spec().len() ==> {
                    let fa = p1.faces_spec()[i];
                    let fb = #[trigger] p2.faces_spec()[i];
                    &&& fb.vertex_indices_spec() == fa.vertex_indices_spec()
                    &&& fb.edge_indices_spec() == fa.edge_indices_spec()
                    &&& fb.connected_edge_indices_spec() == fa.connected_edge_indices_spec()
                    &&& fb.flip_spec() == fa.flip_spec()
                    &&& fb.direction_spec() == fa.direction_spec()
                },
    {
        assert forall|i: int| 0 <= i < p1.edges_spec().len() implies p2.edges_spec()[i]
            == p1.edges_spec()[i] by {
            let ea = p1.edges@[i];
            let eb = p2.edges@[i];
            assert(ea.delta(p1.vertices@) == p0.edges@[i].delta(p0.vertices@));
            assert(eb.direction_spec() == ea.direction_spec());
            assert(eb.start_spec() == ea.start_spec() && eb.end_spec() == ea.end_spec());
            assert(eb =~= ea);
        }
        assert(p2.edges_spec() =~= p1.edges_spec());
        assert forall|i: int| 0 <= i < p1.faces_spec().len() implies (
        #[trigger] p2.faces_spec()[i]).direction_spec() == p1.faces_spec()[i].direction_spec() by {
            let fa = p1.faces@[i];
            assert(p2.edges@ == p1.edges@);
            assert(fa.raw_cross(p2.edges@) == p0.faces@[i].raw_cross(p1.edges@));
            assert(fa.dir_of(p2.edges@) == p0.faces@[i].dir_of(p1.edges@));
        }
    }
}


/// How many entries of the first `n` of the vertex loop are an endpoint
/// of `e`.
pub open spec fn shared_count(vi: Seq<usize>, e: Edge, n: int) -> int
    decreases n,
{
    if n <= 0 {
        0
    } else {
        shared_count(vi, e, n - 1) + if vi[n - 1] as int == e.start_spec() || vi[n - 1] as int
            == e.end_spec() {
            1int
        } else {
            0int
        }
    }
}

/// The indices, in order, of the first `n` edges that share at least
/// one vertex with the loop.
pub open spec fn connected_list(vi: Seq<usize>, edges: Seq<Edge>, n: int) -> Seq<usize>
    decreases n,
{
    if n <= 0 {
        Seq::empty()
    } else {
        let pre = connected_list(vi, edges, n - 1);
        if shared_count(vi, edges[n - 1], vi.len() as int) >= 1 {
            pre.push((n - 1) as usize)
        } else {
            pre
        }
    }
}

/// The indices, in order, of the first `n` edges that share at least
/// two vertices with the loop: the face's bounding edges.
pub open spec fn bounding_list(vi: Seq<usize>, edges: Seq<Edge>, n: int) -> Seq<usize>
    decreases n,
{
    if n <= 0 {
        Seq::empty()
    } else {
        let pre = bounding_list(vi, edges, n - 1);
        if shared_count(vi, edges[n - 1], vi.len() as int) >= 2 {
            pre.push((n - 1) as usize)
        } else {
            pre
        }
    }
}

/// Every entry of the edge lists indexes one of the first `n` edges.
pub proof fn lemma_list_elems(vi: Seq<usize>, edges: Seq<Edge>, n: int)
    requires
        0 <= n,
    ensures
        forall|k: int|
            0 <= k < connected_list(vi, edges, n).len() ==> (#[trigger] connected_list(
                vi,
                edges,
                n,
            )[k]) < n,
        forall|k: int|
            0 <= k < bounding_list(vi, edges, n).len() ==> (#[trigger] bounding_list(
                vi,
                edges,
                n,
            )[k]) < n,
    decreases n,
{
    if n > 0 {
        lemma_list_elems(vi, edges, n - 1);
        let cp = connected_list(vi, edges, n - 1);
        let bp = bounding_list(vi, edges, n - 1);
        assert forall|k: int| 0 <= k < connected_list(vi, edges, n).len() implies (
        #[trigger] connected_list(vi, edges, n)[k]) < n by {
            if k < cp.len() {
                assert(cp[k] < n - 1 + 1);
            }
        }
        assert forall|k: int| 0 <= k < bounding_list(vi, edges, n).len() implies (
        #[trigger] bounding_list(vi, edges, n)[k]) < n by {
            if k < bp.len() {
                assert(bp[k] < n - 1 + 1);
            }
        }
    }
}

/// Sharing counts read only an edge's endpoints.
pub proof fn lemma_shared_count_same(vi: Seq<usize>, ea: Edge, eb: Edge, n: int)
    requires
        ea.start_spec() == eb.start_spec(),
        ea.end_spec() == eb.end_spec(),
    ensures
        shared_count(vi, ea, n) == shared_count(vi, eb, n),
    decreases n,
{
    if n > 0 {
        lemma_shared_count_same(vi, ea, eb, n - 1);
    }
}

/// The edge lists read only the edges' endpoints: two edge sequences
/// that agree on endpoints give the same lists.
pub proof fn lemma_lists_same(vi: Seq<usize>, e1: Seq<Edge>, e2: Seq<Edge>, n: int)
    requires
        0 <= n <= e1.len(),
        n <= e2.len(),
        forall|i: int|
            0 <= i < n ==> (#[trigger] e1[i]).start_spec() == e2[i].start_spec() && e1[
                i].end_spec() == e2[i].end_spec(),
    ensures
        connected_list(vi, e1, n) == connected_list(vi, e2, n),
        bounding_list(vi, e1, n) == bounding_list(vi, e2, n),
    decreases n,
{
    if n > 0 {
        lemma_lists_same(vi, e1, e2, n - 1);
        lemma_shared_count_same(vi, e1[n - 1], e2[n - 1], vi.len() as int);
    }
}

/// One coordinate of a vector, selected by axis.
pub open spec fn coord(v: Vector3d, axis: int) -> int {
    if axis == 0 {
        v.x as int
    } else if axis == 1 {
        v.y as int
    } else {
        v.z as int
    }
}

/// The sum of one coordinate over the first `n` vertices.
pub open spec fn sum_coord(vs: Seq<Vector3d>, n: int, axis: int) -> int
    decreases n,
{
    if n <= 0 {
        0
    } else {
        sum_coord(vs, n - 1, axis) + coord(vs[n - 1], axis)
    }
}

/// The vertex centroid, each coordinate's quotient truncated; the zero
/// vector for an empty vertex list.
pub open spec fn centroid_spec(vs: Seq<Vector3d>) -> Vector3d {
    if vs.len() == 0 {
        Vector3d { x: 0, y: 0, z: 0 }
    } else {
        vec3(
            tdiv(sum_coord(vs, vs.len() as int, 0), vs.len() as int),
            tdiv(sum_coord(vs, vs.len() as int, 1), vs.len() as int),
            tdiv(sum_coord(vs, vs.len() as int, 2), vs.len() as int),
        )
    }
}

/// Whether a vertex loop makes a face over refreshed edge directions:
/// at least a triangle, indices in range, at least two bounding edges,
/// and the first two bounding directions not parallel.
pub open spec fn face_ok_fresh(
    vi: Seq<usize>,
    edges: Seq<Edge>,
    vertices: Seq<Vector3d>,
) -> bool {
    let bl = bounding_list(vi, edges, edges.len() as int);
    &&& vi.len() >= 3
    &&& forall|k: int| 0 <= k < vi.len() ==> (#[trigger] vi[k]) < vertices.len()
    &&& bl.len() >= 2
    &&& mag_sq_spec(
        cross_vec(
            dir_spec(edges[bl[0] as int].delta(vertices)),
            dir_spec(edges[bl[1] as int].delta(vertices)),
        ),
    ) > 0
}

/// Whether a vertex loop makes a face over the cached edge directions.
pub open spec fn face_ok_cached(vi: Seq<usize>, edges: Seq<Edge>, num_vertices: int) -> bool {
    let bl = bounding_list(vi, edges, edges.len() as int);
    &&& vi.len() >= 3
    &&& forall|k: int| 0 <= k < vi.len() ==> (#[trigger] vi[k]) < num_vertices
    &&& bl.len() >= 2
    &&& mag_sq_spec(
        cross_vec(
            edges[bl[0] as int].direction_spec(),
            edges[bl[1] as int].direction_spec(),
        ),
    ) > 0
}

/// Whether polyhedron construction succeeds on the given input: no
/// out-of-range or zero-length edge, and every vertex loop a face.
pub open spec fn construction_ok(
    fvi: Seq<Vec<usize>>,
    edges: Seq<Edge>,
    vertices: Seq<Vector3d>,
) -> bool {
    &&& forall|i: int| 0 <= i < edges.len() ==> (#[trigger] edges[i]).structure_ok(vertices)
    &&& forall|i: int|
        0 <= i < fvi.len() ==> face_ok_fresh((#[trigger] fvi[i])@, edges, vertices)
}

/// What the constructor guarantees of one built face: its lists are the
/// connected and bounding lists of its loop, its flip records whether
/// the raw normal faced the centroid, and its cached normal is current.
pub open spec fn built_face_ok(
    f: Face,
    vi: Seq<usize>,
    edges: Seq<Edge>,
    vertices: Seq<Vector3d>,
) -> bool {
    &&& face_ok_cached(vi, edges, vertices.len() as int)
    &&& f.vertex_indices_spec() == vi
    &&& f.connected_edge_indices_spec() == connected_list(vi, edges, edges.len() as int)
    &&& f.edge_indices_spec() == bounding_list(vi, edges, edges.len() as int)
    &&& f.flip_spec() == (signed_dist_spec(
        centroid_spec(vertices),
        vertices[vi[0] as int],
        dir_spec(f.raw_cross(edges)),
    ) > 0)
    &&& f.direction_spec() == f.dir_of(edges)
    &&& f.current(edges)
    &&& f.structure_ok(vertices.len() as int, edges.len() as int)
}

impl Face {
    /// The bounding and connected edges of a vertex loop: for each
    /// edge, how many loop entries are one of its endpoints; two or
    /// more make it bounding, one or more connected.
    pub fn get_edges(vertex_indices: &Vec<usize>, edges: &Vec<Edge>) -> (r: (Vec<usize>, Vec<
        usize,
    >))
        ensures
            r.0@ == connected_list(vertex_indices@, edges@, edges@.len() as int),
            r.1@ == bounding_list(vertex_indices@, edges@, edges@.len() as int),
    {
        let mut connected: Vec<usize> = Vec::new();
        let mut bounding: Vec<usize> = Vec::new();
        let ne = edges.len();
        let nv = vertex_indices.len();
        let mut i: usize = 0;
        while i < ne
            invariant
                i <= ne,
                ne == edges@.len(),
                nv == vertex_indices@.len(),
                connected@ == connected_list(vertex_indices@, edges@, i as int),
                bounding@ == bounding_list(vertex_indices@, edges@, i as int),
            decreases ne - i,
        {
            let e = edges[i];
            let mut count: usize = 0;
            let mut k: usize = 0;
            while k < nv
                invariant
                    k <= nv,
                    nv == vertex_indices@.len(),
                    e == edges@[i as int],
                    count <= k,
                    count == shared_count(vertex_indices@, e, k as int),
                decreases nv - k,
            {
                let v = vertex_indices[k];
                if v == e.start_index || v == e.end_index {
                    count = count + 1;
                }
                k = k + 1;
            }
            if count >= 2 {
                connected.push(i);
                bounding.push(i);
            } else if count == 1 {
                connected.push(i);
            }
            i = i + 1;
        }
        (connected, bounding)
    }

    /// A face from a vertex loop: finds its bounding and connected
    /// edges, takes the unit cross of the first two bounding
    /// directions as the normal, and flips it outward when the
    /// polyhedron's interior point lies in front of it.
    fn new(
        vertex_indices: Vec<usize>,
        vertices: &Vec<Vector3d>,
        inside: &Vector3d,
        edges: &Vec<Edge>,
    ) -> (r: Result<Face, String>)
        requires
            forall|i: int|
                0 <= i < vertices@.len() ==> (#[trigger] vertices@[i]).bounded(MAX_COORD as int),
            inside.bounded(MAX_COORD as int),
            forall|i: int|
                0 <= i < edges@.len() ==> (#[trigger] edges@[i]).direction_spec().bounded(
                UNIT as int),
        ensures
            match r {
                Ok(f) => {
                    &&& face_ok_cached(vertex_indices@, edges@, vertices@.len() as int)
                    &&& f.vertex_indices_spec() == vertex_indices@
                    &&& f.connected_edge_indices_spec() == connected_list(
                        vertex_indices@,
                        edges@,
                        edges@.len() as int,
                    )
                    &&& f.edge_indices_spec() == bounding_list(
                        vertex_indices@,
                        edges@,
                        edges@.len() as int,
                    )
                    &&& f.flip_spec() == (signed_dist_spec(
                        *inside,
                        vertices@[vertex_indices@[0] as int],
                        dir_spec(f.raw_cross(edges@)),
                    ) > 0)
                    &&& f.direction_spec() == f.dir_of(edges@)
                    &&& f.current(edges@)
                    &&& f.structure_ok(vertices@.len() as int, edges@.len() as int)
                },
                Err(_) => !face_ok_cached(vertex_indices@, edges@, vertices@.len() as int),
            },
    {
        let nv = vertex_indices.len();
        if nv < 3 {
            return Err(String::from_str("Face with fewer than three vertices."));
        }
        let mut k: usize = 0;
        while k < nv
            invariant
                k <= nv,
                nv == vertex_indices@.len(),
                forall|l: int|
                    0 <= l < k ==> (#[trigger] vertex_indices@[l]) < vertices@.len(),
            decreases nv - k,
        {
            if vertex_indices[k] >= vertices.len() {
                return Err(String::from_str("Face with vertex index out of range."));
            }
            k = k + 1;
        }
        let (connected_edge_indices, edge_indices) = Self::get_edges(&vertex_indices, edges);
        if edge_indices.len() < 2 {
            return Err(String::from_str("Face with fewer than two bounding edges."));
        }
        proof {
            lemma_list_elems(vertex_indices@, edges@, edges@.len() as int);
        }
        let b0 = edge_indices[0];
        let b1 = edge_indices[1];
        let c = edges[b0].direction.cross(&edges[b1].direction);
        proof {
            lemma_cross_vec_bound(
                edges@[b0 as int].direction_spec(),
                edges@[b1 as int].direction_spec(),
                UNIT as int,
            );
        }
        let direction = match c.dir() {
            Some(d) => d,
            Option::None => {
                return Err(String::from_str("Face with undefined direction."));
            },
        };
        let face_vertex = vertices[vertex_indices[0]];
        let dist = pos_raw_plane_signed_dist(inside, &face_vertex, &direction);
        let flip_direction = dist > 0;
        let direction = if flip_direction {
            Vector3d { x: -direction.x, y: -direction.y, z: -direction.z }
        } else {
            direction
        };
        Ok(
            Face {
                vertex_indices,
                connected_edge_indices,
                edge_indices,
                direction,
                flip_direction,
            },
        )
    }
}


/// The interior reference point of a face: the truncated centroid of
/// its first three loop vertices.
pub open spec fn face_inner_point(vi: Seq<usize>, vertices: Seq<Vector3d>) -> Vector3d {
    vec3(
        tdiv(
            vertices[vi[0] as int].x + vertices[vi[1] as int].x + vertices[vi[2] as int].x,
            3,
        ),
        tdiv(
            vertices[vi[0] as int].y + vertices[vi[1] as int].y + vertices[vi[2] as int].y,
            3,
        ),
        tdiv(
            vertices[vi[0] as int].z + vertices[vi[1] as int].z + vertices[vi[2] as int].z,
            3,
        ),
    )
}

/// The direction of the enclosing plane anchored at bounding edge `k`
/// of a face: the edge direction crossed with the face normal, negated
/// when the face's interior point lies in front of it.
pub open spec fn enclosing_dir(f: Face, k: int, vertices: Seq<Vector3d>, edges: Seq<Edge>)
    -> Vector3d {
    let e = edges[f.edge_indices_spec()[k] as int];
    let raw = cross_vec(e.direction_spec(), f.direction_spec());
    if signed_dist_spec(
        face_inner_point(f.vertex_indices_spec(), vertices),
        vertices[e.start_spec()],
        raw,
    ) > 0 {
        neg_vec(raw)
    } else {
        raw
    }
}

impl Face {
    /// The enclosing side-planes of the face, one per bounding edge:
    /// anchored at the edge's start vertex, directed along the cross of
    /// the edge direction and the face normal, away from the face's
    /// interior point.
    pub fn enclosing_planes(&self, vertices: &[Vector3d], edges: &[Edge]) -> (r: Vec<
        EnclosingPlane,
    >)
        requires
            self.structure_ok(vertices@.len() as int, edges@.len() as int),
            self.direction_spec().bounded(UNIT as int),
            forall|i: int|
                0 <= i < vertices@.len() ==> (#[trigger] vertices@[i]).bounded(MAX_COORD as int),
            forall|i: int|
                0 <= i < edges@.len() ==> (#[trigger] edges@[i]).direction_spec().bounded(
                UNIT as int),
            forall|i: int|
                0 <= i < edges@.len() ==> 0 <= (#[trigger] edges@[i]).start_spec()
                    < vertices@.len(),
        ensures
            r@.len() == self.edge_indices_spec().len(),
            forall|k: int|
                0 <= k < r@.len() ==> {
                    let p = #[trigger] r@[k];
                    &&& p.vertex_index_spec() == edges@[self.edge_indices_spec()[
                        k] as int].start_spec()
                    &&& p.direction_spec() == enclosing_dir(*self, k, vertices@, edges@)
                },
    {
        let vi0 = self.vertex_indices[0];
        let vi1 = self.vertex_indices[1];
        let vi2 = self.vertex_indices[2];
        let v0 = vertices[vi0];
        let v1 = vertices[vi1];
        let v2 = vertices[vi2];
        let sx: i64 = v0.x + v1.x + v2.x;
        let sy: i64 = v0.y + v1.y + v2.y;
        let sz: i64 = v0.z + v1.z + v2.z;
        proof {
            lemma_centroid_coord_bound(sx as int, 3);
            lemma_centroid_coord_bound(sy as int, 3);
            lemma_centroid_coord_bound(sz as int, 3);
        }
        let inside = Vector3d {
            x: tdiv_i128(sx as i128, 3) as i64,
            y: tdiv_i128(sy as i128, 3) as i64,
            z: tdiv_i128(sz as i128, 3) as i64,
        };
        proof {
            assert(inside == face_inner_point(self.vertex_indices_spec(), vertices@));
            assert(inside.bounded(MAX_COORD as int));
        }
        let n = self.edge_indices.len();
        let mut planes: Vec<EnclosingPlane> = Vec::new();
        let mut k: usize = 0;
        while k < n
            invariant
                k <= n,
                n == self.edge_indices@.len(),
                inside == face_inner_point(self.vertex_indices_spec(), vertices@),
                inside.bounded(MAX_COORD as int),
                self.structure_ok(vertices@.len() as int, edges@.len() as int),
                self.direction_spec().bounded(UNIT as int),
                forall|i: int|
                    0 <= i < vertices@.len() ==> (#[trigger] vertices@[i]).bounded(
                    MAX_COORD as int),
                forall|i: int|
                    0 <= i < edges@.len() ==> (#[trigger] edges@[i]).direction_spec().bounded(
                    UNIT as int),
                forall|i: int|
                    0 <= i < edges@.len() ==> 0 <= (#[trigger] edges@[i]).start_spec()
                        < vertices@.len(),
                planes@.len() == k,
                forall|l: int|
                    0 <= l < k ==> {
                        let p = #[trigger] planes@[l];
                        &&& p.vertex_index_spec() == edges@[self.edge_indices_spec()[
                            l] as int].start_spec()
                        &&& p.direction_spec() == enclosing_dir(*self, l, vertices@, edges@)
                    },
            decreases n - k,
        {
            let ei = self.edge_indices[k];
            let e = edges[ei];
            let vertex_index = e.start_index;
            let raw = e.direction.cross(&self.direction);
            proof {
                lemma_cross_vec_bound(e.direction_spec(), self.direction_spec(), UNIT as int);
            }
            let dist = pos_raw_plane_signed_dist(&inside, &vertices[vertex_index], &raw);
            let direction = if dist > 0 {
                Vector3d { x: -raw.x, y: -raw.y, z: -raw.z }
            } else {
                raw
            };
            planes.push(EnclosingPlane { vertex_index, direction });
            k = k + 1;
        }
        planes
    }
}


/// A face verdict over cached directions equals the verdict over
/// refreshed directions when the cache is current.
pub proof fn lemma_face_ok_equiv(
    vi: Seq<usize>,
    e_in: Seq<Edge>,
    e_ref: Seq<Edge>,
    vertices: Seq<Vector3d>,
)
    requires
        e_in.len() == e_ref.len(),
        forall|i: int|
            0 <= i < e_in.len() ==> {
                let e = #[trigger] e_ref[i];
                &&& e.start_spec() == e_in[i].start_spec()
                &&& e.end_spec() == e_in[i].end_spec()
                &&& e.direction_spec() == dir_spec(e_in[i].delta(vertices))
            },
    ensures
        face_ok_cached(vi, e_ref, vertices.len() as int) == face_ok_fresh(vi, e_in, vertices),
{
    let n = e_in.len() as int;
    lemma_lists_same(vi, e_in, e_ref, n);
    let bl = bounding_list(vi, e_in, n);
    if bl.len() >= 2 {
        lemma_list_elems(vi, e_in, n);
        assert(e_ref[bl[0] as int].direction_spec() == dir_spec(e_in[bl[0] as int].delta(vertices)));
        assert(e_ref[bl[1] as int].direction_spec() == dir_spec(e_in[bl[1] as int].delta(vertices)));
        assert(e_in[bl[0] as int].delta(vertices) == e_ref[bl[0] as int].delta(vertices));
        assert(e_in[bl[1] as int].delta(vertices) == e_ref[bl[1] as int].delta(vertices));
    }
}

/// A coordinate sum of `n` in-range values divides back into range.
proof fn lemma_centroid_coord_bound(s: int, n: int)
    requires
        0 < n,
        in_range(s, n * MAX_COORD as int),
    ensures
        in_range(tdiv(s, n), MAX_COORD as int),
        tdiv(s, n) != i128::MIN,
{
    assert(abs1(s) <= n * MAX_COORD as int);
    vstd::arithmetic::div_mod::lemma_multiply_divide_le(abs1(s), n, MAX_COORD as int);
}

impl Polyhedron {
    /// The vertex centroid, each coordinate's quotient truncated.
    fn centroid(vertices: &Vec<Vector3d>) -> (r: Vector3d)
        requires
            forall|i: int|
                0 <= i < vertices@.len() ==> (#[trigger] vertices@[i]).bounded(MAX_COORD as int),
        ensures
            r == centroid_spec(vertices@),
            r.bounded(MAX_COORD as int),
    {
        let n = vertices.len();
        if n == 0 {
            return Vector3d { x: 0, y: 0, z: 0 };
        }
        let mut sx: i128 = 0;
        let mut sy: i128 = 0;
        let mut sz: i128 = 0;
        let mut i: usize = 0;
        while i < n
            invariant
                i <= n,
                n == vertices@.len(),
                forall|k: int|
                    0 <= k < vertices@.len() ==> (#[trigger] vertices@[k]).bounded(
                    MAX_COORD as int),
                sx == sum_coord(vertices@, i as int, 0),
                sy == sum_coord(vertices@, i as int, 1),
                sz == sum_coord(vertices@, i as int, 2),
                in_range(sx as int, i as int * MAX_COORD as int),
                in_range(sy as int, i as int * MAX_COORD as int),
                in_range(sz as int, i as int * MAX_COORD as int),
            decreases n - i,
        {
            let v = vertices[i];
            sx = sx + (v.x as i128);
            sy = sy + (v.y as i128);
            sz = sz + (v.z as i128);
            i = i + 1;
        }
        proof {
            lemma_centroid_coord_bound(sx as int, n as int);
            lemma_centroid_coord_bound(sy as int, n as int);
            lemma_centroid_coord_bound(sz as int, n as int);
        }
        let cx = tdiv_i128(sx, n as i128);
        let cy = tdiv_i128(sy, n as i128);
        let cz = tdiv_i128(sz, n as i128);
        Vector3d { x: cx as i64, y: cy as i64, z: cz as i64 }
    }

    /// A polyhedron from vertex positions, edge endpoint pairs with
    /// their cached directions, and face vertex loops. Directions are
    /// refreshed from the vertices; a zero-length or out-of-range edge
    /// and any loop that makes no face are rejected.
    #[verifier::rlimit(100)]
    #[verifier::spinoff_prover]
    #[verifier::loop_isolation(false)]
    pub fn new(face_vertex_indices: Vec<Vec<usize>>, edges: Vec<Edge>, vertices: Vec<Vector3d>)
        -> (r: Result<Self, String>)
        requires
            forall|i: int|
                0 <= i < vertices@.len() ==> (#[trigger] vertices@[i]).bounded(MAX_COORD as int),
        ensures
            r is Ok ==> ({
                let p = r->Ok_0;
                &&& construction_ok(face_vertex_indices@, edges@, vertices@)
                &&& p.wf()
                &&& p.vertices_spec() == vertices@
                &&& p.edges_spec().len() == edges@.len()
                &&& forall|i: int|
                    0 <= i < edges@.len() ==> {
                        let e = #[trigger] p.edges_spec()[i];
                        &&& e.start_spec() == edges@[i].start_spec()
                        &&& e.end_spec() == edges@[i].end_spec()
                        &&& e.direction_spec() == dir_spec(edges@[i].delta(vertices@))
                    }
                &&& p.faces_spec().len() == face_vertex_indices@.len()
                &&& forall|i: int|
                    0 <= i < face_vertex_indices@.len() ==> #[trigger] built_face_ok(
                        p.faces_spec()[i],
                        face_vertex_indices@[i]@,
                        p.edges_spec(),
                        vertices@,
                    )
            }),
            r is Err ==> ((exists|i: int|
                0 <= i < edges@.len() && !(#[trigger] edges@[i]).structure_ok(vertices@))
                || (exists|i: int|
                0 <= i < face_vertex_indices@.len() && !face_ok_fresh(
                    (#[trigger] face_vertex_indices@[i])@,
                    edges@,
                    vertices@,
                ))),
    {
        let ghost edges0 = edges@;
        let ghost fvi0 = face_vertex_indices@;
        let mut edges = edges;
        let nv = vertices.len();
        let ne = edges.len();
        let mut i: usize = 0;
        while i < ne
            invariant
                i <= ne,
                ne == edges@.len(),
                nv == vertices@.len(),
                edges@.len() == edges0.len(),
                forall|k: int|
                    0 <= k < vertices@.len() ==> (#[trigger] vertices@[k]).bounded(
                    MAX_COORD as int),
                forall|k: int| i <= k < ne ==> #[trigger] edges@[k] == edges0[k],
                forall|k: int|
                    0 <= k < i ==> {
                        let e = #[trigger] edges@[k];
                        &&& e.start_spec() == edges0[k].start_spec()
                        &&& e.end_spec() == edges0[k].end_spec()
                        &&& edges0[k].structure_ok(vertices@)
                        &&& e.direction_spec() == dir_spec(edges0[k].delta(vertices@))
                        &&& e.current(vertices@)
                    },
            decreases ne - i,
        {
            let e = edges[i];
            proof {
                assert(e == edges0[i as int]);
            }
            if e.start_index >= nv || e.end_index >= nv {
                proof {
                    assert(0 <= i < edges0.len() && !edges0[i as int].structure_ok(vertices@));
                }
                return Err(String::from_str("Edge with vertex index out of range."));
            }
            let delta = vertices[e.end_index].sub(&vertices[e.start_index]);
            proof {
                assert(delta == edges0[i as int].delta(vertices@));
            }
            match delta.dir() {
                Some(d) => {
                    let ghost edges_prev = edges@;
                    edges[i] = Edge { direction: d, ..e };
                    proof {
                        assert forall|k: int| 0 <= k < ne && k != i as int implies
                            #[trigger] edges@[k] == edges_prev[k] by {
                        }
                        let en = edges@[i as int];
                        assert(en.start_spec() == edges0[i as int].start_spec());
                        assert(en.end_spec() == edges0[i as int].end_spec());
                        assert(en.delta(vertices@) == edges0[i as int].delta(vertices@));
                        assert(edges0[i as int].structure_ok(vertices@));
                        assert(en.structure_ok(vertices@));
                        assert(en.direction_spec() == dir_spec(en.delta(vertices@)));
                        assert(en.current(vertices@));
                    }
                },
                Option::None => {
                    proof {
                        assert(0 <= i < edges0.len() && !edges0[i as int].structure_ok(
                            vertices@,
                        ));
                    }
                    return Err(String::from_str("Edge with coincident endpoints."));
                },
            }
            i = i + 1;
        }
        let inside = Self::centroid(&vertices);
        let mut faces: Vec<Face> = Vec::new();
        let mut rest = face_vertex_indices;
        while rest.len() > 0
            invariant
                nv == vertices@.len(),
                ne == edges@.len(),
                edges0.len() == ne,
                fvi0.len() == faces@.len() + rest@.len(),
                rest@ == fvi0.subrange(faces@.len() as int, fvi0.len() as int),
                inside == centroid_spec(vertices@),
                inside.bounded(MAX_COORD as int),
                forall|k: int|
                    0 <= k < vertices@.len() ==> (#[trigger] vertices@[k]).bounded(
                    MAX_COORD as int),
                forall|k: int|
                    0 <= k < ne ==> {
                        let e = #[trigger] edges@[k];
                        &&& e.start_spec() == edges0[k].start_spec()
                        &&& e.end_spec() == edges0[k].end_spec()
                        &&& edges0[k].structure_ok(vertices@)
                        &&& e.direction_spec() == dir_spec(edges0[k].delta(vertices@))
                        &&& e.current(vertices@)
                    },
                forall|k: int|
                    0 <= k < faces@.len() ==> #[trigger] built_face_ok(
                        faces@[k],
                        fvi0[k]@,
                        edges@,
                        vertices@,
                    ),
            decreases rest@.len(),
        {
            let ghost j = faces@.len() as int;
            let ghost faces_prev = faces@;
            let vi = rest.remove(0);
            proof {
                assert(vi == fvi0[j]);
                assert(rest@ =~= fvi0.subrange(j + 1int, fvi0.len() as int));
            }
            let f = match Face::new(vi, &vertices, &inside, &edges) {
                Ok(f) => f,
                Err(message) => {
                    proof {
                        lemma_face_ok_equiv(fvi0[j]@, edges0, edges@, vertices@);
                        assert(0 <= j < fvi0.len() && !face_ok_fresh(
                            fvi0[j]@,
                            edges0,
                            vertices@,
                        ));
                    }
                    return Err(message);
                },
            };
            faces.push(f);
            proof {
                assert(faces@ == faces_prev.push(f));
                assert(built_face_ok(f, fvi0[j]@, edges@, vertices@));
                assert forall|k: int| 0 <= k < faces@.len() implies #[trigger] built_face_ok(
                    faces@[k],
                    fvi0[k]@,
                    edges@,
                    vertices@,
                ) by {
                    if k == j {
                        assert(faces@[k] == f);
                    } else {
                        assert(faces@[k] == faces_prev[k]);
                        assert(built_face_ok(faces_prev[k], fvi0[k]@, edges@, vertices@));
                    }
                }
                assert(rest@ == fvi0.subrange(faces@.len() as int, fvi0.len() as int));
            }
        }
        let p = Polyhedron { faces, edges, vertices };
        proof {
            assert forall|k: int| 0 <= k < ne implies (#[trigger] edges0[k]).structure_ok(
                p.vertices@,
            ) by {
                let e = p.edges@[k];
                assert(e.current(p.vertices@));
            }
            assert forall|k: int| 0 <= k < fvi0.len() implies face_ok_fresh(
                (#[trigger] fvi0[k])@,
                edges0,
                p.vertices@,
            ) by {
                assert(built_face_ok(p.faces@[k], fvi0[k]@, p.edges@, p.vertices@));
                lemma_face_ok_equiv(fvi0[k]@, edges0, p.edges@, p.vertices@);
            }
            assert forall|k: int| 0 <= k < p.faces@.len() implies mag_sq_spec(
                p.face_fresh_cross(#[trigger] p.faces@[k]),
            ) > 0 by {
                let f = p.faces@[k];
                assert(built_face_ok(f, fvi0[k]@, p.edges@, p.vertices@));
                let b0 = f.edge_indices_spec()[0] as int;
                let b1 = f.edge_indices_spec()[1] as int;
                lemma_list_elems(fvi0[k]@, p.edges@, ne as int);
                assert(p.edges@[b0].direction_spec() == dir_spec(p.edges@[b0].delta(p.vertices@)));
                assert(p.edges@[b1].direction_spec() == dir_spec(p.edges@[b1].delta(p.vertices@)));
                assert(p.face_fresh_cross(f) == f.raw_cross(p.edges@));
            }
            assert forall|k: int| 0 <= k < p.faces_spec().len() implies #[trigger] built_face_ok(
                p.faces_spec()[k],
                fvi0[k]@,
                p.edges_spec(),
                p.vertices@,
            ) by {
                assert(built_face_ok(p.faces@[k], fvi0[k]@, p.edges@, p.vertices@));
            }
            assert forall|k: int| 0 <= k < p.vertices_spec().len() implies (
            #[trigger] p.vertices_spec()[k]).bounded(MAX_COORD as int) by {
                assert(vertices@[k].bounded(MAX_COORD as int));
            }
            assert forall|k: int| 0 <= k < p.edges_spec().len() implies (
            #[trigger] p.edges_spec()[k]).current(p.vertices_spec())
                && p.edges_spec()[k].structure_ok(p.vertices_spec()) by {
                assert(p.edges@[k].current(p.vertices@));
            }
            assert forall|k: int| 0 <= k < p.faces_spec().len() implies (
            #[trigger] p.faces_spec()[k]).structure_ok(
                p.vertices_spec().len() as int,
                p.edges_spec().len() as int,
            ) && p.faces_spec()[k].current(p.edges_spec()) by {
                assert(built_face_ok(p.faces@[k], fvi0[k]@, p.edges@, p.vertices@));
            }
            assert forall|k: int| 0 <= k < p.faces_spec().len() implies mag_sq_spec(
                p.face_fresh_cross(#[trigger] p.faces_spec()[k]),
            ) > 0 by {
                assert(mag_sq_spec(p.face_fresh_cross(p.faces@[k])) > 0);
            }
        }
        Ok(p)
    }
}



/// The eight corner positions of an axis-aligned cuboid with the given
/// half-extents, in the standard order.
pub open spec fn cuboid_vertices(hx: int, hy: int, hz: int) -> Seq<Vector3d> {
    seq![
        vec3(-hx, -hy, -hz),
        vec3(hx, -hy, -hz),
        vec3(hx, hy, -hz),
        vec3(-hx, hy, -hz),
        vec3(-hx, -hy, hz),
        vec3(hx, -hy, hz),
        vec3(hx, hy, hz),
        vec3(-hx, hy, hz),
    ]
}

/// Start vertices of the twelve cuboid edges, in the standard order.
pub open spec fn cuboid_edge_starts() -> Seq<usize> {
    seq![0usize, 1, 2, 3, 0, 1, 2, 3, 4, 5, 6, 7]
}

/// End vertices of the twelve cuboid edges, in the standard order.
pub open spec fn cuboid_edge_ends() -> Seq<usize> {
    seq![1usize, 2, 3, 0, 4, 5, 6, 7, 5, 6, 7, 4]
}

/// The vertex loops of the six cuboid faces, in the standard order.
pub open spec fn cuboid_face_loops() -> Seq<Seq<usize>> {
    seq![
        seq![0usize, 3, 4, 7],
        seq![1usize, 2, 5, 6],
        seq![0usize, 1, 4, 5],
        seq![2usize, 3, 6, 7],
        seq![0usize, 1, 2, 3],
        seq![4usize, 5, 6, 7],
    ]
}

impl Polyhedron {
    /// An axis-aligned cuboid: half of each dimension on either side of
    /// the origin, with the standard eight corners, twelve edges and
    /// six faces. Construction succeeds whenever every dimension is at
    /// least two units; below that, halving leaves a flat, degenerate
    /// box that construction rejects.
    pub fn cuboid(dimensions: &Vector3d) -> (r: Result<Self, String>)
        requires
            0 <= dimensions.x <= MAX_COORD,
            0 <= dimensions.y <= MAX_COORD,
            0 <= dimensions.z <= MAX_COORD,
        ensures
            dimensions.x >= 2 && dimensions.y >= 2 && dimensions.z >= 2 ==> r is Ok,
            r is Ok ==> ({
                let p = r->Ok_0;
                &&& p.wf()
                &&& p.vertices_spec() == cuboid_vertices(
                    dimensions.x as int / 2,
                    dimensions.y as int / 2,
                    dimensions.z as int / 2,
                )
                &&& p.edges_spec().len() == 12
                &&& forall|k: int|
                    0 <= k < 12 ==> (#[trigger] p.edges_spec()[k]).start_spec()
                        == cuboid_edge_starts()[k] && p.edges_spec()[k].end_spec()
                        == cuboid_edge_ends()[k]
                &&& p.faces_spec().len() == 6
                &&& forall|k: int|
                    0 <= k < 6 ==> (#[trigger] p.faces_spec()[k]).vertex_indices_spec()
                        == cuboid_face_loops()[k]
            }),
    {
        let hx = ((dimensions.x as u64) / 2) as i64;
        let hy = ((dimensions.y as u64) / 2) as i64;
        let hz = ((dimensions.z as u64) / 2) as i64;
        let mut vertices: Vec<Vector3d> = Vec::new();
        vertices.push(Vector3d { x: -hx, y: -hy, z: -hz });
        vertices.push(Vector3d { x: hx, y: -hy, z: -hz });
        vertices.push(Vector3d { x: hx, y: hy, z: -hz });
        vertices.push(Vector3d { x: -hx, y: hy, z: -hz });
        vertices.push(Vector3d { x: -hx, y: -hy, z: hz });
        vertices.push(Vector3d { x: hx, y: -hy, z: hz });
        vertices.push(Vector3d { x: hx, y: hy, z: hz });
        vertices.push(Vector3d { x: -hx, y: hy, z: hz });
        proof {
            assert(vertices@ =~= cuboid_vertices(
                dimensions.x as int / 2,
                dimensions.y as int / 2,
                dimensions.z as int / 2,
            ));
            assert forall|k: int| 0 <= k < vertices@.len() implies (
            #[trigger] vertices@[k]).bounded(MAX_COORD as int) by {
            }
        }
        let mut edges: Vec<Edge> = Vec::new();
        edges.push(Edge::new(0, 1, &vertices));
        edges.push(Edge::new(1, 2, &vertices));
        edges.push(Edge::new(2, 3, &vertices));
        edges.push(Edge::new(3, 0, &vertices));
        edges.push(Edge::new(0, 4, &vertices));
        edges.push(Edge::new(1, 5, &vertices));
        edges.push(Edge::new(2, 6, &vertices));
        edges.push(Edge::new(3, 7, &vertices));
        edges.push(Edge::new(4, 5, &vertices));
        edges.push(Edge::new(5, 6, &vertices));
        edges.push(Edge::new(6, 7, &vertices));
        edges.push(Edge::new(7, 4, &vertices));
        let mut face_vertex_indices: Vec<Vec<usize>> = Vec::new();
        face_vertex_indices.push(vec![0, 3, 4, 7]);
        face_vertex_indices.push(vec![1, 2, 5, 6]);
        face_vertex_indices.push(vec![0, 1, 4, 5]);
        face_vertex_indices.push(vec![2, 3, 6, 7]);
        face_vertex_indices.push(vec![0, 1, 2, 3]);
        face_vertex_indices.push(vec![4, 5, 6, 7]);
        proof {
            assert forall|k: int| 0 <= k < 12 implies (#[trigger] edges@[k]).start_spec()
                == cuboid_edge_starts()[k] && edges@[k].end_spec() == cuboid_edge_ends()[k] by {
            }
            assert forall|k: int| 0 <= k < 6 implies (#[trigger] face_vertex_indices@[k])@
                == cuboid_face_loops()[k] by {
                assert(face_vertex_indices@[k]@ =~= cuboid_face_loops()[k]);
            }
        }
        let ghost vs0 = vertices@;
        let ghost es0 = edges@;
        let ghost fvi0 = face_vertex_indices@;
        let built = Self::new(face_vertex_indices, edges, vertices);
        match built {
            Ok(p) => {
                proof {
                    assert(p.vertices_spec() == vs0);
                    assert forall|k: int| 0 <= k < 12 implies (
                    #[trigger] p.edges_spec()[k]).start_spec() == cuboid_edge_starts()[k]
                        && p.edges_spec()[k].end_spec() == cuboid_edge_ends()[k] by {
                        assert(p.edges_spec()[k].start_spec() == es0[k].start_spec());
                    }
                    assert forall|k: int| 0 <= k < 6 implies (
                    #[trigger] p.faces_spec()[k]).vertex_indices_spec() == cuboid_face_loops()[
                    k] by {
                        assert(built_face_ok(p.faces_spec()[k], fvi0[k]@, p.edges_spec(), vs0));
                    }
                }
                Ok(p)
            },
            Err(message) => {
                proof {
                    if dimensions.x >= 2 && dimensions.y >= 2 && dimensions.z >= 2 {
                        let hxi = dimensions.x as int / 2;
                        let hyi = dimensions.y as int / 2;
                        let hzi = dimensions.z as int / 2;
                        assert(1 <= hxi <= MAX_COORD as int / 2);
                        assert(1 <= hyi <= MAX_COORD as int / 2);
                        assert(1 <= hzi <= MAX_COORD as int / 2);
                        lemma_cuboid_input_ok(es0, hxi, hyi, hzi);
                        assert(vs0 == cuboid_vertices(hxi, hyi, hzi));
                        if exists|i: int|
                            0 <= i < es0.len() && !(#[trigger] es0[i]).structure_ok(vs0) {
                            let iw = choose|i: int|
                                0 <= i < es0.len() && !(#[trigger] es0[i]).structure_ok(vs0);
                            assert(es0[iw].structure_ok(cuboid_vertices(hxi, hyi, hzi)));
                            assert(false);
                        } else {
                            let kw = choose|k: int|
                                0 <= k < fvi0.len() && !face_ok_fresh(
                                    (#[trigger] fvi0[k])@,
                                    es0,
                                    vs0,
                                );
                            assert(fvi0[kw]@ == cuboid_face_loops()[kw]);
                            assert(face_ok_fresh(cuboid_face_loops()[kw], es0, vs0));
                            assert(false);
                        }
                    }
                }
                Err(message)
            },
        }
    }
}


/// Convexity witness of the enclosing side-planes: whichever way the
/// construction turned the plane, the face's interior reference point
/// never lies strictly in front of it.
pub proof fn lemma_enclosing_dir_faces_outward(
    f: Face,
    k: int,
    vertices: Seq<Vector3d>,
    edges: Seq<Edge>,
)
    requires
        0 <= k < f.edge_indices_spec().len(),
        0 <= f.edge_indices_spec()[k] < edges.len(),
        edges[f.edge_indices_spec()[k] as int].direction_spec().bounded(UNIT as int),
        f.direction_spec().bounded(UNIT as int),
    ensures
        signed_dist_spec(
            face_inner_point(f.vertex_indices_spec(), vertices),
            vertices[edges[f.edge_indices_spec()[k] as int].start_spec()],
            enclosing_dir(f, k, vertices, edges),
        ) <= 0,
{
    let e = edges[f.edge_indices_spec()[k] as int];
    let raw = cross_vec(e.direction_spec(), f.direction_spec());
    let inner = face_inner_point(f.vertex_indices_spec(), vertices);
    let anchor = vertices[e.start_spec()];
    lemma_cross_vec_bound(e.direction_spec(), f.direction_spec(), UNIT as int);
    let d = signed_dist_spec(inner, anchor, raw);
    if d > 0 {
        let nv = neg_vec(raw);
        assert(nv.x == -raw.x && nv.y == -raw.y && nv.z == -raw.z);
        assert(signed_dist_spec(inner, anchor, nv) == -d) by (nonlinear_arith)
            requires
                nv.x == -raw.x && nv.y == -raw.y && nv.z == -raw.z,
                d == raw.x * (inner.x - anchor.x) + raw.y * (inner.y - anchor.y) + raw.z * (
                inner.z - anchor.z),
                signed_dist_spec(inner, anchor, nv) == nv.x * (inner.x - anchor.x) + nv.y * (
                inner.y - anchor.y) + nv.z * (inner.z - anchor.z),
        ;
    }
}


/// The bounding edges of a loop are among its connected edges: an edge
/// sharing two of the face's vertices also shares one.
pub proof fn lemma_bounding_edges_are_connected(vi: Seq<usize>, edges: Seq<Edge>, n: int)
    requires
        0 <= n,
    ensures
        forall|t: int|
            0 <= t < bounding_list(vi, edges, n).len() ==> connected_list(vi, edges, n).contains(
                #[trigger] bounding_list(vi, edges, n)[t],
            ),
    decreases n,
{
    if n > 0 {
        lemma_bounding_edges_are_connected(vi, edges, n - 1);
        let bp = bounding_list(vi, edges, n - 1);
        let cp = connected_list(vi, edges, n - 1);
        let b = bounding_list(vi, edges, n);
        let c = connected_list(vi, edges, n);
        assert forall|t: int| 0 <= t < b.len() implies c.contains(#[trigger] b[t]) by {
            if t < bp.len() {
                assert(cp.contains(bp[t]));
                let w = choose|w: int| 0 <= w < cp.len() && cp[w] == bp[t];
                if shared_count(vi, edges[n - 1], vi.len() as int) >= 1 {
                    assert(c[w] == cp[w]);
                } else {
                    assert(c == cp);
                }
            } else {
                assert(shared_count(vi, edges[n - 1], vi.len() as int) >= 2);
                assert(c[c.len() - 1] == (n - 1) as usize);
                assert(b[t] == (n - 1) as usize);
            }
        }
    }
}


/// The bounding edges of the six standard cuboid loops over the twelve
/// standard edges.
#[verifier::rlimit(100)]
#[verifier::spinoff_prover]
proof fn lemma_cuboid_bounding_lists(edges: Seq<Edge>)
    requires
        edges.len() == 12,
        forall|i: int|
            0 <= i < 12 ==> (#[trigger] edges[i]).start_spec() == cuboid_edge_starts()[i]
                && edges[i].end_spec() == cuboid_edge_ends()[i],
    ensures
        bounding_list(cuboid_face_loops()[0], edges, 12) == seq![3usize, 4, 7, 11],
        bounding_list(cuboid_face_loops()[1], edges, 12) == seq![1usize, 5, 6, 9],
        bounding_list(cuboid_face_loops()[2], edges, 12) == seq![0usize, 4, 5, 8],
        bounding_list(cuboid_face_loops()[3], edges, 12) == seq![2usize, 6, 7, 10],
        bounding_list(cuboid_face_loops()[4], edges, 12) == seq![0usize, 1, 2, 3],
        bounding_list(cuboid_face_loops()[5], edges, 12) == seq![8usize, 9, 10, 11],
{
    reveal_with_fuel(shared_count, 6);
    reveal_with_fuel(bounding_list, 14);
    assert(bounding_list(seq![0usize, 3, 4, 7], edges, 12) =~= seq![3usize, 4, 7, 11]);
    assert(bounding_list(seq![1usize, 2, 5, 6], edges, 12) =~= seq![1usize, 5, 6, 9]);
    assert(bounding_list(seq![0usize, 1, 4, 5], edges, 12) =~= seq![0usize, 4, 5, 8]);
    assert(bounding_list(seq![2usize, 3, 6, 7], edges, 12) =~= seq![2usize, 6, 7, 10]);
    assert(bounding_list(seq![0usize, 1, 2, 3], edges, 12) =~= seq![0usize, 1, 2, 3]);
    assert(bounding_list(seq![4usize, 5, 6, 7], edges, 12) =~= seq![8usize, 9, 10, 11]);
    assert(cuboid_face_loops()[0] =~= seq![0usize, 3, 4, 7]);
    assert(cuboid_face_loops()[1] =~= seq![1usize, 2, 5, 6]);
    assert(cuboid_face_loops()[2] =~= seq![0usize, 1, 4, 5]);
    assert(cuboid_face_loops()[3] =~= seq![2usize, 3, 6, 7]);
    assert(cuboid_face_loops()[4] =~= seq![0usize, 1, 2, 3]);
    assert(cuboid_face_loops()[5] =~= seq![4usize, 5, 6, 7]);
}


/// The scaled unit of a non-zero scalar over its own magnitude is
/// exactly `±UNIT`, and of zero is zero.
proof fn lemma_scaled_unit_exact(c: int)
    requires
        1 <= abs1(c) <= MAX_COORD,
    ensures
        is_isqrt(c * c, abs1(c)),
        scaled_unit(c, abs1(c)) == if c < 0 {
            -(UNIT as int)
        } else {
            UNIT as int
        },
        scaled_unit(0, abs1(c)) == 0,
{
    assert(is_isqrt(c * c, abs1(c))) by (nonlinear_arith)
        requires
            1 <= abs1(c),
            abs1(c) == if c < 0 { -c } else { c },
    ;
    vstd::arithmetic::div_mod::lemma_div_multiples_vanish(UNIT as int, abs1(c));
    assert(abs1(c) * UNIT == UNIT as int * abs1(c)) by (nonlinear_arith);
    vstd::arithmetic::div_mod::lemma_div_multiples_vanish(0, abs1(c));
}

/// The unit direction of a delta along one axis is that axis scaled by
/// `UNIT`, with the delta's sign.
proof fn lemma_axis_dir(c: int, axis: int)
    requires
        1 <= abs1(c) <= MAX_COORD,
        0 <= axis < 3,
    ensures
        axis == 0 ==> dir_spec(vec3(c, 0, 0)) == vec3(
            if c < 0 { -(UNIT as int) } else { UNIT as int },
            0,
            0,
        ),
        axis == 1 ==> dir_spec(vec3(0, c, 0)) == vec3(
            0,
            if c < 0 { -(UNIT as int) } else { UNIT as int },
            0,
        ),
        axis == 2 ==> dir_spec(vec3(0, 0, c)) == vec3(
            0,
            0,
            if c < 0 { -(UNIT as int) } else { UNIT as int },
        ),
        axis == 0 ==> mag_sq_spec(vec3(c, 0, 0)) == c * c,
        axis == 1 ==> mag_sq_spec(vec3(0, c, 0)) == c * c,
        axis == 2 ==> mag_sq_spec(vec3(0, 0, c)) == c * c,
        c * c >= 1,
{
    lemma_scaled_unit_exact(c);
    assert(c * c >= 1) by (nonlinear_arith)
        requires
            1 <= abs1(c),
            abs1(c) == if c < 0 { -c } else { c },
    ;
    let v = if axis == 0 {
        vec3(c, 0, 0)
    } else if axis == 1 {
        vec3(0, c, 0)
    } else {
        vec3(0, 0, c)
    };
    assert(mag_sq_spec(v) == c * c) by (nonlinear_arith)
        requires
            -MAX_COORD <= c <= MAX_COORD,
            v.x as int * v.x as int + v.y as int * v.y as int + v.z as int * v.z as int
                == mag_sq_spec(v),
            (axis == 0 && v.x == c as i64 && v.y == 0 && v.z == 0) || (axis == 1 && v.x == 0
                && v.y == c as i64 && v.z == 0) || (axis == 2 && v.x == 0 && v.y == 0 && v.z
                == c as i64),
    ;
    lemma_isqrt_eq(c * c, abs1(c));
}


/// A standard cuboid input with positive half-extents builds: every
/// edge joins two distinct corners, and every loop is a face with two
/// non-parallel bounding edges.
#[verifier::rlimit(100)]
#[verifier::spinoff_prover]
proof fn lemma_cuboid_input_ok(edges: Seq<Edge>, hx: int, hy: int, hz: int)
    requires
        1 <= hx <= MAX_COORD / 2,
        1 <= hy <= MAX_COORD / 2,
        1 <= hz <= MAX_COORD / 2,
        edges.len() == 12,
        forall|i: int|
            0 <= i < 12 ==> (#[trigger] edges[i]).start_spec() == cuboid_edge_starts()[i]
                && edges[i].end_spec() == cuboid_edge_ends()[i],
    ensures
        forall|i: int|
            0 <= i < 12 ==> (#[trigger] edges[i]).structure_ok(cuboid_vertices(hx, hy, hz)),
        forall|k: int|
            0 <= k < 6 ==> face_ok_fresh(
                #[trigger] cuboid_face_loops()[k],
                edges,
                cuboid_vertices(hx, hy, hz),
            ),
{
    let vs = cuboid_vertices(hx, hy, hz);
    lemma_axis_dir(2 * hx, 0);
    lemma_axis_dir(-(2 * hx), 0);
    lemma_axis_dir(2 * hy, 1);
    lemma_axis_dir(-(2 * hy), 1);
    lemma_axis_dir(2 * hz, 2);
    let dxp = vec3(2 * hx, 0, 0);
    let dxn = vec3(-(2 * hx), 0, 0);
    let dyp = vec3(0, 2 * hy, 0);
    let dyn_ = vec3(0, -(2 * hy), 0);
    let dzp = vec3(0, 0, 2 * hz);
    assert(edges[0].delta(vs) == dxp);
    assert(edges[1].delta(vs) == dyp);
    assert(edges[2].delta(vs) == dxn);
    assert(edges[3].delta(vs) == dyn_);
    assert(edges[4].delta(vs) == dzp);
    assert(edges[5].delta(vs) == dzp);
    assert(edges[6].delta(vs) == dzp);
    assert(edges[7].delta(vs) == dzp);
    assert(edges[8].delta(vs) == dxp);
    assert(edges[9].delta(vs) == dyp);
    assert(edges[10].delta(vs) == dxn);
    assert(edges[11].delta(vs) == dyn_);
    assert forall|i: int| 0 <= i < 12 implies (#[trigger] edges[i]).structure_ok(vs) by {
        assert(edges[i].start_spec() == cuboid_edge_starts()[i]);
        assert(edges[i].end_spec() == cuboid_edge_ends()[i]);
    }
    lemma_cuboid_bounding_lists(edges);
    let ux = vec3(UNIT as int, 0, 0);
    let uxn = vec3(-(UNIT as int), 0, 0);
    let uy = vec3(0, UNIT as int, 0);
    let uyn = vec3(0, -(UNIT as int), 0);
    let uz = vec3(0, 0, UNIT as int);
    assert(uyn.y * uz.z == -4294967296
        && uyn.z * uz.y == 0
        && uyn.z * uz.x == 0
        && uyn.x * uz.z == 0
        && uyn.x * uz.y == 0
        && uyn.y * uz.x == 0
        && uy.y * uz.z == 4294967296
        && uy.z * uz.y == 0
        && uy.z * uz.x == 0
        && uy.x * uz.z == 0
        && uy.x * uz.y == 0
        && uy.y * uz.x == 0
        && ux.y * uz.z == 0
        && ux.z * uz.y == 0
        && ux.z * uz.x == 0
        && ux.x * uz.z == 4294967296
        && ux.x * uz.y == 0
        && ux.y * uz.x == 0
        && uxn.y * uz.z == 0
        && uxn.z * uz.y == 0
        && uxn.z * uz.x == 0
        && uxn.x * uz.z == -4294967296
        && uxn.x * uz.y == 0
        && uxn.y * uz.x == 0
        && ux.y * uy.z == 0
        && ux.z * uy.y == 0
        && ux.z * uy.x == 0
        && ux.x * uy.z == 0
        && ux.x * uy.y == 4294967296
        && ux.y * uy.x == 0) by (nonlinear_arith)
        requires
            ux.x == 65536i64,
            ux.y == 0i64,
            ux.z == 0i64,
            uxn.x == -65536i64,
            uxn.y == 0i64,
            uxn.z == 0i64,
            uy.x == 0i64,
            uy.y == 65536i64,
            uy.z == 0i64,
            uyn.x == 0i64,
            uyn.y == -65536i64,
            uyn.z == 0i64,
            uz.x == 0i64,
            uz.y == 0i64,
            uz.z == 65536i64,
    ;
    assert(dir_spec(edges[0].delta(vs)) == ux);
    assert(dir_spec(edges[1].delta(vs)) == uy);
    assert(dir_spec(edges[2].delta(vs)) == uxn);
    assert(dir_spec(edges[3].delta(vs)) == uyn);
    assert(dir_spec(edges[4].delta(vs)) == uz);
    assert(dir_spec(edges[5].delta(vs)) == uz);
    assert(dir_spec(edges[6].delta(vs)) == uz);
    assert(dir_spec(edges[8].delta(vs)) == ux);
    assert(dir_spec(edges[9].delta(vs)) == uy);
    assert(face_ok_fresh(cuboid_face_loops()[0], edges, vs)) by {
        let bl = bounding_list(cuboid_face_loops()[0], edges, 12);
        assert(bl[0] == 3usize && bl[1] == 4usize && bl.len() == 4);
        let c = cross_vec(dir_spec(edges[3].delta(vs)), dir_spec(edges[4].delta(vs)));
        assert(c == cross_vec(uyn, uz));
        assert(c.x == -4294967296i64 && c.y == 0i64 && c.z == 0i64);
        assert(mag_sq_spec(c) > 0) by (nonlinear_arith)
            requires
                c.x == -4294967296i64,
                c.y == 0i64,
                c.z == 0i64,
        ;
    }
    assert(face_ok_fresh(cuboid_face_loops()[1], edges, vs)) by {
        let bl = bounding_list(cuboid_face_loops()[1], edges, 12);
        assert(bl[0] == 1usize && bl[1] == 5usize && bl.len() == 4);
        let c = cross_vec(dir_spec(edges[1].delta(vs)), dir_spec(edges[5].delta(vs)));
        assert(c == cross_vec(uy, uz));
        assert(c.x == 4294967296i64 && c.y == 0i64 && c.z == 0i64);
        assert(mag_sq_spec(c) > 0) by (nonlinear_arith)
            requires
                c.x == 4294967296i64,
                c.y == 0i64,
                c.z == 0i64,
        ;
    }
    assert(face_ok_fresh(cuboid_face_loops()[2], edges, vs)) by {
        let bl = bounding_list(cuboid_face_loops()[2], edges, 12);
        assert(bl[0] == 0usize && bl[1] == 4usize && bl.len() == 4);
        let c = cross_vec(dir_spec(edges[0].delta(vs)), dir_spec(edges[4].delta(vs)));
        assert(c == cross_vec(ux, uz));
        assert(c.x == 0i64 && c.y == -4294967296i64 && c.z == 0i64);
        assert(mag_sq_spec(c) > 0) by (nonlinear_arith)
            requires
                c.x == 0i64,
                c.y == -4294967296i64,
                c.z == 0i64,
        ;
    }
    assert(face_ok_fresh(cuboid_face_loops()[3], edges, vs)) by {
        let bl = bounding_list(cuboid_face_loops()[3], edges, 12);
        assert(bl[0] == 2usize && bl[1] == 6usize && bl.len() == 4);
        let c = cross_vec(dir_spec(edges[2].delta(vs)), dir_spec(edges[6].delta(vs)));
        assert(c == cross_vec(uxn, uz));
        assert(c.x == 0i64 && c.y == 4294967296i64 && c.z == 0i64);
        assert(mag_sq_spec(c) > 0) by (nonlinear_arith)
            requires
                c.x == 0i64,
                c.y == 4294967296i64,
                c.z == 0i64,
        ;
    }
    assert(face_ok_fresh(cuboid_face_loops()[4], edges, vs)) by {
        let bl = bounding_list(cuboid_face_loops()[4], edges, 12);
        assert(bl[0] == 0usize && bl[1] == 1usize && bl.len() == 4);
        let c = cross_vec(dir_spec(edges[0].delta(vs)), dir_spec(edges[1].delta(vs)));
        assert(c == cross_vec(ux, uy));
        assert(c.x == 0i64 && c.y == 0i64 && c.z == 4294967296i64);
        assert(mag_sq_spec(c) > 0) by (nonlinear_arith)
            requires
                c.x == 0i64,
                c.y == 0i64,
                c.z == 4294967296i64,
        ;
    }
    assert(face_ok_fresh(cuboid_face_loops()[5], edges, vs)) by {
        let bl = bounding_list(cuboid_face_loops()[5], edges, 12);
        assert(bl[0] == 8usize && bl[1] == 9usize && bl.len() == 4);
        let c = cross_vec(dir_spec(edges[8].delta(vs)), dir_spec(edges[9].delta(vs)));
        assert(c == cross_vec(ux, uy));
        assert(c.x == 0i64 && c.y == 0i64 && c.z == 4294967296i64);
        assert(mag_sq_spec(c) > 0) by (nonlinear_arith)
            requires
                c.x == 0i64,
                c.y == 0i64,
                c.z == 4294967296i64,
        ;
    }

    assert forall|k: int| 0 <= k < 6 implies face_ok_fresh(
        #[trigger] cuboid_face_loops()[k],
        edges,
        vs,
    ) by {
    }
}

} // verus!
