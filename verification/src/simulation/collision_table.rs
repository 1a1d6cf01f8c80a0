//! The lower-triangular table of pairwise collision state: per-axis
//! bounding-box overlap bits, the cached separating-plane witness, the
//! colliding latch and the contact list of each unordered body pair.

use vstd::prelude::*;
use crate::math::vector::Vector3d;

verus! {

/// A face witness: a face of one body whose supporting plane keeps the
/// whole other body outside.
#[derive(Clone, Copy, PartialEq, Eq, Structural, Debug)]
pub struct FaceIndices {
    pub face_rigid_body: usize,
    pub face: usize,
    pub face_position: usize,
    pub other_rigid_body: usize,
}

/// An edge witness: a plane spanned by one edge of each body.
#[derive(Clone, Copy, PartialEq, Eq, Structural, Debug)]
pub struct EdgeIndices {
    pub plane_rigid_body: usize,
    pub plane_edge: usize,
    pub plane_position: usize,
    pub other_rigid_body: usize,
    pub other_edge: usize,
}

/// The cached witness that two bodies were last seen separated by, if
/// any.
#[derive(Clone, Copy, PartialEq, Eq, Structural, Debug)]
pub enum SeparatingPlane {
    Face { face_indices: FaceIndices },
    Edge { edge_indices: EdgeIndices },
    NoWitness,
}

/// A vertex of one body resting on a face of the other.
#[derive(Clone, Copy, PartialEq, Eq, Structural, Debug)]
pub struct VertexFaceIndices {
    pub vertex_rigid_body: usize,
    pub vertex: usize,
    pub face_rigid_body: usize,
    pub face: usize,
}

/// An edge of one body crossing an edge of the other, with the contact
/// position and the contact normal direction.
#[derive(Clone, Copy, PartialEq, Eq, Structural, Debug)]
pub struct EdgeEdgeIndices {
    pub plane_rigid_body: usize,
    pub plane_edge: usize,
    pub other_rigid_body: usize,
    pub other_edge: usize,
    pub contact_position: Vector3d,
    pub plane_direction: Vector3d,
}

/// One contact between two bodies.
#[derive(Clone, Copy, PartialEq, Eq, Structural, Debug)]
pub enum Contact {
    VertexFace { vertex_face_indices: VertexFaceIndices },
    EdgeEdge { edge_edge_indices: EdgeEdgeIndices },
}

/// The contacts of one pair, valid while its `colliding` latch holds.
pub type Contacts = Vec<Contact>;

/// Collision state of one unordered body pair.
#[derive(Clone)]
pub struct CollisionStatus {
    pub bounding_box: [bool; 3],
    pub separating_plane: SeparatingPlane,
    pub colliding: bool,
    pub contacts: Contacts,
}

impl CollisionStatus {
    /// The state a regenerated table starts every pair in: no overlap
    /// bits, no witness, not colliding, no contacts.
    pub open spec fn fresh(s: CollisionStatus) -> bool {
        &&& s.bounding_box@ == seq![false, false, false]
        &&& s.separating_plane == SeparatingPlane::NoWitness
        &&& !s.colliding
        &&& s.contacts@.len() == 0
    }

    /// `s` with its colliding latch dropped and everything else kept.
    pub open spec fn cleared(s: CollisionStatus, pre: CollisionStatus) -> bool {
        &&& s.bounding_box@ == pre.bounding_box@
        &&& s.separating_plane == pre.separating_plane
        &&& !s.colliding
        &&& s.contacts@ == pre.contacts@
    }

    fn new() -> (r: Self)
        ensures
            CollisionStatus::fresh(r),
    {
        let r = CollisionStatus {
            bounding_box: [false, false, false],
            separating_plane: SeparatingPlane::NoWitness,
            colliding: false,
            contacts: Vec::new(),
        };
        proof {
            assert(r.bounding_box@ =~= seq![false, false, false]);
        }
        r
    }

    /// Whether the pair's bounding boxes overlap on all three axes.
    pub fn bounding_box_collision(&self) -> (r: bool)
        ensures
            r == (self.bounding_box@[0] && self.bounding_box@[1] && self.bounding_box@[2]),
    {
        self.bounding_box[0] && self.bounding_box[1] && self.bounding_box[2]
    }
}

/// The lower-triangular table over unordered body pairs: row `i` holds
/// the pairs `(i, j)` with `j ≤ i`.
pub struct CollisionTable {
    data: Vec<Vec<CollisionStatus>>,
}

impl CollisionTable {
    /// How many bodies the table covers.
    pub closed spec fn num_bodies(self) -> int {
        self.data@.len() as int
    }

    /// Whether row `i` holds exactly the pairs `(i, 0) … (i, i)`.
    pub closed spec fn wf(self) -> bool {
        forall|i: int|
            0 <= i < self.data@.len() ==> (#[trigger] self.data@[i])@.len() == i + 1
    }

    /// The state of the unordered pair `{i, j}`.
    pub closed spec fn status(self, i: int, j: int) -> CollisionStatus {
        if i >= j {
            self.data@[i]@[j]
        } else {
            self.data@[j]@[i]
        }
    }

    /// The pair is unordered: both index orders name the same state.
    pub proof fn lemma_status_symmetric(self, i: int, j: int)
        ensures
            self.status(i, j) == self.status(j, i),
    {
    }

    /// The empty table.
    pub fn new() -> (r: Self)
        ensures
            r.num_bodies() == 0,
            r.wf(),
    {
        CollisionTable { data: Vec::new() }
    }

    /// How many bodies the table covers.
    pub fn len(&self) -> (r: usize)
        ensures
            r == self.num_bodies(),
    {
        self.data.len()
    }

    /// Rebuilds the table for `n` bodies, every pair fresh.
    pub fn generate(&mut self, n: usize)
        ensures
            final(self).num_bodies() == n,
            final(self).wf(),
            forall|i: int, j: int|
                0 <= j <= i < n ==> CollisionStatus::fresh(#[trigger] final(self).status(i, j)),
    {
        self.data.clear();
        let mut i: usize = 0;
        while i < n
            invariant
                i <= n,
                self.data@.len() == i,
                forall|k: int|
                    0 <= k < i ==> (#[trigger] self.data@[k])@.len() == k + 1,
                forall|k: int, l: int|
                    0 <= l <= k < i ==> CollisionStatus::fresh(#[trigger] self.data@[k]@[l]),
            decreases n - i,
        {
            let mut row: Vec<CollisionStatus> = Vec::new();
            let mut j: usize = 0;
            while j < i + 1
                invariant
                    j <= i + 1,
                    i < n,
                    row@.len() == j,
                    forall|l: int| 0 <= l < j ==> CollisionStatus::fresh(#[trigger] row@[l]),
                decreases i + 1 - j,
            {
                row.push(CollisionStatus::new());
                j = j + 1;
            }
            self.data.push(row);
            i = i + 1;
        }
    }

    /// Drops every pair's colliding latch; everything else is kept.
    pub fn reset_colliding(&mut self)
        requires
            old(self).wf(),
        ensures
            final(self).num_bodies() == old(self).num_bodies(),
            final(self).wf(),
            forall|i: int, j: int|
                0 <= j < i < old(self).num_bodies() ==> CollisionStatus::cleared(
                    #[trigger] final(self).status(i, j),
                    old(self).status(i, j),
                ),
            forall|i: int|
                0 <= i < old(self).num_bodies() ==> #[trigger] final(self).status(i, i)
                    == old(self).status(i, i),
    {
        let n = self.data.len();
        let mut i: usize = 1;
        while i < n
            invariant
                1 <= i <= n || (n == 0 && i == 1),
                n == old(self).data@.len(),
                self.data@.len() == n,
                forall|k: int|
                    0 <= k < n ==> (#[trigger] self.data@[k])@.len()
                        == old(self).data@[k]@.len(),
                old(self).wf(),
                forall|k: int, l: int|
                    0 <= l <= k < n && (k >= i || l == k) ==> #[trigger] self.data@[k]@[l]
                        == old(self).data@[k]@[l],
                forall|k: int, l: int|
                    0 <= l < k < i && k < n ==> CollisionStatus::cleared(
                        #[trigger] self.data@[k]@[l],
                        old(self).data@[k]@[l],
                    ),
            decreases n - i,
        {
            let mut j: usize = 0;
            while j < i
                invariant
                    j <= i,
                    1 <= i < n,
                    n == old(self).data@.len(),
                    self.data@.len() == n,
                    forall|k: int|
                        0 <= k < n ==> (#[trigger] self.data@[k])@.len()
                            == old(self).data@[k]@.len(),
                    old(self).wf(),
                    forall|k: int, l: int|
                        0 <= l <= k < n && (k > i || (k == i && l >= j) || l == k)
                            ==> #[trigger] self.data@[k]@[l] == old(self).data@[k]@[l],
                    forall|k: int, l: int|
                        0 <= l < k < n && (k < i || (k == i && l < j)) ==> CollisionStatus::cleared(
                            #[trigger] self.data@[k]@[l],
                            old(self).data@[k]@[l],
                        ),
                decreases i - j,
            {
                self.data[i][j].colliding = false;
                j = j + 1;
            }
            i = i + 1;
        }
    }

    /// The state of the unordered pair `{i, j}`: both index orders
    /// return the same entry.
    pub fn get(&self, i: usize, j: usize) -> (r: &CollisionStatus)
        requires
            self.wf(),
            i < self.num_bodies(),
            j < self.num_bodies(),
        ensures
            *r == self.status(i as int, j as int),
            *r == self.status(j as int, i as int),
    {
        if i < j {
            &self.data[j][i]
        } else {
            &self.data[i][j]
        }
    }

    /// The state of the unordered pair `{i, j}`, writable; both index
    /// orders name the same entry, and every other pair keeps its state.
    pub fn get_mut(&mut self, i: usize, j: usize) -> (r: &mut CollisionStatus)
        requires
            old(self).wf(),
            i < old(self).num_bodies(),
            j < old(self).num_bodies(),
        ensures
            *r == old(self).status(i as int, j as int),
            final(self).wf(),
            final(self).num_bodies() == old(self).num_bodies(),
            final(self).status(i as int, j as int) == *final(r),
            final(self).status(j as int, i as int) == *final(r),
            forall|k: int, l: int|
                0 <= k < old(self).num_bodies() && 0 <= l < old(self).num_bodies()
                    && !(k == vstd::math::max(i as int, j as int) && l == vstd::math::min(
                    i as int,
                    j as int,
                )) && !(l == vstd::math::max(i as int, j as int) && k == vstd::math::min(
                    i as int,
                    j as int,
                )) ==> #[trigger] final(self).status(k, l) == old(self).status(k, l),
    {
        let (hi, lo) = if i < j {
            (j, i)
        } else {
            (i, j)
        };
        &mut self.data[hi][lo]
    }
}

} // verus!
