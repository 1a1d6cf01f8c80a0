//! Core of an interactive rigid-body simulator: input reduction, the
//! collision bookkeeping tables, and a fixed-point model of the convex
//! polyhedron geometry that the physics works on.
//!
//! Geometry is carried in integer fixed-point coordinates: positions are
//! plain `i64` coordinates and cached unit directions are scaled by
//! [`math::vector::UNIT`].

pub mod config;
pub mod input;
pub mod math;
pub mod mesh;
pub mod render;
pub mod shell_input;
pub mod simulation;
pub mod utility;
pub mod web_input;

use vstd::prelude::*;

verus! {

/// Identifier of a rigid body, unique within one simulation.
pub type UID = usize;

/// Hands out process-unique body identifiers, one per call.
pub struct UidCounter {
    next: UID,
}

impl UidCounter {
    /// The identifier the next call of `get_new_uid` returns.
    pub closed spec fn next_uid(self) -> int {
        self.next as int
    }

    pub fn new() -> (r: Self)
        ensures
            r.next_uid() == 0,
    {
        UidCounter { next: 0 }
    }

    /// Returns a fresh identifier; every later call returns a larger one.
    pub fn get_new_uid(&mut self) -> (uid: UID)
        requires
            old(self).next_uid() < usize::MAX,
        ensures
            uid == old(self).next_uid(),
            final(self).next_uid() == old(self).next_uid() + 1,
    {
        let uid = self.next;
        self.next = self.next + 1;
        uid
    }
}

} // verus!
