//! The bounding-cage record: the cage's own render identifier, the
//! stored extent pair and the identifiers of its six wall bodies. The
//! wall construction and the containment clamp work on floating-point
//! bodies and run in the host driver.

use vstd::prelude::*;
use crate::math::vector::Vector3d;
use crate::UID;

verus! {

/// The extent pair and wall identifiers of an active cage.
pub struct BoundingBoxInner {
    pub dimensions: [Vector3d; 2],
    pub rigid_body_uids: Vec<UID>,
}

/// The optional world bounding cage, addressed by its own identifier.
pub struct BoundingBox {
    pub uid: UID,
    pub inner_opt: Option<BoundingBoxInner>,
}

impl BoundingBox {
    /// A cage record with no walls yet.
    pub fn new(uid: UID) -> (r: Self)
        ensures
            r.uid == uid,
            r.inner_opt is None,
    {
        BoundingBox { uid, inner_opt: None }
    }
}

} // verus!
