//! Camera control modes. The mover itself works in floating point and
//! lives with the host shell; the library holds the mode switch it is
//! driven by.

use vstd::prelude::*;

verus! {

/// How intent moves the camera: orbit around a center point, or
/// first-person flight.
#[derive(Clone, Copy, PartialEq, Eq, Structural, Debug)]
pub enum CameraMode {
    Rel,
    Fps,
}

} // verus!
