//! Frame-pacing bookkeeping. The sleeping itself needs the host clock and
//! stays with the driver; the library fixes the frame length.

use vstd::prelude::*;

verus! {

/// One second in microseconds.
pub const MICROS_PER_SECOND: u64 = 1000000;

/// The frame length a paced driver sleeps to.
pub struct FPSManager {
    pub frame_duration_micros: u64,
}

impl FPSManager {
    /// The frame length, in microseconds, of a whole-number frame rate.
    pub fn new(fps: u64) -> (r: Self)
        requires
            0 < fps,
        ensures
            r.frame_duration_micros == MICROS_PER_SECOND as int / fps as int,
    {
        FPSManager { frame_duration_micros: MICROS_PER_SECOND / fps }
    }
}

} // verus!
