//! Plain values exchanged with the native device SDK.

use vstd::prelude::*;

verus! {

/// Result code of a native call. Zero means success; any other value is a failure code.
#[must_use]
#[derive(Copy, Clone, Debug, PartialEq, Eq, Structural)]
pub struct MLResult(pub i32);

/// Opaque handle to a native object.
#[derive(Copy, Clone, Debug, PartialEq, Eq, Structural)]
pub struct MLHandle(pub u64);

/// Identifier of a coordinate frame known to the perception system.
#[derive(Copy, Clone, Debug, PartialEq, Eq)]
pub struct MLCoordinateFrameUID(pub [u64; 2]);

/// Coordinate frames of the eye tracker that never change while it is alive.
#[derive(Copy, Clone, Debug, PartialEq, Eq)]
pub struct MLEyeTrackingStaticData {
    pub fixation: MLCoordinateFrameUID,
    pub left_center: MLCoordinateFrameUID,
    pub right_center: MLCoordinateFrameUID,
}

/// Surface format code.
#[derive(Copy, Clone, Debug, PartialEq, Eq, Structural)]
pub struct MLSurfaceFormat(pub u32);

/// Options for creating a graphics client.
#[derive(Copy, Clone, Debug, PartialEq, Eq, Structural)]
pub struct MLGraphicsOptions {
    pub color_format: MLSurfaceFormat,
    pub depth_format: MLSurfaceFormat,
    pub graphics_flags: u32,
}

/// Token for a perception snapshot held by the native side.
pub struct MLSnapshot(pub usize);

impl MLResult {
    /// True exactly for the success code.
    pub open spec fn is_ok(self) -> bool {
        self.0 == 0
    }

    /// Turns the code into a `Result`: success for zero, otherwise the code itself as the error.
    pub fn ok(self) -> (r: Result<(), MLResult>)
        ensures
            self.is_ok() ==> r == Ok::<(), MLResult>(()),
            !self.is_ok() ==> r == Err::<(), MLResult>(self),
    {
        if self.0 == 0 {
            Ok(())
        } else {
            Err(self)
        }
    }
}

} // verus!
