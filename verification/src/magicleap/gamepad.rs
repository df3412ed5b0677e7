//! The controller of the native backend.

use vstd::prelude::*;

verus! {

/// A controller of the native device. It carries no data yet.
#[derive(Copy, Clone, Debug, PartialEq, Eq, Structural)]
pub struct MagicLeapVRGamepad {}

} // verus!
