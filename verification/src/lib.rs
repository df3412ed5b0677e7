//! A uniform virtual-reality display abstraction: the value types that describe
//! a headset and one frame of tracking data, a simulated backend, the decisions
//! of the native backend and of the stereo render loop, the registry of
//! backends, the planes that a gaze ray is cast at, and the single-slot mailbox
//! through which the tracking side hands frames to the graphics side.
//!
//! Real numbers never enter this crate as numbers. Every matrix element, angle
//! and distance is carried as the bit pattern of its IEEE-754 encoding, so that
//! values pass through unchanged and equality means bit-identity.

pub mod exchange;
pub mod geometry;
pub mod magicleap;
pub mod manager;
pub mod mock;
pub mod model;
pub mod render;
pub mod utils;
pub mod wire;
