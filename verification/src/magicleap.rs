//! The native backend: the plain values it exchanges with the device SDK, the
//! data it reports, and the decisions of its heartbeat. The calls into the SDK
//! belong to the caller, who hands their results in.

pub mod c_api;
pub mod display;
pub mod gamepad;
pub mod heartbeat;
pub mod service;
