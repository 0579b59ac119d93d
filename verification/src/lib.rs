//! Frame pacing and surface-dependent resource management for an explicit GPU API.
//!
//! The library decides; the caller performs. Every rule of the rendering loop
//! lives here as a verified function: which swapchain parameters to ask for,
//! in which order the surface-dependent objects are created and destroyed,
//! which frame slot may be reused, and when a stale surface forces a rebuild.
//! The caller owns the device and carries out each requested operation,
//! handing the outcome back. What the device reports is taken in as plain
//! values; the handles of its objects are carried through untouched.

pub mod apparatus;
pub mod application;
pub mod buffer;
pub mod builder;
pub mod device;
pub mod frame;
pub mod handles;
pub mod pass;
pub mod staging;
pub mod surface;
