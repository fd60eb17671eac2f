//! Host-side bookkeeping for a small GPU resource layer: typed data buffers,
//! shader programs with a uniform-location cache, compute dispatch and vertex
//! layouts.
//!
//! The layer never calls the device. Each operation returns the commands to
//! run, in order, and takes the device's answers as plain values.

pub mod kinds;
pub mod device;
pub mod buffer;
pub mod shader;
pub mod vertex;
pub mod game;
