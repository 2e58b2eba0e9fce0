//! The backends, and the native calls that they are made of.

pub mod cl;
pub mod gl;
pub mod surface;
