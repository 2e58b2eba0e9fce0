//! The OpenCL backend.

pub mod buffer;
pub mod call;
pub mod device;
pub mod image;
pub mod instance;
pub mod matching;
pub mod profile_event;
pub mod program;
pub mod queue;
pub mod sync_event;
pub mod texture;
