//! A cross-platform interface to a subset of GPU compute functionality.
//!
//! One set of handles (instance, device, queue, program, buffer, image,
//! texture, sync event, profile event) stands in front of two native
//! backends, OpenCL and OpenGL compute shaders. A handle is the native data of
//! its resource together with the table of the operations of the backend that
//! created it; every method of a handle forwards to the entry of that table.
//!
//! The crate decides and the embedding program performs. An operation on a
//! handle is a function of the replies that the native driver has given to
//! the operation so far: it answers with the next native call to perform, or
//! with the operation's result once no call is left. The program performs each
//! call, appends the driver's reply and asks again, until the operation is
//! finished. Nothing here reaches the driver by itself, so every operation
//! is defined, and proved, for whatever a driver may reply.
//!
//! - `native` holds the exchange: calls, requests, replies and steps.
//! - `api` holds the two backends and the native calls that they are made of.
//! - The other modules hold the handles, their tables and the vocabulary that
//!   all backends share.

pub mod api;
pub mod backend;
pub mod buffer;
pub mod device;
pub mod error;
pub mod image;
pub mod instance;
pub mod native;
pub mod profile_event;
pub mod program;
pub mod queue;
pub mod sync_event;
pub mod texture;
