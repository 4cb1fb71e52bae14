//! A minimal GPU command-submission and synchronization engine.
//!
//! The crate validates resource descriptors, builds pipelines and bind
//! groups, records ordered command sequences, and drives the asynchronous
//! host-readback protocol for staging buffers, including the double-buffered
//! ("ping-pong") iteration pattern used for repeated compute passes.
//!
//! Device work itself is performed by `wgpu`; every call into it stands
//! behind a small trusted wrapper, while all sizing, validation, protocol
//! and conversion logic is verified.

pub mod error;
pub mod format;
pub mod desc;
pub mod dispatch;
pub mod protocol;
pub mod pingpong;
pub mod pixels;
pub mod life;
pub mod backend;
pub mod device;
pub mod resources;
pub mod pipeline;
pub mod readback;
pub mod sequence;
pub mod engine;
