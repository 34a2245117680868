//! Surface and device lifecycle, and frame-loop coordination, for a small
//! real-time rendering engine.
//!
//! The crate holds the decisions of the engine: which window dimensions are
//! accepted, how a surface configuration is negotiated and kept in step with
//! the window, how a frame is recorded, and how the event loop reacts to
//! window events and to presentation failures. The caller owns the operating
//! system window and the GPU objects, performs the actions that the
//! functions here hand out, and reports back what happened.

pub mod application;
pub mod error;
pub mod renderer;
pub mod window;
