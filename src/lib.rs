//! Pine: a small windowed-rendering engine.
//!
//! The library holds the engine's decisions and data: window configuration,
//! the window registry and its event handling, surface negotiation and
//! resizing, the camera, the per-frame data, and the scene graph.
pub mod app;
pub mod error;
pub mod prelude;
pub mod rendering;
pub mod windowing;
