//! The engine's error kinds.
use vstd::prelude::*;

verus! {

/// What can go wrong while building windows or rendering to them.
#[derive(Debug, Clone, Copy, PartialEq, Eq, Structural)]
pub enum PineError {
    /// The event loop could not be created or failed while running.
    EventLoopError,
    /// The window system refused to create a window.
    OsError,
    /// No surface could be created for a window.
    CreateSurfaceError,
    /// The adapter could not provide a device and queue.
    RequestDeviceError,
    /// No adapter is compatible with the window's surface.
    RequestAdapterError,
    /// The surface reports no texture format or no alpha mode to render with.
    UnsupportedSurface,
    /// A shader could not be read or compiled.
    ShaderLoadError,
}

} // verus!
