//! Errors that the engine reports to its caller.

use vstd::prelude::*;

verus! {

/// What can go wrong when a window is described or the application is run.
#[derive(Debug, Clone, Copy, PartialEq, Eq, Structural)]
pub enum EngineError {
    /// A width or a height of a two-dimensional object was not greater than zero.
    DimensionError,
    /// The application was asked to run after its event loop had been used up.
    EventLoopElapsed,
}

impl EngineError {
    /// The text of the message, as a sequence of characters.
    pub open spec fn message_text(self) -> Seq<char> {
        match self {
            EngineError::DimensionError => "dimensions for 2D objects must be greater than 0"@,
            EngineError::EventLoopElapsed =>
                "cannot run application, event loop has already elapsed"@,
        }
    }

    /// The message that describes this error to a person.
    pub fn message(&self) -> (text: String)
        ensures
            text@ == self.message_text(),
    {
        match self {
            EngineError::DimensionError => {
                "dimensions for 2D objects must be greater than 0".to_owned()
            },
            EngineError::EventLoopElapsed => {
                "cannot run application, event loop has already elapsed".to_owned()
            },
        }
    }
}

} // verus!

verus! {

/// Why a renderer could not be brought up; each variant names the
/// acquisition step that failed.
#[derive(Debug, Clone, Copy, PartialEq, Eq, Structural)]
pub enum AcquisitionError {
    /// No presentation surface could be bound to the window.
    SurfaceUnavailable,
    /// No adapter is compatible with the surface.
    NoCompatibleAdapter,
    /// The adapter could not provide a device and a queue.
    DeviceUnavailable,
    /// The surface supports no texture format with the adapter.
    NoSurfaceFormat,
    /// The surface supports no presentation mode with the adapter.
    NoPresentMode,
    /// The surface supports no alpha mode with the adapter.
    NoAlphaMode,
    /// The window has no area to present on.
    EmptyWindow,
    /// The shading program did not compile into a pipeline.
    ShaderCompilation,
}

} // verus!
