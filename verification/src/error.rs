use vstd::prelude::*;

verus! {

/// Every way the capture pipeline can fail.
#[derive(Clone, Copy, PartialEq, Eq, Debug, Structural)]
pub enum CaptureError {
    /// The display directory listed no display.
    NoDisplayFound,
    /// The compositor refused to bind the target, or to create the frame pool
    /// or the session on it.
    InteropCreationFailed,
    /// No GPU device could be created.
    DeviceCreationFailed,
    /// A frame's surface could not be resolved to a texture.
    SurfaceUnavailable,
    /// The device context refused to map the staging texture.
    MapFailed,
    /// The session had been started before.
    AlreadyStarted,
    /// The session is not running.
    NotStarted,
}

} // verus!
