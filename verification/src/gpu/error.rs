//! Errors and which of them rendering survives.

use vstd::prelude::*;

verus! {

/// Everything that can go wrong between this crate and the device.
///
/// Startup and allocation failures are fatal: the environment cannot render.
/// A failure to acquire the next target image is transient: the frame is
/// dropped, the swap chain is made anew and rendering resumes.
#[derive(Clone, Copy, Debug, PartialEq, Eq, Structural)]
pub enum Error {
    /// No adapter can render to the surface.
    NoAdapter,
    /// The adapter did not hand out a device.
    DeviceRequest,
    /// The shaders or the pipeline were rejected.
    PipelineConstruction,
    /// The device is out of memory.
    OutOfMemory,
    /// The surface was lost.
    SurfaceLost,
    /// The surface changed and the swap chain no longer fits it.
    SurfaceOutdated,
    /// The next image did not arrive in time.
    SurfaceTimeout,
}

impl Error {
    /// Only a failure to acquire the target image can be recovered from.
    pub open spec fn spec_is_recoverable(&self) -> bool {
        *self is SurfaceLost || *self is SurfaceOutdated || *self is SurfaceTimeout
    }

    /// Whether rendering can go on after this error: the frame is skipped
    /// and the swap chain is recreated.
    #[verifier::when_used_as_spec(spec_is_recoverable)]
    pub fn is_recoverable(&self) -> (recoverable: bool)
        ensures
            recoverable == self.is_recoverable(),
    {
        match self {
            Error::SurfaceLost | Error::SurfaceOutdated | Error::SurfaceTimeout => true,
            _ => false,
        }
    }

    /// The diagnostic shown when the error ends the program.
    pub open spec fn spec_message(&self) -> Seq<char> {
        match self {
            Error::NoAdapter => "Failed to get a suitable render adapter"@,
            Error::DeviceRequest => "Failed to create render device"@,
            Error::PipelineConstruction => "Failed to create render pipeline"@,
            Error::OutOfMemory => "Out of device memory"@,
            Error::SurfaceLost => "Surface lost"@,
            Error::SurfaceOutdated => "Surface outdated"@,
            Error::SurfaceTimeout => "Timed out acquiring the next frame"@,
        }
    }

    /// The diagnostic shown when the error ends the program.
    pub fn message(&self) -> (text: &'static str)
        ensures
            text@ == self.spec_message(),
    {
        match self {
            Error::NoAdapter => "Failed to get a suitable render adapter",
            Error::DeviceRequest => "Failed to create render device",
            Error::PipelineConstruction => "Failed to create render pipeline",
            Error::OutOfMemory => "Out of device memory",
            Error::SurfaceLost => "Surface lost",
            Error::SurfaceOutdated => "Surface outdated",
            Error::SurfaceTimeout => "Timed out acquiring the next frame",
        }
    }
}

} // verus!
