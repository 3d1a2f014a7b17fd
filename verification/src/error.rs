//! Typed errors of the render core.  Every failure is surfaced to the
//! caller as a value; the verified functions never panic.

use vstd::prelude::*;

verus! {

/// Why a render-core operation failed.
#[derive(Clone, Copy, Debug, PartialEq, Eq, Structural)]
pub enum RenderError {
    /// A requested texture dimension exceeds the device-reported limit;
    /// recoverable by downscaling and retrying.
    ImageTooLarge,
    /// The device rejected a transfer; surfaced, never retried here.
    UploadFailed,
    /// A render or parameter push was attempted before any image was
    /// loaded; a caller logic error.
    NoImageLoaded,
    /// The graphics context could not be constructed; fatal to the
    /// renderer's construction.
    DeviceInitFailed,
}

impl RenderError {
    /// A short description of the failure.
    pub open spec fn message_spec(self) -> Seq<char> {
        match self {
            RenderError::ImageTooLarge => "image exceeds the device texture limit"@,
            RenderError::UploadFailed => "the device rejected the transfer"@,
            RenderError::NoImageLoaded => "no image is loaded"@,
            RenderError::DeviceInitFailed => "the graphics device could not be initialized"@,
        }
    }

    /// A short description of the failure.
    pub fn message(&self) -> (r: &'static str)
        ensures
            r@ == self.message_spec(),
    {
        match self {
            RenderError::ImageTooLarge => "image exceeds the device texture limit",
            RenderError::UploadFailed => "the device rejected the transfer",
            RenderError::NoImageLoaded => "no image is loaded",
            RenderError::DeviceInitFailed => "the graphics device could not be initialized",
        }
    }
}

} // verus!
