//! The one error type that the library's operations return.
use crate::device::DeviceCreationError;
use crate::driver::{DriverCall, ERROR_OUT_OF_DATE};
use crate::pipeline::graphics_pipeline::PipelineCrationError;
use crate::resources::buffer::BufferCreationError;
use crate::resources::image::ImageCreationError;
use vstd::prelude::*;

verus! {

/// Why an operation failed.
#[derive(Debug, Copy, Clone, PartialEq, Eq, Structural)]
pub enum Error {
    /// The driver answered a call with this result code.
    Driver { code: i32 },
    /// No device could be chosen.
    DeviceCreation(DeviceCreationError),
    /// An image could not be made.
    ImageCreation(ImageCreationError),
    /// A buffer could not be made.
    BufferCreation(BufferCreationError),
    /// A pipeline could not be made.
    PipelineCreation(PipelineCrationError),
    /// The driver answered with a number of objects other than the one asked
    /// for.
    UnexpectedCount,
    /// The presentation engine named an image that the swapchain does not
    /// have, or one that is still held.
    ImageNotAvailable { index: u32 },
    /// The surface offers no format.
    NoSurfaceFormat,
    /// The bytes are no SPIR-V module.
    InvalidShaderCode,
}

/// A failure in the middle of making something of several driver objects:
/// why it failed, and the calls that release what was made before it, in
/// order.
#[derive(Debug, PartialEq, Eq)]
pub struct Failure {
    pub error: Error,
    pub release: Vec<DriverCall>,
}

impl Error {
    /// Whether the error is the one that a resize recovers from: the
    /// swapchain no longer matches its surface.
    pub open spec fn spec_is_out_of_date(self) -> bool {
        self == (Error::Driver { code: ERROR_OUT_OF_DATE })
    }

    /// Whether the error is the one that a resize recovers from. Every other
    /// error ends the session.
    #[verifier::when_used_as_spec(spec_is_out_of_date)]
    pub fn is_out_of_date(self) -> (b: bool)
        ensures
            b == self.spec_is_out_of_date(),
    {
        match self {
            Error::Driver { code } => code == ERROR_OUT_OF_DATE,
            _ => false,
        }
    }
}

} // verus!
