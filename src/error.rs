//! Errors of the capture/encode pipeline.
use vstd::prelude::*;

verus! {

/// What went wrong while setting up or running the pipeline.
#[derive(Debug, Clone, Copy, PartialEq, Eq, Structural)]
pub enum PipelineError {
    /// A device could not be opened, or refused the buffers asked of it.
    Device,
    /// A device lacks a capability the pipeline needs.
    Capability,
    /// A device refused the requested format or frame rate.
    Negotiation,
    /// An enqueue or dequeue failed, or a device handed back a buffer that it
    /// did not own.
    Io,
    /// A captured frame does not fit in the encoder's input buffer.
    FrameTooLarge,
}

impl PipelineError {
    /// A short description of the error.
    pub fn message(&self) -> (r: &'static str)
        ensures
            r@ == match self {
                PipelineError::Device => "device error"@,
                PipelineError::Capability => "device lacks a required capability"@,
                PipelineError::Negotiation => "format or frame rate refused"@,
                PipelineError::Io => "buffer queue I/O error"@,
                PipelineError::FrameTooLarge => "frame larger than the encoder input buffer"@,
            },
    {
        match self {
            PipelineError::Device => "device error",
            PipelineError::Capability => "device lacks a required capability",
            PipelineError::Negotiation => "format or frame rate refused",
            PipelineError::Io => "buffer queue I/O error",
            PipelineError::FrameTooLarge => "frame larger than the encoder input buffer",
        }
    }
}

} // verus!
