//! What can go wrong in the pipeline.

use vstd::prelude::*;

verus! {

/// Why a body could not be converted between wire formats.
#[derive(Debug)]
pub enum TransformError {
    InvalidInput { reason: String },
    Serialization { reason: String },
}

/// Why a request could not be built or a response not be handed back.
#[derive(Debug)]
pub enum PipelineError {
    /// The plan is served here and never builds a request.
    LocalUnimplemented,
    TransformRequest(TransformError),
    TransformResponse(TransformError),
}

/// What a `TransformError` says.
pub enum TransformFault {
    InvalidInput(Seq<char>),
    Serialization(Seq<char>),
}

/// What a `PipelineError` says.
pub enum PipelineFault {
    LocalUnimplemented,
    TransformRequest(TransformFault),
    TransformResponse(TransformFault),
}

impl View for TransformError {
    type V = TransformFault;

    open spec fn view(&self) -> TransformFault {
        match *self {
            TransformError::InvalidInput { reason } => TransformFault::InvalidInput(reason@),
            TransformError::Serialization { reason } => TransformFault::Serialization(reason@),
        }
    }
}

impl View for PipelineError {
    type V = PipelineFault;

    open spec fn view(&self) -> PipelineFault {
        match *self {
            PipelineError::LocalUnimplemented => PipelineFault::LocalUnimplemented,
            PipelineError::TransformRequest(e) => PipelineFault::TransformRequest(e@),
            PipelineError::TransformResponse(e) => PipelineFault::TransformResponse(e@),
        }
    }
}

} // verus!
