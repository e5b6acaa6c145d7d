//! How a request gets to an upstream and its response back.

use crate::protocol::{OperationKey, OperationKind};
use vstd::prelude::*;

verus! {

/// A conversion from one wire format to another.
#[derive(Clone, Copy, Debug, PartialEq, Eq, Structural)]
pub struct TransformPair {
    pub from: OperationKind,
    pub to: OperationKind,
}

/// The plan for one candidate upstream.
#[allow(inconsistent_fields)]
#[derive(Clone, Copy, Debug, PartialEq, Eq, Structural)]
pub enum TransformPlan {
    /// Answered here, with no upstream.
    Local,
    /// The upstream speaks the client's format.
    Passthrough,
    /// Request and response are converted.
    Transform {
        request_pair: TransformPair,
        response_pair: TransformPair,
        source: OperationKey,
        target: OperationKey,
    },
    /// The client wants a stream and the upstream answers in one piece.
    SynthesizeStream {
        request_pair: Option<TransformPair>,
        response_pair: Option<TransformPair>,
        source: OperationKey,
        target: OperationKey,
    },
    /// The client wants one piece and the upstream answers with a stream.
    AggregateStream {
        request_pair: Option<TransformPair>,
        response_pair: Option<TransformPair>,
        source: OperationKey,
        target: OperationKey,
    },
}

} // verus!
