//! The way back of a response to the format that the client speaks.

use crate::pipeline::error::{PipelineError, PipelineFault, TransformFault};
use crate::pipeline::patch::bytes_result;
use crate::pipeline::plan::{TransformPair, TransformPlan};
use crate::pipeline::request::whole;
use crate::pipeline::wire::{converted, converts_response, Conversion, TransformContext, Wire};
use crate::protocol::{ContentGenerationKind, Operation, OperationKey, OperationKind};
use crate::transport::octets;
use bytes::Bytes;
use vstd::prelude::*;

verus! {

/// The conversion back from `target` to `source`.
pub open spec fn backward(source: OperationKey, target: OperationKey) -> Conversion {
    Conversion { source: target, target: source, request: None }
}

/// The conversion that a response in one piece goes through. A stream that is
/// to be collapsed is converted after that, and not here.
pub open spec fn response_conversion(plan: TransformPlan) -> Option<(TransformPair, Conversion)> {
    match plan {
        TransformPlan::Transform { response_pair, source, target, .. } => Some(
            (response_pair, backward(source, target)),
        ),
        TransformPlan::SynthesizeStream {
            response_pair: Some(pair),
            source,
            target,
            ..
        } => Some((pair, backward(whole(source), target))),
        _ => None,
    }
}

/// The conversion that a collapsed stream goes through.
pub open spec fn aggregate_conversion(plan: TransformPlan) -> Option<(TransformPair, Conversion)> {
    match plan {
        TransformPlan::AggregateStream {
            response_pair: Some(pair),
            source,
            target,
            ..
        } => Some((pair, backward(source, target))),
        _ => None,
    }
}

/// The conversion that a stream goes through on its way, with the format that
/// it ends in. Only content is streamed.
pub open spec fn stream_conversion(plan: TransformPlan) -> Option<
    (TransformPair, Conversion, ContentGenerationKind),
> {
    match plan {
        TransformPlan::Transform { response_pair, source, target, .. } => match source.kind {
            OperationKind::ContentGeneration(kind) => Some(
                (response_pair, backward(source, target), kind),
            ),
            OperationKind::Provider(_) => None,
        },
        TransformPlan::AggregateStream {
            response_pair: Some(pair),
            source,
            target,
            ..
        } => match source.kind {
            OperationKind::ContentGeneration(kind) => Some((pair, backward(source, target), kind)),
            OperationKind::Provider(_) => None,
        },
        _ => None,
    }
}

/// `result` is what becomes of `body` where `wire` answers `answer` to the
/// conversion. Without one the body stays as it is.
pub open spec fn is_response<W: Wire>(
    wire: &W,
    conversion: Option<(TransformPair, Conversion)>,
    body: Seq<u8>,
    answer: Result<Seq<u8>, TransformFault>,
    result: Result<Seq<u8>, PipelineFault>,
) -> bool {
    match conversion {
        Some((pair, context)) => {
            &&& converts_response(wire, pair, context, body, answer)
            &&& result == match answer {
                Ok(converted_body) => Ok::<Seq<u8>, PipelineFault>(converted_body),
                Err(e) => Err(PipelineFault::TransformResponse(e)),
            }
        },
        None => result == Ok::<Seq<u8>, PipelineFault>(body),
    }
}

/// What a choice of conversion says.
pub open spec fn chosen(conversion: Option<(TransformPair, TransformContext)>) -> Option<
    (TransformPair, Conversion),
> {
    match conversion {
        Some((pair, context)) => Some((pair, context@)),
        None => None,
    }
}

/// Converts a stream event by event to the format that the client speaks.
pub struct SseTransformer {
    pub pair: TransformPair,
    pub context: TransformContext,
    /// The format that the client speaks.
    pub inbound: ContentGenerationKind,
}

impl View for SseTransformer {
    type V = (TransformPair, Conversion, ContentGenerationKind);

    open spec fn view(&self) -> (TransformPair, Conversion, ContentGenerationKind) {
        (self.pair, self.context@, self.inbound)
    }
}

impl SseTransformer {
    /// A transformer by `pair` that ends in the format `inbound`.
    pub fn new(
        pair: TransformPair,
        context: TransformContext,
        inbound: ContentGenerationKind,
    ) -> (r: SseTransformer)
        ensures
            r@ == (pair, context@, inbound),
    {
        SseTransformer { pair, context, inbound }
    }
}

/// The conversion that a response in one piece goes through.
pub fn conversion_of_response(plan: &TransformPlan) -> (r: Option<
    (TransformPair, TransformContext),
>)
    ensures
        chosen(r) == response_conversion(*plan),
{
    match *plan {
        TransformPlan::Passthrough | TransformPlan::Local | TransformPlan::AggregateStream {
            ..
        } => None,
        TransformPlan::Transform { response_pair, source, target, .. } => Some(
            (response_pair, TransformContext::new(target, source)),
        ),
        TransformPlan::SynthesizeStream { response_pair, source, target, .. } => {
            match response_pair {
                Some(pair) => {
                    let normalized = OperationKey {
                        operation: Operation::GenerateContent,
                        kind: source.kind,
                    };
                    Some((pair, TransformContext::new(target, normalized)))
                },
                None => None,
            }
        },
    }
}

/// The conversion that a collapsed stream goes through.
pub fn conversion_of_aggregate(plan: &TransformPlan) -> (r: Option<
    (TransformPair, TransformContext),
>)
    ensures
        chosen(r) == aggregate_conversion(*plan),
{
    match *plan {
        TransformPlan::AggregateStream { response_pair, source, target, .. } => {
            match response_pair {
                Some(pair) => Some((pair, TransformContext::new(target, source))),
                None => None,
            }
        },
        _ => None,
    }
}

/// `body` after the conversion, where there is one.
fn convert_back<W: Wire>(
    wire: &W,
    conversion: Option<(TransformPair, TransformContext)>,
    body: Bytes,
) -> (r: Result<Bytes, PipelineError>)
    ensures
        exists|answer: Result<Seq<u8>, TransformFault>| #[trigger]
            is_response(wire, chosen(conversion), octets(body), answer, bytes_result(r)),
{
    let ghost from = octets(body);
    match conversion {
        Some((pair, context)) => {
            let answer = wire.response_bytes(pair, &context, &body);
            let ghost answered = converted(answer);
            assert(converts_response(wire, pair, context@, from, answered));
            let r = match answer {
                Ok(bytes) => Ok(Bytes::from(bytes)),
                Err(e) => Err(PipelineError::TransformResponse(e)),
            };
            assert(is_response(wire, Some((pair, context@)), from, answered, bytes_result(r)));
            r
        },
        None => {
            let r: Result<Bytes, PipelineError> = Ok(body);
            assert(is_response(wire, None, from, Ok(from), bytes_result(r)));
            r
        },
    }
}

/// A success response in one piece, in the format that the client speaks.
pub fn response_body<W: Wire>(wire: &W, plan: &TransformPlan, body: Bytes) -> (r: Result<
    Bytes,
    PipelineError,
>)
    ensures
        exists|answer: Result<Seq<u8>, TransformFault>| #[trigger]
            is_response(wire, response_conversion(*plan), octets(body), answer, bytes_result(r)),
{
    convert_back(wire, conversion_of_response(plan), body)
}

/// A collapsed stream, which is in the target's format, in the one that the
/// client speaks. Only plans that collapse a stream have anything to convert.
pub fn aggregate_response_body<W: Wire>(wire: &W, plan: &TransformPlan, body: Bytes) -> (r: Result<
    Bytes,
    PipelineError,
>)
    ensures
        exists|answer: Result<Seq<u8>, TransformFault>| #[trigger]
            is_response(wire, aggregate_conversion(*plan), octets(body), answer, bytes_result(r)),
{
    convert_back(wire, conversion_of_aggregate(plan), body)
}

/// The transformer for the stream of a response, where it has to be converted
/// on its way. A stream in the client's format is relayed as it is, and an
/// answer in one piece is no stream yet.
pub fn stream_transformer(plan: &TransformPlan) -> (r: Option<SseTransformer>)
    ensures
        match r {
            Some(transformer) => stream_conversion(*plan) == Some(transformer@),
            None => stream_conversion(*plan) is None,
        },
{
    match *plan {
        TransformPlan::Passthrough | TransformPlan::Local | TransformPlan::SynthesizeStream {
            ..
        } => None,
        TransformPlan::AggregateStream { response_pair, source, target, .. } => {
            match (response_pair, source.kind) {
                (Some(pair), OperationKind::ContentGeneration(inbound)) => Some(
                    SseTransformer::new(pair, TransformContext::new(target, source), inbound),
                ),
                _ => None,
            }
        },
        TransformPlan::Transform { response_pair, source, target, .. } => {
            match source.kind {
                OperationKind::ContentGeneration(inbound) => Some(
                    SseTransformer::new(
                        response_pair,
                        TransformContext::new(target, source),
                        inbound,
                    ),
                ),
                OperationKind::Provider(_) => None,
            }
        },
    }
}

} // verus!
