//! The way back of responses.

use crate::pipeline::error::{PipelineError, PipelineFault, TransformError, TransformFault};
use crate::pipeline::plan::{TransformPair, TransformPlan};
use crate::pipeline::response::{
    aggregate_conversion, aggregate_response_body, is_response, response_body,
    response_conversion, stream_conversion, stream_transformer, SseTransformer,
};
use crate::pipeline::wire::{TransformContext, Wire};
use crate::protocol::{ContentGenerationKind, Operation, OperationKey, OperationKind};
use crate::transport::octets;
use bytes::Bytes;
use vstd::prelude::*;

verus! {

/// A response comes back as it is where the plan converts nothing.
pub proof fn unconverted_responses_come_back<W: Wire>(
    wire: &W,
    plan: TransformPlan,
    body: Seq<u8>,
    answer: Result<Seq<u8>, TransformFault>,
    result: Result<Seq<u8>, PipelineFault>,
)
    requires
        plan is Passthrough || plan is Local || plan is AggregateStream || (plan is SynthesizeStream
            && plan->SynthesizeStream_response_pair is None),
        is_response(wire, response_conversion(plan), body, answer, result),
    ensures
        result == Ok::<Seq<u8>, PipelineFault>(body),
{
}

/// A collapsed stream comes back as it is under every plan that collapses none,
/// and where it is in the client's format already.
pub proof fn only_aggregates_are_converted<W: Wire>(
    wire: &W,
    plan: TransformPlan,
    body: Seq<u8>,
    answer: Result<Seq<u8>, TransformFault>,
    result: Result<Seq<u8>, PipelineFault>,
)
    requires
        !(plan is AggregateStream) || plan->AggregateStream_response_pair is None,
        is_response(wire, aggregate_conversion(plan), body, answer, result),
    ensures
        result == Ok::<Seq<u8>, PipelineFault>(body),
{
}

/// A stream is converted by the conversion that its answer in one piece would
/// go through. It is relayed as it is where the plan converts nothing or what is
/// asked for is no content, and an answer that only becomes a stream here is
/// none yet.
pub proof fn streams_are_converted_as_answers(plan: TransformPlan)
    ensures
        match stream_conversion(plan) {
            Some((pair, conversion, _)) => response_conversion(plan) == Some((pair, conversion))
                || aggregate_conversion(plan) == Some((pair, conversion)),
            None => match plan {
                TransformPlan::Transform { source, .. } => source.kind is Provider,
                TransformPlan::AggregateStream { response_pair, source, .. } => response_pair
                    is None || source.kind is Provider,
                _ => true,
            },
        },
        plan is SynthesizeStream ==> stream_conversion(plan) is None,
{
}

/// `result` is what the converter answered that was handed the response `body`
/// in the format of `from`, to be converted to that of `to`, with no request to
/// go by.
pub open spec fn was_converted_back<W: Wire>(
    wire: &W,
    pair: TransformPair,
    from: OperationKey,
    to: OperationKey,
    body: Seq<u8>,
    result: Result<Bytes, PipelineError>,
) -> bool {
    exists|context: TransformContext, bytes: Bytes, answer: Result<Vec<u8>, TransformError>|
     #[trigger]
        call_ensures(W::response_bytes, (wire, pair, &context, &bytes), answer) && context.source
            == from && context.target == to && context.request is None && octets(bytes) == body
            && match answer {
            Ok(text) => result is Ok && octets(result->Ok_0) == text@,
            Err(e) => result is Err && result->Err_0@ == PipelineFault::TransformResponse(e@),
        }
}

/// `result` is `body` as it is.
pub open spec fn came_back(body: Seq<u8>, result: Result<Bytes, PipelineError>) -> bool {
    result is Ok && octets(result->Ok_0) == body
}

/// A response in one piece is converted from the target to the source under
/// every plan that converts, whatever the operations and formats are, and under
/// a plan that makes a stream of it where it has a converter, to one piece of
/// the source's format. Under every other plan it comes back as it is.
pub proof fn responses_are_converted_to_the_source<W: Wire>(
    wire: &W,
    plan: &TransformPlan,
    body: Bytes,
    result: Result<Bytes, PipelineError>,
)
    requires
        call_ensures(response_body::<W>, (wire, plan, body), result),
    ensures
        match *plan {
            TransformPlan::Transform { response_pair, source, target, .. } => was_converted_back(
                wire,
                response_pair,
                target,
                source,
                octets(body),
                result,
            ),
            TransformPlan::SynthesizeStream {
                response_pair: Some(pair),
                source,
                target,
                ..
            } => was_converted_back(
                wire,
                pair,
                target,
                OperationKey { operation: Operation::GenerateContent, kind: source.kind },
                octets(body),
                result,
            ),
            TransformPlan::SynthesizeStream { response_pair: None, .. } => came_back(
                octets(body),
                result,
            ),
            TransformPlan::AggregateStream { .. } => came_back(octets(body), result),
            TransformPlan::Passthrough => came_back(octets(body), result),
            TransformPlan::Local => came_back(octets(body), result),
        },
{
}

/// A collapsed stream is converted from the target to the source where the plan
/// collapses one and has a converter, and comes back as it is under every other
/// plan.
pub proof fn collapsed_streams_are_converted_to_the_source<W: Wire>(
    wire: &W,
    plan: &TransformPlan,
    body: Bytes,
    result: Result<Bytes, PipelineError>,
)
    requires
        call_ensures(aggregate_response_body::<W>, (wire, plan, body), result),
    ensures
        match *plan {
            TransformPlan::AggregateStream {
                response_pair: Some(pair),
                source,
                target,
                ..
            } => was_converted_back(wire, pair, target, source, octets(body), result),
            _ => came_back(octets(body), result),
        },
{
}

/// `transformer` converts events of `target` to those of `source`, whose format
/// is `kind`.
pub open spec fn streams_back(
    transformer: Option<SseTransformer>,
    pair: TransformPair,
    source: OperationKey,
    target: OperationKey,
    kind: ContentGenerationKind,
) -> bool {
    &&& transformer is Some
    &&& transformer->0.pair == pair
    &&& transformer->0.context.source == target
    &&& transformer->0.context.target == source
    &&& transformer->0.context.request is None
    &&& transformer->0.inbound == kind
}

/// A stream of content is converted from the target to the source under every
/// plan that converts, and under one that collapses streams where it has a
/// converter. Every other stream is relayed as it is.
pub proof fn streams_are_converted_to_the_source(
    plan: &TransformPlan,
    transformer: Option<SseTransformer>,
)
    requires
        call_ensures(stream_transformer, (plan,), transformer),
    ensures
        match *plan {
            TransformPlan::Transform { response_pair, source, target, .. } => match source.kind {
                OperationKind::ContentGeneration(kind) => streams_back(
                    transformer,
                    response_pair,
                    source,
                    target,
                    kind,
                ),
                OperationKind::Provider(_) => transformer is None,
            },
            TransformPlan::AggregateStream { response_pair, source, target, .. } => match (
                response_pair,
                source.kind,
            ) {
                (Some(pair), OperationKind::ContentGeneration(kind)) => streams_back(
                    transformer,
                    pair,
                    source,
                    target,
                    kind,
                ),
                _ => transformer is None,
            },
            _ => transformer is None,
        },
{
}

} // verus!
