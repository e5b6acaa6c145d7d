//! What an attempt comes to under each plan, told on the plan, on the request
//! that came in and on the calls that are made.

use crate::json::{json_document, json_text, Json};
use crate::pipeline::error::{PipelineFault, TransformError, TransformFault};
use crate::pipeline::laws::patches::reading_shows_the_patch;
use crate::pipeline::laws::texts::{
    is_completions, is_finished, is_gemini, is_generation, is_merged, is_patched, is_restreamed,
    is_set, merged_queries_are_merged, missing_model, patched_objects_hold_what_is_set,
    patched_texts_hold_what_is_set, reads_models,
};
use crate::pipeline::memo::Memo;
use crate::pipeline::patch::patched;
use crate::pipeline::plan::{TransformPair, TransformPlan};
use crate::pipeline::request::{
    built, content_kind, inbound_body, is_outcome, leg_body, Parts, Replies, RequestCtx, RuleReplies,
};
use crate::pipeline::wire::{RequestTarget, TransformContext, Wire};
use crate::protocol::{ContentGenerationKind, Operation, OperationKey, OperationKind};
use crate::transport::{fields, method_name, octets};
use bytes::Bytes;
use http::{HeaderMap, HeaderValue};
use vstd::prelude::*;

verus! {

/// There are rules to apply.
pub open spec fn are_rules<R>(rules: Option<&[R]>) -> bool {
    rules is Some && rules->0@.len() > 0
}

/// The query that came in.
pub open spec fn query_in(ctx: RequestCtx) -> Option<Seq<char>> {
    if ctx.query is Some {
        Some(ctx.query->0@)
    } else {
        None
    }
}

/// The model that the inbound body is known to name, where `peeked` is what
/// looking into it gives.
pub open spec fn named_in(memo: Memo, peeked: Option<Seq<char>>) -> Option<Seq<char>> {
    if memo.inbound is Some {
        memo.inbound->0
    } else {
        peeked
    }
}

/// `wire` was asked which model the inbound body names, and answered `model`.
pub open spec fn looked_into<W: Wire>(wire: &W, ctx: RequestCtx, model: Option<Seq<char>>) -> bool {
    exists|answer: Option<String>| #[trigger]
        call_ensures(W::peek_model, (wire, &ctx.body), answer) && match answer {
            Some(text) => model == Some(text@),
            None => model is None,
        }
}

/// `wire` was asked where `key` lives for `model`, and `parts` go there.
pub open spec fn goes_where_it_lives<W: Wire>(
    wire: &W,
    key: OperationKey,
    model: Seq<char>,
    stream: bool,
    parts: Parts,
) -> bool {
    exists|text: &str, answer: RequestTarget| #[trigger]
        call_ensures(W::request_target, (wire, key, text, stream), answer) && text@ == model
            && parts.method == method_name(answer.method) && parts.path == answer.path@
            && match answer.query {
            Some(query) => parts.query == Some(query@),
            None => parts.query is None,
        }
}

/// `context` tells a converter where the conversion comes from, where it goes
/// to, and at which path and with which query the request came in.
pub open spec fn tells_of_request(
    context: TransformContext,
    source: OperationKey,
    target: OperationKey,
    ctx: RequestCtx,
) -> bool {
    &&& context.source == source
    &&& context.target == target
    &&& context.request is Some
    &&& context.request->0.path@ == ctx.path@
    &&& match context.request->0.query {
        Some(query) => query_in(ctx) == Some(query@),
        None => query_in(ctx) is None,
    }
}

/// `wire` was handed `body` to convert, and answered `converted`.
pub open spec fn was_converted<W: Wire>(
    wire: &W,
    pair: TransformPair,
    source: OperationKey,
    target: OperationKey,
    ctx: RequestCtx,
    body: Seq<u8>,
    converted: Result<Seq<u8>, TransformFault>,
) -> bool {
    exists|context: TransformContext, bytes: Bytes, answer: Result<Vec<u8>, TransformError>|
     #[trigger]
        call_ensures(W::request_bytes, (wire, pair, &context, &bytes), answer) && tells_of_request(
            context,
            source,
            target,
            ctx,
        ) && octets(bytes) == body && match answer {
            Ok(text) => converted == Ok::<Seq<u8>, TransformFault>(text@),
            Err(e) => converted == Err::<Seq<u8>, TransformFault>(e@),
        }
}

/// The body of a request, or why there is none.
pub open spec fn body_of(result: Result<Parts, PipelineFault>) -> Result<Seq<u8>, PipelineFault> {
    if result is Ok {
        Ok(result->Ok_0.body)
    } else {
        Err(result->Err_0)
    }
}

/// A plan that is served here builds no request.
pub proof fn local_plans_send_nothing<W: Wire>(
    wire: &W,
    ctx: RequestCtx,
    model: Seq<char>,
    rules: Option<&[W::Rule]>,
    memo: Memo,
    preserve_raw_body: bool,
    a: Replies,
    b: RuleReplies,
    result: Result<Parts, PipelineFault>,
    memo_after: Memo,
)
    requires
        is_outcome(
            wire,
            ctx,
            model,
            TransformPlan::Local,
            rules,
            memo,
            preserve_raw_body,
            a,
            b,
            result,
            memo_after,
        ),
    ensures
        result == Err::<Parts, PipelineFault>(PipelineFault::LocalUnimplemented),
        memo_after == memo,
{
}

/// A raw request goes out with the method, the path, the query and the body that
/// it came with, and nothing is looked up for it.
pub proof fn raw_requests_are_sent_as_they_came<W: Wire>(
    wire: &W,
    ctx: RequestCtx,
    model: Seq<char>,
    rules: Option<&[W::Rule]>,
    memo: Memo,
    a: Replies,
    b: RuleReplies,
    result: Result<Parts, PipelineFault>,
    memo_after: Memo,
)
    requires
        !are_rules(rules),
        is_outcome(
            wire,
            ctx,
            model,
            TransformPlan::Passthrough,
            rules,
            memo,
            true,
            a,
            b,
            result,
            memo_after,
        ),
    ensures
        result is Ok,
        result->Ok_0.method == method_name(ctx.method),
        result->Ok_0.path == ctx.path@,
        result->Ok_0.query == query_in(ctx),
        result->Ok_0.body == octets(ctx.body),
        result->Ok_0.fields is None,
        memo_after == memo,
{
}

/// A request that is passed through keeps method, path and query; its body gets
/// the member model, wherever the operation has a body, there is a member model
/// and the body names another, and the request for usage where chat completions
/// are streamed. One in Gemini's formats keeps its body, and the path and query
/// change to where the member model lives.
pub proof fn passed_requests_get_the_member_model<W: Wire>(
    wire: &W,
    ctx: RequestCtx,
    op: OperationKey,
    model: Seq<char>,
    rules: Option<&[W::Rule]>,
    memo: Memo,
    a: Replies,
    b: RuleReplies,
    result: Result<Parts, PipelineFault>,
    memo_after: Memo,
)
    requires
        ctx.op == Some(op),
        !are_rules(rules),
        is_outcome(
            wire,
            ctx,
            model,
            TransformPlan::Passthrough,
            rules,
            memo,
            false,
            a,
            b,
            result,
            memo_after,
        ),
    ensures
        ({
            let asks = !reads_models(op.operation) && model.len() > 0;
            let renames = asks && named_in(memo, a.peeked) != Some(model);
            let usage = ctx.stream && is_completions(op.kind);
            &&& asks && memo.inbound is None ==> looked_into(wire, ctx, a.peeked)
            &&& memo_after.bodies == memo.bodies
            &&& memo_after.inbound == if asks {
                Some(named_in(memo, a.peeked))
            } else {
                memo.inbound
            }
            &&& result matches Ok(parts) ==> parts.method == method_name(ctx.method)
                && parts.fields is None
            &&& result matches Ok(parts) ==> (!renames || !is_gemini(op.kind)) ==> parts.path
                == ctx.path@ && parts.query == query_in(ctx)
            &&& renames && is_gemini(op.kind) ==> result is Ok && moves_to_the_model(
                wire,
                ctx,
                op,
                model,
                result->Ok_0,
            )
            &&& renames && !is_gemini(op.kind) ==> is_patched(
                octets(ctx.body),
                Some(model),
                None,
                usage,
                body_of(result),
            )
            &&& !renames && usage ==> is_patched(
                octets(ctx.body),
                None,
                None,
                true,
                body_of(result),
            )
            &&& !usage && (!renames || is_gemini(op.kind)) ==> result is Ok
                && result->Ok_0.body == octets(ctx.body)
        }),
{
    let usage = ctx.stream && is_completions(op.kind);
    patched_texts_hold_what_is_set(octets(ctx.body), Some(model), None, usage);
    patched_texts_hold_what_is_set(octets(ctx.body), None, None, true);
    if let Some(extra) = a.endpoint.query {
        merged_queries_are_merged(query_in(ctx), extra);
    }
}

/// `parts` go to the path where `op` lives for the member model, with what that
/// endpoint has as a query merged into the one that came in, and with the body
/// that came in.
pub open spec fn moves_to_the_model<W: Wire>(
    wire: &W,
    ctx: RequestCtx,
    op: OperationKey,
    model: Seq<char>,
    parts: Parts,
) -> bool {
    &&& parts.body == octets(ctx.body)
    &&& exists|text: &str, answer: RequestTarget| #[trigger]
        call_ensures(W::request_target, (wire, op, text, ctx.stream), answer) && text@ == model
            && parts.path == answer.path@ && match answer.query {
            Some(extra) => parts.query is Some && is_merged(
                query_in(ctx),
                extra@,
                parts.query->0,
            ),
            None => parts.query == query_in(ctx),
        }
}

/// In particular the body that is sent names the member model, for every
/// operation with a body in every format but Gemini's, where it named another:
/// it reads as the client's object with that model.
pub proof fn passed_bodies_name_the_member_model<W: Wire>(
    wire: &W,
    ctx: RequestCtx,
    op: OperationKey,
    model: Seq<char>,
    rules: Option<&[W::Rule]>,
    memo: Memo,
    a: Replies,
    b: RuleReplies,
    result: Result<Parts, PipelineFault>,
    memo_after: Memo,
    request: Map<Seq<char>, Json>,
)
    requires
        ctx.op == Some(op),
        !are_rules(rules),
        is_outcome(
            wire,
            ctx,
            model,
            TransformPlan::Passthrough,
            rules,
            memo,
            false,
            a,
            b,
            result,
            memo_after,
        ),
        op.operation != Operation::ListModels,
        op.operation != Operation::GetModel,
        !is_gemini(op.kind),
        model.len() > 0,
        named_in(memo, a.peeked) != Some(model),
        json_document(octets(ctx.body)) == Ok::<Json, Seq<char>>(Json::Object(request)),
        Json::Object(request).is_readable(),
    ensures
        result is Ok,
        json_document(result->Ok_0.body) is Ok,
        ({
            let sent = json_document(result->Ok_0.body)->Ok_0;
            sent is Object && sent->Object_0.contains_key("model"@) && sent->Object_0["model"@]
                == Json::Text(model)
        }),
{
    let usage = ctx.stream && is_completions(op.kind);
    reading_shows_the_patch(
        request,
        Some(model),
        None,
        usage,
        json_document(result->Ok_0.body)->Ok_0,
    );
}

/// `wire` was asked for the converted query of a request for models, and
/// answered `listing`.
pub open spec fn was_listed<W: Wire>(
    wire: &W,
    pair: TransformPair,
    source: OperationKey,
    target: OperationKey,
    ctx: RequestCtx,
    listing: Option<Seq<char>>,
) -> bool {
    exists|context: TransformContext, answer: Option<String>| #[trigger]
        call_ensures(W::list_query, (wire, pair, &context), answer) && tells_of_request(
            context,
            source,
            target,
            ctx,
        ) && match answer {
            Some(text) => listing == Some(text@),
            None => listing is None,
        }
}

/// `parts` go where `target` lives, with the query of that endpoint and the
/// converted one.
pub open spec fn goes_with_listing<W: Wire>(
    wire: &W,
    target: OperationKey,
    model: Seq<char>,
    stream: bool,
    listing: Option<Seq<char>>,
    parts: Parts,
) -> bool {
    exists|text: &str, answer: RequestTarget| #[trigger]
        call_ensures(W::request_target, (wire, target, text, stream), answer) && text@ == model
            && parts.method == method_name(answer.method) && parts.path == answer.path@ && match (
            answer.query,
            listing,
        ) {
            (Some(base), Some(extra)) => parts.query is Some && is_merged(
                Some(base@),
                extra,
                parts.query->0,
            ),
            (None, Some(extra)) => parts.query == Some(extra),
            (Some(base), None) => parts.query == Some(base@),
            (None, None) => parts.query is None,
        }
}

/// A converted request for models goes where the target lives, with the
/// converted query and with the body that it came with; no body is converted.
pub proof fn requests_for_models_convert_the_query<W: Wire>(
    wire: &W,
    ctx: RequestCtx,
    model: Seq<char>,
    request_pair: TransformPair,
    response_pair: TransformPair,
    source: OperationKey,
    target: OperationKey,
    rules: Option<&[W::Rule]>,
    memo: Memo,
    preserve_raw_body: bool,
    a: Replies,
    b: RuleReplies,
    result: Result<Parts, PipelineFault>,
    memo_after: Memo,
)
    requires
        !are_rules(rules),
        reads_models(target.operation),
        is_outcome(
            wire,
            ctx,
            model,
            TransformPlan::Transform { request_pair, response_pair, source, target },
            rules,
            memo,
            preserve_raw_body,
            a,
            b,
            result,
            memo_after,
        ),
    ensures
        result is Ok,
        was_listed(wire, request_pair, source, target, ctx, a.listing),
        goes_with_listing(wire, target, model, ctx.stream, a.listing, result->Ok_0),
        result->Ok_0.body == octets(ctx.body),
        result->Ok_0.fields is None,
        memo_after == memo,
{
    if let Some(extra) = a.listing {
        merged_queries_are_merged(a.endpoint.query, extra);
    }
}

/// A body that was converted for the target and the model before is sent again
/// as it is.
pub proof fn remembered_bodies_are_sent_again<W: Wire>(
    wire: &W,
    ctx: RequestCtx,
    model: Seq<char>,
    request_pair: TransformPair,
    response_pair: TransformPair,
    source: OperationKey,
    target: OperationKey,
    rules: Option<&[W::Rule]>,
    memo: Memo,
    preserve_raw_body: bool,
    a: Replies,
    b: RuleReplies,
    result: Result<Parts, PipelineFault>,
    memo_after: Memo,
)
    requires
        !are_rules(rules),
        !reads_models(target.operation),
        memo.bodies.contains_key((target, model)),
        is_outcome(
            wire,
            ctx,
            model,
            TransformPlan::Transform { request_pair, response_pair, source, target },
            rules,
            memo,
            preserve_raw_body,
            a,
            b,
            result,
            memo_after,
        ),
    ensures
        result is Ok,
        goes_where_it_lives(wire, target, model, ctx.stream, result->Ok_0),
        result->Ok_0.body == memo.bodies[(target, model)],
        result->Ok_0.fields is None,
        memo_after == memo,
{
}

/// The inbound body is to name the member model before it is converted: there is
/// one, one of the two formats is not Gemini's, and the body names another.
pub open spec fn is_renamed(
    source: OperationKey,
    target: OperationKey,
    model: Seq<char>,
    named: Option<Seq<char>>,
) -> bool {
    model.len() > 0 && !(is_gemini(source.kind) && is_gemini(target.kind)) && named != Some(model)
}

/// `inbound` is the body that came in, with the member model where it is to name
/// that.
pub open spec fn is_inbound(
    ctx: RequestCtx,
    source: OperationKey,
    target: OperationKey,
    model: Seq<char>,
    named: Option<Seq<char>>,
    inbound: Result<Seq<u8>, PipelineFault>,
) -> bool {
    if is_renamed(source, target, model, named) {
        is_patched(octets(ctx.body), Some(model), None, false, inbound)
    } else {
        inbound == Ok::<Seq<u8>, PipelineFault>(octets(ctx.body))
    }
}

/// The memo after the inbound body has been prepared for a conversion.
pub open spec fn learns_inbound(
    source: OperationKey,
    target: OperationKey,
    model: Seq<char>,
    memo: Memo,
    peeked: Option<Seq<char>>,
) -> Option<Option<Seq<char>>> {
    if model.len() > 0 && !(is_gemini(source.kind) && is_gemini(target.kind)) {
        Some(named_in(memo, peeked))
    } else {
        memo.inbound
    }
}

/// A body that is converted now: the member model is set in the inbound body
/// first, the converter is handed that with the path and the query of the
/// request, and what it writes is finished as target and client want it, sent to
/// where the target lives, and remembered. What goes wrong on the way is
/// answered, and nothing is remembered then.
pub proof fn bodies_are_renamed_converted_and_finished<W: Wire>(
    wire: &W,
    ctx: RequestCtx,
    model: Seq<char>,
    request_pair: TransformPair,
    response_pair: TransformPair,
    source: OperationKey,
    target: OperationKey,
    rules: Option<&[W::Rule]>,
    memo: Memo,
    preserve_raw_body: bool,
    a: Replies,
    b: RuleReplies,
    result: Result<Parts, PipelineFault>,
    memo_after: Memo,
) -> (inbound: Result<Seq<u8>, PipelineFault>)
    requires
        !are_rules(rules),
        !reads_models(target.operation),
        !memo.bodies.contains_key((target, model)),
        is_outcome(
            wire,
            ctx,
            model,
            TransformPlan::Transform { request_pair, response_pair, source, target },
            rules,
            memo,
            preserve_raw_body,
            a,
            b,
            result,
            memo_after,
        ),
    ensures
        model.len() > 0 && !(is_gemini(source.kind) && is_gemini(target.kind)) && memo.inbound
            is None ==> looked_into(wire, ctx, a.peeked),
        is_inbound(ctx, source, target, model, named_in(memo, a.peeked), inbound),
        match inbound {
            Err(e) => result == Err::<Parts, PipelineFault>(e),
            Ok(body) => was_converted(
                wire,
                request_pair,
                source,
                target,
                ctx,
                body,
                a.converted,
            ) && match a.converted {
                Err(e) => result == Err::<Parts, PipelineFault>(
                    PipelineFault::TransformRequest(e),
                ),
                Ok(converted) => is_finished(
                    converted,
                    source,
                    target,
                    model,
                    ctx.stream,
                    body_of(result),
                ),
            },
        },
        result matches Ok(parts) ==> goes_where_it_lives(wire, target, model, ctx.stream, parts)
            && parts.fields is None,
        memo_after.inbound == learns_inbound(source, target, model, memo, a.peeked),
        memo_after.bodies == match result {
            Ok(parts) => memo.bodies.insert((target, model), parts.body),
            Err(_) => memo.bodies,
        },
{
    let inbound = inbound_body(
        source,
        target,
        model,
        memo.model(a.peeked),
        octets(ctx.body),
    );
    patched_texts_hold_what_is_set(octets(ctx.body), Some(model), None, false);
    if let Ok(converted) = a.converted {
        let flag: Option<bool> = if ctx.stream && is_generation(target.operation) {
            Some(true)
        } else {
            None
        };
        patched_texts_hold_what_is_set(
            converted,
            missing_model(source, model),
            flag,
            ctx.stream && is_completions(target.kind),
        );
    }
    inbound
}

/// In particular a converter is handed an object that names the member model,
/// and is otherwise the client's, where the client's names another and one of
/// the two formats is not Gemini's.
pub proof fn converters_are_handed_the_member_model<W: Wire>(
    wire: &W,
    ctx: RequestCtx,
    model: Seq<char>,
    request_pair: TransformPair,
    response_pair: TransformPair,
    source: OperationKey,
    target: OperationKey,
    rules: Option<&[W::Rule]>,
    memo: Memo,
    preserve_raw_body: bool,
    a: Replies,
    b: RuleReplies,
    result: Result<Parts, PipelineFault>,
    memo_after: Memo,
    request: Map<Seq<char>, Json>,
)
    requires
        !reads_models(target.operation),
        !memo.bodies.contains_key((target, model)),
        is_outcome(
            wire,
            ctx,
            model,
            TransformPlan::Transform { request_pair, response_pair, source, target },
            rules,
            memo,
            preserve_raw_body,
            a,
            b,
            result,
            memo_after,
        ),
        model.len() > 0,
        !is_gemini(source.kind) || !is_gemini(target.kind),
        named_in(memo, a.peeked) != Some(model),
        json_document(octets(ctx.body)) == Ok::<Json, Seq<char>>(Json::Object(request)),
    ensures
        exists|
            context: TransformContext,
            bytes: Bytes,
            answer: Result<Vec<u8>, TransformError>,
            after: Map<Seq<char>, Json>,
        |
            #![trigger
                call_ensures(W::request_bytes, (wire, request_pair, &context, &bytes), answer),
                is_set(request, after, Some(model), None, false)]
            {
                &&& call_ensures(W::request_bytes, (wire, request_pair, &context, &bytes), answer)
                &&& tells_of_request(context, source, target, ctx)
                &&& is_set(request, after, Some(model), None, false)
                &&& octets(bytes) == json_text(Json::Object(after))
                &&& Json::Object(request).is_readable() ==> json_document(octets(bytes)) is Ok && {
                    let read = json_document(octets(bytes))->Ok_0;
                    read is Object && read->Object_0.contains_key("model"@)
                        && read->Object_0["model"@] == Json::Text(model)
                }
            },
{
    patched_objects_hold_what_is_set(request, Some(model), None, false);
    let after = patched(Json::Object(request), Some(model), None, false)->Object_0;
    let text = json_text(Json::Object(after));
    assert(is_set(request, after, Some(model), None, false));
    assert(was_converted(wire, request_pair, source, target, ctx, text, a.converted));
    if Json::Object(request).is_readable() {
        reading_shows_the_patch(request, Some(model), None, false, json_document(text)->Ok_0);
    }
    let (context, bytes, answer) = choose|
        context: TransformContext,
        bytes: Bytes,
        answer: Result<Vec<u8>, TransformError>,
    | #[trigger]
        call_ensures(W::request_bytes, (wire, request_pair, &context, &bytes), answer)
            && tells_of_request(context, source, target, ctx) && octets(bytes) == text;
    assert(call_ensures(W::request_bytes, (wire, request_pair, &context, &bytes), answer));
}

/// A request whose stream is made (`stream` is false) or collapsed (`stream` is
/// true) on the way back: the member model is set in the inbound body first, a
/// converter, where there is one, is handed that, told that it converts one
/// piece where one is asked for, and what comes of it asks for a stream, or not,
/// whatever the client wants. Nothing is remembered but the inbound model.
pub proof fn restreamed_requests_are_renamed_converted_and_finished<W: Wire>(
    wire: &W,
    ctx: RequestCtx,
    model: Seq<char>,
    pair: Option<TransformPair>,
    back: Option<TransformPair>,
    source: OperationKey,
    target: OperationKey,
    stream: bool,
    rules: Option<&[W::Rule]>,
    memo: Memo,
    preserve_raw_body: bool,
    a: Replies,
    b: RuleReplies,
    result: Result<Parts, PipelineFault>,
    memo_after: Memo,
) -> (inbound: Result<Seq<u8>, PipelineFault>)
    requires
        !are_rules(rules),
        is_outcome(
            wire,
            ctx,
            model,
            if stream {
                TransformPlan::AggregateStream {
                    request_pair: pair,
                    response_pair: back,
                    source,
                    target,
                }
            } else {
                TransformPlan::SynthesizeStream {
                    request_pair: pair,
                    response_pair: back,
                    source,
                    target,
                }
            },
            rules,
            memo,
            preserve_raw_body,
            a,
            b,
            result,
            memo_after,
        ),
    ensures
        model.len() > 0 && !(is_gemini(source.kind) && is_gemini(target.kind)) && memo.inbound
            is None ==> looked_into(wire, ctx, a.peeked),
        is_inbound(ctx, source, target, model, named_in(memo, a.peeked), inbound),
        match (inbound, pair) {
            (Err(e), _) => result == Err::<Parts, PipelineFault>(e),
            (Ok(body), None) => is_restreamed(body, source, target, model, stream, body_of(result)),
            (Ok(body), Some(converter)) => was_converted(
                wire,
                converter,
                if stream {
                    source
                } else {
                    OperationKey { operation: Operation::GenerateContent, kind: source.kind }
                },
                target,
                ctx,
                body,
                a.converted,
            ) && match a.converted {
                Err(e) => result == Err::<Parts, PipelineFault>(
                    PipelineFault::TransformRequest(e),
                ),
                Ok(converted) => is_restreamed(
                    converted,
                    source,
                    target,
                    model,
                    stream,
                    body_of(result),
                ),
            },
        },
        result matches Ok(parts) ==> goes_where_it_lives(wire, target, model, stream, parts)
            && parts.fields is None,
        memo_after.inbound == learns_inbound(source, target, model, memo, a.peeked),
        memo_after.bodies == memo.bodies,
{
    let inbound = inbound_body(
        source,
        target,
        model,
        memo.model(a.peeked),
        octets(ctx.body),
    );
    patched_texts_hold_what_is_set(octets(ctx.body), Some(model), None, false);
    if let Ok(body) = leg_body(ctx, pair, source, target, model, memo, a) {
        patched_texts_hold_what_is_set(
            body,
            missing_model(source, model),
            Some(stream),
            stream && is_completions(target.kind),
        );
    }
    inbound
}

/// The operation that a plan asks the upstream for.
pub open spec fn operation_asked(op: OperationKey, plan: TransformPlan) -> OperationKey {
    match plan {
        TransformPlan::Local => op,
        TransformPlan::Passthrough => op,
        TransformPlan::Transform { target, .. } => target,
        TransformPlan::SynthesizeStream { target, .. } => target,
        TransformPlan::AggregateStream { target, .. } => target,
    }
}

/// `filter` is the model that rules are to filter on: the one that the inbound
/// body names, else the one that the path names, else the member model.
pub open spec fn is_filter<W: Wire>(
    wire: &W,
    ctx: RequestCtx,
    model: Seq<char>,
    named: Option<Seq<char>>,
    filter: Seq<char>,
) -> bool {
    if named is Some {
        filter == named->0
    } else {
        exists|text: &str, answer: Option<String>| #[trigger]
            call_ensures(W::path_model_id, (wire, text), answer) && text@ == ctx.path@
                && match answer {
                Some(found) => filter == found@,
                None => filter == model,
            }
    }
}

/// The rules were run on the headers of the client and on `body`, for the
/// operation `key` and its format `kind`, if it is one of content, and made the
/// headers and the body of `parts`.
pub open spec fn were_run<W: Wire>(
    wire: &W,
    rules: &[W::Rule],
    key: OperationKey,
    kind: Option<ContentGenerationKind>,
    filter: Seq<char>,
    ctx: RequestCtx,
    body: Seq<u8>,
    parts: Parts,
) -> bool {
    &&& match key.kind {
        OperationKind::ContentGeneration(content) => kind == Some(content),
        OperationKind::Provider(_) => kind is None,
    }
    &&& exists|
        text: &str,
        headers: HeaderMap<HeaderValue>,
        bytes: Bytes,
        answer: (HeaderMap<HeaderValue>, Bytes),
    | #[trigger]
        call_ensures(W::apply_rules, (wire, rules, key, kind, text, headers, bytes), answer)
            && text@ == filter && fields(headers) == fields(ctx.headers) && octets(bytes) == body
            && parts.fields == Some(fields(answer.0)) && parts.body == octets(answer.1)
}

/// Rules are run last, on what the plan comes to without them, whatever the
/// plan: they see the finished body and the client's headers, and change nothing
/// else. The inbound model is looked up for them where it is not known.
pub proof fn rules_are_run_last<W: Wire>(
    wire: &W,
    ctx: RequestCtx,
    op: OperationKey,
    model: Seq<char>,
    plan: TransformPlan,
    rules: Option<&[W::Rule]>,
    memo: Memo,
    preserve_raw_body: bool,
    a: Replies,
    b: RuleReplies,
    result: Result<Parts, PipelineFault>,
    memo_after: Memo,
) -> (r: (Result<Parts, PipelineFault>, Memo, Seq<char>, Option<ContentGenerationKind>))
    requires
        ctx.op == Some(op),
        are_rules(rules),
        is_outcome(
            wire,
            ctx,
            model,
            plan,
            rules,
            memo,
            preserve_raw_body,
            a,
            b,
            result,
            memo_after,
        ),
    ensures
        is_outcome(wire, ctx, model, plan, None, memo, preserve_raw_body, a, b, r.0, r.1),
        match r.0 {
            Err(e) => result == Err::<Parts, PipelineFault>(e) && memo_after == r.1,
            Ok(plain) => {
                &&& result is Ok
                &&& result->Ok_0.method == plain.method
                &&& result->Ok_0.path == plain.path
                &&& result->Ok_0.query == plain.query
                &&& r.1.inbound is None ==> looked_into(wire, ctx, b.peeked)
                &&& is_filter(wire, ctx, model, named_in(r.1, b.peeked), r.2)
                &&& were_run(
                    wire,
                    rules->0,
                    operation_asked(op, plan),
                    r.3,
                    r.2,
                    ctx,
                    plain.body,
                    result->Ok_0,
                )
                &&& memo_after.bodies == r.1.bodies
                &&& memo_after.inbound == Some(named_in(r.1, b.peeked))
            },
        },
{
    let before = built(ctx, model, plan, memo, preserve_raw_body, a);
    let named = named_in(before.memo, b.peeked);
    let filter = match named {
        Some(text) => text,
        None => match b.path_model {
            Some(text) => text,
            None => model,
        },
    };
    (before.parts, before.memo, filter, content_kind(before.key))
}

} // verus!
