//! The request that goes out under each plan, as the upstream reads it.

use crate::json::{
    json_document, json_text, legible_within_more, like_is_transitive, like_without_reals_is_same,
    max_depth, Json,
};
use crate::pipeline::error::PipelineFault;
use crate::pipeline::laws::patches::{
    an_unpatched_object_reads_as_itself, patched_keys, patches_compose, patches_respect_likeness,
    reading_shows_the_patch, reads_as_patched,
};
use crate::pipeline::memo::Memo;
use crate::pipeline::patch::{carries_model, is_chat, patched};
use crate::pipeline::plan::{TransformPair, TransformPlan};
use crate::pipeline::request::{
    has_rules, inbound_body, is_outcome, late_model, leg_body, may_name_model, passthrough_built,
    passthrough_rewrites, restreamed_answered, restreamed_body, restreamed_built, transformed_body,
    untouched, Parts, Replies, RequestCtx, RuleReplies,
};
use crate::pipeline::wire::{locates, Endpoint, Wire};
use crate::protocol::OperationKey;
use crate::transport::octets;
use vstd::prelude::*;

verus! {

/// Where the body is to be kept raw, a request that is passed through goes out
/// exactly as it came in, and nothing is looked up in it.
pub proof fn raw_requests_go_out_untouched<W: Wire>(
    wire: &W,
    ctx: RequestCtx,
    model: Seq<char>,
    rules: Option<&[W::Rule]>,
    memo: Memo,
    a: Replies,
    b: RuleReplies,
    result: Result<Parts, PipelineFault>,
    memo_after: Memo,
)
    requires
        !has_rules(rules),
        is_outcome(
            wire,
            ctx,
            model,
            TransformPlan::Passthrough,
            rules,
            memo,
            true,
            a,
            b,
            result,
            memo_after,
        ),
    ensures
        result == Ok::<Parts, PipelineFault>(untouched(ctx)),
        memo_after == memo,
{
}

/// A conversion reads the member model: where one of the two formats has a
/// place for a model in the body, what is handed to the converter is the
/// inbound document with the member model in it, unless the inbound body named
/// that already.
pub proof fn conversions_see_the_member_model(
    source: OperationKey,
    target: OperationKey,
    model: Seq<char>,
    named: Option<Seq<char>>,
    body: Seq<u8>,
    request: Map<Seq<char>, Json>,
)
    requires
        may_name_model(source, target, model),
        named != Some(model),
        json_document(body) == Ok::<Json, Seq<char>>(Json::Object(request)),
    ensures
        inbound_body(source, target, model, named, body) == Ok::<Seq<u8>, PipelineFault>(
            json_text(Json::Object(request.insert("model"@, Json::Text(model)))),
        ),
{
}

/// A request that is passed through in a format that keeps the model in the
/// path goes out with the body that it came with.
pub proof fn path_models_leave_the_body(
    ctx: RequestCtx,
    op: OperationKey,
    model: Seq<char>,
    memo: Memo,
    a: Replies,
)
    requires
        !carries_model(op.kind),
    ensures
        passthrough_built(ctx, op, model, memo, a).parts matches Ok(parts) && parts.body == octets(
            ctx.body,
        ),
{
}

/// A request that is passed through in a format with the model in the body
/// reads, at the upstream, as the client's document with the member model,
/// unless it named that already, and with the request for usage where it
/// streams chat completions. A document with a real close to the largest ones
/// is left out.
pub proof fn passed_requests_read_as_asked<W: Wire>(
    wire: &W,
    ctx: RequestCtx,
    model: Seq<char>,
    rules: Option<&[W::Rule]>,
    memo: Memo,
    a: Replies,
    b: RuleReplies,
    result: Result<Parts, PipelineFault>,
    memo_after: Memo,
    request: Map<Seq<char>, Json>,
)
    requires
        ctx.op is Some,
        !has_rules(rules),
        is_outcome(
            wire,
            ctx,
            model,
            TransformPlan::Passthrough,
            rules,
            memo,
            false,
            a,
            b,
            result,
            memo_after,
        ),
        carries_model(ctx.op->0.kind),
        json_document(octets(ctx.body)) == Ok::<Json, Seq<char>>(Json::Object(request)),
        Json::Object(request).is_readable(),
    ensures
        result is Ok,
        json_document(result->Ok_0.body) is Ok,
        reads_as_patched(
            json_document(result->Ok_0.body)->Ok_0,
            request,
            if passthrough_rewrites(ctx.op->0, model, memo.model(a.peeked)) {
                Some(model)
            } else {
                None
            },
            None,
            ctx.stream && is_chat(ctx.op->0.kind),
        ),
{
    let usage = ctx.stream && is_chat(ctx.op->0.kind);
    let renames = passthrough_rewrites(ctx.op->0, model, memo.model(a.peeked));
    let sent = json_document(result->Ok_0.body)->Ok_0;
    if renames {
        reading_shows_the_patch(request, Some(model), None, usage, sent);
    } else if usage {
        reading_shows_the_patch(request, None, None, true, sent);
    } else {
        an_unpatched_object_reads_as_itself(request);
    }
}

/// Passing a request through never sets its stream flag: the client's own
/// stands.
pub proof fn passthrough_keeps_the_stream_flag(
    ctx: RequestCtx,
    op: OperationKey,
    model: Seq<char>,
    memo: Memo,
    a: Replies,
    request: Map<Seq<char>, Json>,
)
    requires
        json_document(octets(ctx.body)) == Ok::<Json, Seq<char>>(Json::Object(request)),
    ensures
        passthrough_built(ctx, op, model, memo, a).parts matches Ok(parts) && (parts.body == octets(
            ctx.body,
        ) || exists|after: Json| #[trigger]
            json_text(after) == parts.body && after.get("stream"@) == Json::Object(request).get(
                "stream"@,
            )),
{
    patched_keys();
    let usage = ctx.stream && is_chat(op.kind);
    let renamed = patched(Json::Object(request), Some(model), None, usage);
    let counted = patched(Json::Object(request), None, None, true);
    assert(json_text(renamed) == json_text(renamed));
    assert(json_text(counted) == json_text(counted));
}

/// A converted body asks the upstream for what the client wants. Where the
/// client streams content it asks for a stream, and for the usage chunk where
/// that is one of chat completions. It names the member model where the
/// client's format had no place for it. Otherwise it is what the converter
/// wrote.
pub proof fn converted_bodies_ask_for_what_the_client_wants(
    source: OperationKey,
    target: OperationKey,
    model: Seq<char>,
    stream: bool,
    body: Seq<u8>,
    request: Map<Seq<char>, Json>,
)
    requires
        carries_model(target.kind),
        json_document(body) == Ok::<Json, Seq<char>>(Json::Object(request)),
    ensures
        stream && target.operation.generates_content() ==> transformed_body(
            body,
            source,
            target,
            model,
            stream,
        ) == Ok::<Seq<u8>, PipelineFault>(
            json_text(
                patched(
                    Json::Object(request),
                    late_model(source, model),
                    Some(true),
                    is_chat(target.kind),
                ),
            ),
        ),
        !stream && late_model(source, model) is Some ==> transformed_body(
            body,
            source,
            target,
            model,
            stream,
        ) == Ok::<Seq<u8>, PipelineFault>(
            json_text(Json::Object(request.insert("model"@, Json::Text(model)))),
        ),
        !stream && late_model(source, model) is None ==> transformed_body(
            body,
            source,
            target,
            model,
            stream,
        ) == Ok::<Seq<u8>, PipelineFault>(body),
{
}

/// The parts go to `endpoint`.
pub open spec fn goes_to(parts: Parts, endpoint: Endpoint) -> bool {
    parts.method == endpoint.method && parts.path == endpoint.path && parts.query == endpoint.query
}

/// A request that is converted now goes to the endpoint of the target and
/// reads, there, as what the converter wrote with what the client wants: the
/// stream flag where content is streamed, the request for usage where that is a
/// stream of chat completions, and the member model where the client's format
/// had no place for it. A converted document with a real close to the largest
/// ones is left out.
pub proof fn converted_requests_read_as_asked<W: Wire>(
    wire: &W,
    ctx: RequestCtx,
    model: Seq<char>,
    request_pair: TransformPair,
    response_pair: TransformPair,
    source: OperationKey,
    target: OperationKey,
    rules: Option<&[W::Rule]>,
    memo: Memo,
    preserve_raw_body: bool,
    a: Replies,
    b: RuleReplies,
    result: Result<Parts, PipelineFault>,
    memo_after: Memo,
    body: Seq<u8>,
    request: Map<Seq<char>, Json>,
)
    requires
        !has_rules(rules),
        is_outcome(
            wire,
            ctx,
            model,
            TransformPlan::Transform { request_pair, response_pair, source, target },
            rules,
            memo,
            preserve_raw_body,
            a,
            b,
            result,
            memo_after,
        ),
        target.operation.carries_body(),
        carries_model(target.kind),
        !memo.bodies.contains_key((target, model)),
        leg_body(ctx, Some(request_pair), source, target, model, memo, a) == Ok::<
            Seq<u8>,
            PipelineFault,
        >(body),
        json_document(body) == Ok::<Json, Seq<char>>(Json::Object(request)),
        Json::Object(request).is_readable(),
    ensures
        result is Ok,
        locates(wire, target, model, ctx.stream, a.endpoint),
        goes_to(result->Ok_0, a.endpoint),
        json_document(result->Ok_0.body) is Ok,
        reads_as_patched(
            json_document(result->Ok_0.body)->Ok_0,
            request,
            late_model(source, model),
            if ctx.stream && target.operation.generates_content() {
                Some(true)
            } else {
                None
            },
            ctx.stream && is_chat(target.kind),
        ),
{
    let late = late_model(source, model);
    let set_stream = ctx.stream && target.operation.generates_content();
    let usage = ctx.stream && is_chat(target.kind);
    let flag: Option<bool> = if set_stream {
        Some(true)
    } else {
        None
    };
    let sent = json_document(result->Ok_0.body)->Ok_0;
    if late is Some || set_stream || usage {
        reading_shows_the_patch(request, late, flag, usage, sent);
    } else {
        an_unpatched_object_reads_as_itself(request);
    }
}

/// Whether the client streams makes no difference where the stream is made or
/// collapsed on the way back, and the body says what the upstream is to do.
pub proof fn restreaming_decides_the_stream(
    ctx: RequestCtx,
    other: RequestCtx,
    pair: Option<TransformPair>,
    source: OperationKey,
    target: OperationKey,
    model: Seq<char>,
    memo: Memo,
    stream: bool,
    a: Replies,
    request: Map<Seq<char>, Json>,
)
    requires
        octets(ctx.body) == octets(other.body),
        carries_model(target.kind),
        leg_body(ctx, pair, source, target, model, memo, a) is Ok,
        json_document(leg_body(ctx, pair, source, target, model, memo, a)->Ok_0) == Ok::<
            Json,
            Seq<char>,
        >(Json::Object(request)),
    ensures
        restreamed_built(ctx, pair, source, target, model, memo, stream, a) == restreamed_built(
            other,
            pair,
            source,
            target,
            model,
            memo,
            stream,
            a,
        ),
        restreamed_body(ctx, pair, source, target, model, memo, stream, a) matches Ok(body)
            && exists|after: Json| #[trigger]
            json_text(after) == body && after.get("stream"@) == Some(Json::Bool(stream)),
{
    patched_keys();
    let late = late_model(source, model);
    let usage = stream && is_chat(target.kind);
    let after = patched(Json::Object(request), late, Some(stream), usage);
    assert(json_text(after) == json_text(after));
}

/// What a request reads as where the stream is made or collapsed on the way
/// back and nothing is converted.
proof fn restreamed_reads_as_asked<W: Wire>(
    wire: &W,
    ctx: RequestCtx,
    source: OperationKey,
    target: OperationKey,
    model: Seq<char>,
    memo: Memo,
    stream: bool,
    a: Replies,
    request: Map<Seq<char>, Json>,
)
    requires
        restreamed_answered(wire, ctx, None, source, target, model, memo, stream, a),
        source.kind == target.kind,
        carries_model(target.kind),
        json_document(octets(ctx.body)) == Ok::<Json, Seq<char>>(Json::Object(request)),
        Json::Object(request).is_moderate(),
    ensures
        ({
            let parts = restreamed_built(
                ctx,
                None,
                source,
                target,
                model,
                memo,
                stream,
                a,
            ).parts;
            &&& parts is Ok
            &&& locates(wire, target, model, stream, a.endpoint)
            &&& goes_to(parts->Ok_0, a.endpoint)
            &&& json_document(parts->Ok_0.body) is Ok
            &&& reads_as_patched(
                json_document(parts->Ok_0.body)->Ok_0,
                request,
                if model.len() > 0 && memo.model(a.peeked) != Some(model) {
                    Some(model)
                } else {
                    None
                },
                Some(stream),
                stream && is_chat(target.kind),
            )
        }),
{
    let usage = stream && is_chat(target.kind);
    let before = Json::Object(request);
    legible_within_more(before, max_depth(), 2000, 2016);
    let body = restreamed_body(ctx, None, source, target, model, memo, stream, a);
    let sent = json_document(body->Ok_0)->Ok_0;
    if model.len() > 0 && memo.model(a.peeked) != Some(model) {
        let renamed = patched(before, Some(model), None, false);
        let middle = json_document(json_text(renamed))->Ok_0;
        let after = patched(middle, None, Some(stream), usage);
        let full = patched(before, Some(model), Some(stream), usage);
        patches_compose(before, Some(model), Some(stream), usage);
        patches_respect_likeness(renamed, middle, None, Some(stream), usage, max_depth());
        like_is_transitive(full, after, sent, max_depth());
        if full.is_exact() {
            like_without_reals_is_same(full, sent, max_depth());
        }
        reading_shows_the_patch(request, Some(model), Some(stream), usage, sent);
    } else {
        reading_shows_the_patch(request, None, Some(stream), usage, sent);
    }
}

/// A request for a stream that is made on the way back asks, where nothing is
/// converted, for an answer in one piece and otherwise for what the client
/// asked; whether the client's own flag says so makes no difference. A document
/// with a real close to the largest ones is left out.
pub proof fn synthesized_requests_read_as_asked<W: Wire>(
    wire: &W,
    ctx: RequestCtx,
    model: Seq<char>,
    response_pair: Option<TransformPair>,
    source: OperationKey,
    target: OperationKey,
    rules: Option<&[W::Rule]>,
    memo: Memo,
    preserve_raw_body: bool,
    a: Replies,
    b: RuleReplies,
    result: Result<Parts, PipelineFault>,
    memo_after: Memo,
    request: Map<Seq<char>, Json>,
)
    requires
        !has_rules(rules),
        is_outcome(
            wire,
            ctx,
            model,
            TransformPlan::SynthesizeStream { request_pair: None, response_pair, source, target },
            rules,
            memo,
            preserve_raw_body,
            a,
            b,
            result,
            memo_after,
        ),
        source.kind == target.kind,
        carries_model(target.kind),
        json_document(octets(ctx.body)) == Ok::<Json, Seq<char>>(Json::Object(request)),
        Json::Object(request).is_moderate(),
    ensures
        result is Ok,
        locates(wire, target, model, false, a.endpoint),
        goes_to(result->Ok_0, a.endpoint),
        json_document(result->Ok_0.body) is Ok,
        reads_as_patched(
            json_document(result->Ok_0.body)->Ok_0,
            request,
            if model.len() > 0 && memo.model(a.peeked) != Some(model) {
                Some(model)
            } else {
                None
            },
            Some(false),
            false,
        ),
{
    restreamed_reads_as_asked(wire, ctx, source, target, model, memo, false, a, request);
}

/// A request for an answer that is collapsed on the way back asks, where
/// nothing is converted, for a stream, with usage where that is one of chat
/// completions, and otherwise for what the client asked; whether the client's
/// own flag says so makes no difference. A document with a real close to the
/// largest ones is left out.
pub proof fn aggregated_requests_read_as_asked<W: Wire>(
    wire: &W,
    ctx: RequestCtx,
    model: Seq<char>,
    response_pair: Option<TransformPair>,
    source: OperationKey,
    target: OperationKey,
    rules: Option<&[W::Rule]>,
    memo: Memo,
    preserve_raw_body: bool,
    a: Replies,
    b: RuleReplies,
    result: Result<Parts, PipelineFault>,
    memo_after: Memo,
    request: Map<Seq<char>, Json>,
)
    requires
        !has_rules(rules),
        is_outcome(
            wire,
            ctx,
            model,
            TransformPlan::AggregateStream { request_pair: None, response_pair, source, target },
            rules,
            memo,
            preserve_raw_body,
            a,
            b,
            result,
            memo_after,
        ),
        source.kind == target.kind,
        carries_model(target.kind),
        json_document(octets(ctx.body)) == Ok::<Json, Seq<char>>(Json::Object(request)),
        Json::Object(request).is_moderate(),
    ensures
        result is Ok,
        locates(wire, target, model, true, a.endpoint),
        goes_to(result->Ok_0, a.endpoint),
        json_document(result->Ok_0.body) is Ok,
        reads_as_patched(
            json_document(result->Ok_0.body)->Ok_0,
            request,
            if model.len() > 0 && memo.model(a.peeked) != Some(model) {
                Some(model)
            } else {
                None
            },
            Some(true),
            is_chat(target.kind),
        ),
{
    restreamed_reads_as_asked(wire, ctx, source, target, model, memo, true, a, request);
}

/// What a converted request reads as where the stream is made (`stream` is
/// false) or collapsed (`stream` is true) on the way back: what the converter
/// wrote, with the stream flag, with the request for usage where a stream of
/// chat completions is asked for, and with the member model where the client's
/// format had no place for it.
pub proof fn restreamed_conversions_read_as_asked<W: Wire>(
    wire: &W,
    ctx: RequestCtx,
    pair: TransformPair,
    source: OperationKey,
    target: OperationKey,
    model: Seq<char>,
    memo: Memo,
    stream: bool,
    a: Replies,
    body: Seq<u8>,
    request: Map<Seq<char>, Json>,
)
    requires
        restreamed_answered(wire, ctx, Some(pair), source, target, model, memo, stream, a),
        carries_model(target.kind),
        leg_body(ctx, Some(pair), source, target, model, memo, a) == Ok::<Seq<u8>, PipelineFault>(
            body,
        ),
        json_document(body) == Ok::<Json, Seq<char>>(Json::Object(request)),
        Json::Object(request).is_readable(),
    ensures
        ({
            let parts = restreamed_built(
                ctx,
                Some(pair),
                source,
                target,
                model,
                memo,
                stream,
                a,
            ).parts;
            &&& parts is Ok
            &&& locates(wire, target, model, stream, a.endpoint)
            &&& goes_to(parts->Ok_0, a.endpoint)
            &&& json_document(parts->Ok_0.body) is Ok
            &&& reads_as_patched(
                json_document(parts->Ok_0.body)->Ok_0,
                request,
                late_model(source, model),
                Some(stream),
                stream && is_chat(target.kind),
            )
        }),
{
    let sent = restreamed_body(ctx, Some(pair), source, target, model, memo, stream, a);
    reading_shows_the_patch(
        request,
        late_model(source, model),
        Some(stream),
        stream && is_chat(target.kind),
        json_document(sent->Ok_0)->Ok_0,
    );
}

} // verus!
