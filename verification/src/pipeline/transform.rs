//! Builds the request that goes to an upstream for one attempt.

use crate::pipeline::error::{PipelineError, PipelineFault};
use crate::pipeline::memo::{AttemptMemo, Memo};
use crate::pipeline::patch::{
    body_carries_model, bytes_result, is_openai_chat, merge_query, patch_body, patch_reads_back,
};
use crate::pipeline::plan::{TransformPair, TransformPlan};
use crate::pipeline::request::{
    aggregated_body, aggregated_body_reads_back, answered, built, forward, inbound_body, is_outcome, late_model, leg_answered,
    leg_body, may_name_model, memo_after_inbound, models_answered, models_built, parts_result,
    parts_to, passthrough_answered, passthrough_built, restreamed_answered, restreamed_built,
    ruled, rules_answered, synthesized_body, synthesized_body_reads_back, transform_answered,
    transform_built, transformed_body, transformed_body_reads_back, Built, Candidate, Parts, Replies, RequestCtx, RequestParts, RuleReplies,
};
use crate::pipeline::wire::{
    converted, converts_request, finds_in_path, lists, locates, peeks, rewrites, Endpoint,
    TransformContext, Wire,
};
use crate::protocol::{Operation, OperationKey, OperationKind};
use crate::text::{optional, optional_str, same};
use crate::transport::{clone_headers, fields, octets};
use bytes::Bytes;
use vstd::prelude::*;

verus! {

/// The query as a string slice.
fn borrowed(query: &Option<String>) -> (r: Option<&str>)
    ensures
        optional_str(r) == optional(*query),
{
    match query {
        Some(q) => Some(q.as_str()),
        None => None,
    }
}

/// Whether the inbound body names another model than `model`, or none.
fn names_another<W: Wire>(
    wire: &W,
    ctx: &RequestCtx,
    model: &str,
    memo: &mut AttemptMemo,
) -> (r: (bool, Ghost<Option<Seq<char>>>))
    ensures
        old(memo)@.inbound is None ==> peeks(wire, ctx.body, r.1@),
        r.0 == (old(memo)@.model(r.1@) != Some(model@)),
        final(memo)@ == old(memo)@.asked(r.1@),
{
    let named = memo.inbound_model(wire, &ctx.body);
    let ghost answer = optional(named);
    let another = match named {
        Some(n) => !same(n.as_str(), model),
        None => true,
    };
    (another, Ghost(answer))
}

/// The body that a conversion reads.
fn prepare_inbound<W: Wire>(
    wire: &W,
    ctx: &RequestCtx,
    model: &str,
    source: OperationKey,
    target: OperationKey,
    memo: &mut AttemptMemo,
) -> (r: (Result<Bytes, PipelineError>, Ghost<Option<Seq<char>>>))
    ensures
        may_name_model(source, target, model@) && old(memo)@.inbound is None ==> peeks(
            wire,
            ctx.body,
            r.1@,
        ),
        may_name_model(source, target, model@) && old(memo)@.model(r.1@) != Some(model@)
            ==> patch_reads_back(octets(ctx.body), Some(model@), None, false),
        bytes_result(r.0) == inbound_body(
            source,
            target,
            model@,
            old(memo)@.model(r.1@),
            octets(ctx.body),
        ),
        final(memo)@ == memo_after_inbound(source, target, model@, old(memo)@, r.1@),
{
    if (body_carries_model(source.kind) || body_carries_model(target.kind)) && !model.is_empty() {
        let (another, Ghost(answer)) = names_another(wire, ctx, model, memo);
        if another {
            (patch_body(&ctx.body, Some(model), None, false), Ghost(answer))
        } else {
            (Ok(ctx.body.clone()), Ghost(answer))
        }
    } else {
        (Ok(ctx.body.clone()), Ghost(None))
    }
}

/// The body that comes out of a conversion, where there is one.
fn convert<W: Wire>(
    wire: &W,
    ctx: &RequestCtx,
    pair: Option<TransformPair>,
    from: OperationKey,
    source: OperationKey,
    target: OperationKey,
    model: &str,
    memo: &mut AttemptMemo,
) -> (r: (Result<Bytes, PipelineError>, Ghost<Replies>))
    ensures
        leg_answered(wire, *ctx, pair, from, source, target, model@, old(memo)@, r.1@),
        bytes_result(r.0) == leg_body(*ctx, pair, source, target, model@, old(memo)@, r.1@),
        final(memo)@ == memo_after_inbound(source, target, model@, old(memo)@, r.1@.peeked),
{
    let (inbound, Ghost(peeked)) = prepare_inbound(wire, ctx, model, source, target, memo);
    let ghost a = Replies {
        peeked,
        endpoint: arbitrary(),
        listing: None,
        converted: Err(arbitrary()),
    };
    let inbound = match inbound {
        Ok(body) => body,
        Err(e) => {
            return (Err(e), Ghost(a));
        },
    };
    match pair {
        Some(pair) => {
            let context = TransformContext::new(from, target).with_request(
                ctx.path.as_str(),
                borrowed(&ctx.query),
            );
            let answer = wire.request_bytes(pair, &context, &inbound);
            let ghost a = Replies { converted: converted(answer), ..a };
            assert(converts_request(
                wire,
                pair,
                forward(*ctx, from, target),
                octets(inbound),
                a.converted,
            ));
            match answer {
                Ok(body) => (Ok(Bytes::from(body)), Ghost(a)),
                Err(e) => (Err(PipelineError::TransformRequest(e)), Ghost(a)),
            }
        },
        None => (Ok(inbound), Ghost(a)),
    }
}

/// The request that is passed through.
fn pass_through<W: Wire>(
    wire: &W,
    ctx: &RequestCtx,
    op: OperationKey,
    model: &str,
    memo: &mut AttemptMemo,
) -> (r: (Result<RequestParts, PipelineError>, Ghost<Replies>))
    ensures
        passthrough_answered(wire, *ctx, op, model@, old(memo)@, r.1@),
        parts_result(r.0) == passthrough_built(*ctx, op, model@, old(memo)@, r.1@).parts,
        final(memo)@ == passthrough_built(*ctx, op, model@, old(memo)@, r.1@).memo,
{
    let include_usage = ctx.stream && is_openai_chat(op.kind);
    let asks = op.operation.has_request_body() && !model.is_empty();
    let (rewrite, Ghost(peeked)) = if asks {
        names_another(wire, ctx, model, memo)
    } else {
        (false, Ghost(None))
    };
    let ghost a = Replies {
        peeked,
        endpoint: arbitrary(),
        listing: None,
        converted: Err(arbitrary()),
    };
    let method = ctx.method.clone();
    if rewrite && !body_carries_model(op.kind) {
        let t = wire.request_target(op, model, ctx.stream);
        let ghost a = Replies { endpoint: t@, ..a };
        assert(locates(wire, op, model@, ctx.stream, a.endpoint));
        let query = match t.query {
            Some(extra) => Some(merge_query(borrowed(&ctx.query), extra.as_str())),
            None => ctx.query.clone(),
        };
        let parts = RequestParts {
            method,
            path: t.path,
            query,
            body: ctx.body.clone(),
            headers: None,
        };
        return (Ok(parts), Ghost(a));
    }
    let body = if rewrite {
        patch_body(&ctx.body, Some(model), None, include_usage)
    } else if include_usage {
        patch_body(&ctx.body, None, None, true)
    } else {
        Ok(ctx.body.clone())
    };
    match body {
        Ok(body) => {
            let parts = RequestParts {
                method,
                path: ctx.path.clone(),
                query: ctx.query.clone(),
                body,
                headers: None,
            };
            (Ok(parts), Ghost(a))
        },
        Err(e) => (Err(e), Ghost(a)),
    }
}

/// The model to set in the converted body.
fn model_to_set(source: OperationKey, model: &str) -> (r: Option<&str>)
    ensures
        optional_str(r) == late_model(source, model@),
{
    if !body_carries_model(source.kind) && !model.is_empty() {
        Some(model)
    } else {
        None
    }
}

/// The body to send after a plain conversion: with the model where the source
/// format had no place for it, and with the flags of a stream.
pub fn finish_transformed(
    body: Bytes,
    source: OperationKey,
    target: OperationKey,
    model: &str,
    stream: bool,
) -> (r: Result<Bytes, PipelineError>)
    ensures
        bytes_result(r) == transformed_body(octets(body), source, target, model@, stream),
        transformed_body_reads_back(octets(body), source, target, model@, stream),
{
    if body_carries_model(target.kind) {
        let model = model_to_set(source, model);
        // Only content generations have a stream flag.
        let set_stream = stream && target.operation.is_content_generation();
        let include_usage = stream && is_openai_chat(target.kind);
        if model.is_some() || set_stream || include_usage {
            let flag = if set_stream {
                Some(true)
            } else {
                None
            };
            return patch_body(&body, model, flag, include_usage);
        }
    }
    Ok(body)
}

/// The body to send where the upstream answers in one piece.
pub fn finish_synthesized(
    body: Bytes,
    source: OperationKey,
    target: OperationKey,
    model: &str,
) -> (r: Result<Bytes, PipelineError>)
    ensures
        bytes_result(r) == synthesized_body(octets(body), source, target, model@),
        synthesized_body_reads_back(octets(body), source, target, model@),
{
    if body_carries_model(target.kind) {
        patch_body(&body, model_to_set(source, model), Some(false), false)
    } else {
        Ok(body)
    }
}

/// The body to send where the upstream answers with a stream.
pub fn finish_aggregated(
    body: Bytes,
    source: OperationKey,
    target: OperationKey,
    model: &str,
) -> (r: Result<Bytes, PipelineError>)
    ensures
        bytes_result(r) == aggregated_body(octets(body), source, target, model@),
        aggregated_body_reads_back(octets(body), source, target, model@),
{
    if body_carries_model(target.kind) {
        patch_body(
            &body,
            model_to_set(source, model),
            Some(true),
            is_openai_chat(target.kind),
        )
    } else {
        Ok(body)
    }
}

/// The request for models.
fn models_request<W: Wire>(
    wire: &W,
    ctx: &RequestCtx,
    pair: TransformPair,
    source: OperationKey,
    target: OperationKey,
    model: &str,
    Ghost(memo): Ghost<Memo>,
) -> (r: (RequestParts, Ghost<Replies>))
    ensures
        models_answered(wire, *ctx, pair, source, target, model@, r.1@),
        models_built(*ctx, target, memo, r.1@).parts == Ok::<Parts, PipelineFault>(r.0@),
{
    let t = wire.request_target(target, model, ctx.stream);
    let ghost endpoint = t@;
    assert(locates(wire, target, model@, ctx.stream, endpoint));
    let context = TransformContext::new(source, target).with_request(
        ctx.path.as_str(),
        borrowed(&ctx.query),
    );
    let listing = wire.list_query(pair, &context);
    let ghost listed = optional(listing);
    assert(lists(wire, pair, forward(*ctx, source, target), listed));
    let ghost a = Replies { peeked: None, endpoint, listing: listed, converted: Err(arbitrary()) };
    let query = match (t.query, listing) {
        (Some(base), Some(extra)) => Some(merge_query(Some(base.as_str()), extra.as_str())),
        (None, Some(extra)) => Some(extra),
        (base, None) => base,
    };
    let parts = RequestParts {
        method: t.method,
        path: t.path,
        query,
        body: ctx.body.clone(),
        headers: None,
    };
    (parts, Ghost(a))
}

/// The parts of a request with `body` to where `target` lives.
fn send_to<W: Wire>(
    wire: &W,
    target: OperationKey,
    model: &str,
    stream: bool,
    body: Bytes,
) -> (r: (RequestParts, Ghost<Endpoint>))
    ensures
        locates(wire, target, model@, stream, r.1@),
        parts_to(r.1@, Ok(octets(body))) == Ok::<Parts, PipelineFault>(r.0@),
{
    let t = wire.request_target(target, model, stream);
    let ghost endpoint = t@;
    let parts = RequestParts {
        method: t.method,
        path: t.path,
        query: t.query,
        body,
        headers: None,
    };
    (parts, Ghost(endpoint))
}

/// The converted request.
fn transform_request<W: Wire>(
    wire: &W,
    ctx: &RequestCtx,
    pair: TransformPair,
    source: OperationKey,
    target: OperationKey,
    model: &str,
    memo: &mut AttemptMemo,
) -> (r: (Result<RequestParts, PipelineError>, Ghost<Replies>))
    ensures
        transform_answered(wire, *ctx, pair, source, target, model@, old(memo)@, r.1@),
        parts_result(r.0) == transform_built(
            *ctx,
            pair,
            source,
            target,
            model@,
            old(memo)@,
            r.1@,
        ).parts,
        final(memo)@ == transform_built(
            *ctx,
            pair,
            source,
            target,
            model@,
            old(memo)@,
            r.1@,
        ).memo,
{
    let ghost mut a = Replies {
        peeked: None,
        endpoint: arbitrary(),
        listing: None,
        converted: Err(arbitrary()),
    };
    let body = match memo.body(target, model) {
        Some(body) => body,
        None => {
            let (leg, Ghost(answers)) = convert(
                wire,
                ctx,
                Some(pair),
                source,
                source,
                target,
                model,
                memo,
            );
            proof {
                a = answers;
            }
            let body = match leg {
                Ok(body) => body,
                Err(e) => {
                    return (Err(e), Ghost(a));
                },
            };
            match finish_transformed(body, source, target, model, ctx.stream) {
                Ok(body) => {
                    memo.remember(target, model, &body);
                    body
                },
                Err(e) => {
                    return (Err(e), Ghost(a));
                },
            }
        },
    };
    let (parts, Ghost(endpoint)) = send_to(wire, target, model, ctx.stream, body);
    (Ok(parts), Ghost(Replies { endpoint, ..a }))
}

/// The request to an upstream that streams although the client does not, or
/// the other way round.
fn restream_request<W: Wire>(
    wire: &W,
    ctx: &RequestCtx,
    pair: Option<TransformPair>,
    source: OperationKey,
    target: OperationKey,
    model: &str,
    memo: &mut AttemptMemo,
    stream: bool,
) -> (r: (Result<RequestParts, PipelineError>, Ghost<Replies>))
    ensures
        restreamed_answered(wire, *ctx, pair, source, target, model@, old(memo)@, stream, r.1@),
        parts_result(r.0) == restreamed_built(
            *ctx,
            pair,
            source,
            target,
            model@,
            old(memo)@,
            stream,
            r.1@,
        ).parts,
        final(memo)@ == restreamed_built(
            *ctx,
            pair,
            source,
            target,
            model@,
            old(memo)@,
            stream,
            r.1@,
        ).memo,
{
    let from = if stream {
        source
    } else {
        OperationKey { operation: Operation::GenerateContent, kind: source.kind }
    };
    let (leg, Ghost(a)) = convert(wire, ctx, pair, from, source, target, model, memo);
    let body = match leg {
        Ok(body) => body,
        Err(e) => {
            return (Err(e), Ghost(a));
        },
    };
    let finished = if stream {
        finish_aggregated(body, source, target, model)
    } else {
        finish_synthesized(body, source, target, model)
    };
    let body = match finished {
        Ok(body) => body,
        Err(e) => {
            return (Err(e), Ghost(a));
        },
    };
    let (parts, Ghost(endpoint)) = send_to(wire, target, model, stream, body);
    (Ok(parts), Ghost(Replies { endpoint, ..a }))
}

/// The request as `plan` leaves it, and the operation that it asks for.
fn build<W: Wire>(
    wire: &W,
    ctx: &RequestCtx,
    op: OperationKey,
    model: &str,
    plan: &TransformPlan,
    memo: &mut AttemptMemo,
    preserve_raw_body: bool,
) -> (r: (Result<RequestParts, PipelineError>, OperationKey, Ghost<Replies>))
    requires
        ctx.op == Some(op),
    ensures
        answered(wire, *ctx, model@, *plan, old(memo)@, preserve_raw_body, r.2@),
        (Built { parts: parts_result(r.0), key: r.1, memo: final(memo)@ }) == built(
            *ctx,
            model@,
            *plan,
            old(memo)@,
            preserve_raw_body,
            r.2@,
        ),
{
    match *plan {
        TransformPlan::Local => (Err(PipelineError::LocalUnimplemented), op, Ghost(arbitrary())),
        TransformPlan::Passthrough => {
            if preserve_raw_body {
                let parts = RequestParts {
                    method: ctx.method.clone(),
                    path: ctx.path.clone(),
                    query: ctx.query.clone(),
                    body: ctx.body.clone(),
                    headers: None,
                };
                (Ok(parts), op, Ghost(arbitrary()))
            } else {
                let (parts, a) = pass_through(wire, ctx, op, model, memo);
                (parts, op, a)
            }
        },
        TransformPlan::Transform { request_pair, source, target, .. } => {
            if !target.operation.has_request_body() {
                let ghost before = memo@;
                let (parts, a) = models_request(
                    wire,
                    ctx,
                    request_pair,
                    source,
                    target,
                    model,
                    Ghost(before),
                );
                (Ok(parts), target, a)
            } else {
                let (parts, a) = transform_request(
                    wire,
                    ctx,
                    request_pair,
                    source,
                    target,
                    model,
                    memo,
                );
                (parts, target, a)
            }
        },
        TransformPlan::SynthesizeStream { request_pair, source, target, .. } => {
            let (parts, a) = restream_request(
                wire,
                ctx,
                request_pair,
                source,
                target,
                model,
                memo,
                false,
            );
            (parts, target, a)
        },
        TransformPlan::AggregateStream { request_pair, source, target, .. } => {
            let (parts, a) = restream_request(
                wire,
                ctx,
                request_pair,
                source,
                target,
                model,
                memo,
                true,
            );
            (parts, target, a)
        },
    }
}

/// The request after the rules.
fn run_rules<W: Wire>(
    wire: &W,
    ctx: &RequestCtx,
    model: &str,
    rules: &[W::Rule],
    parts: RequestParts,
    key: OperationKey,
    memo: &mut AttemptMemo,
) -> (r: (RequestParts, Ghost<RuleReplies>))
    ensures
        ({
            let before = Built { parts: Ok(parts@), key, memo: old(memo)@ };
            &&& rules_answered(wire, *ctx, model@, rules, before, r.1@)
            &&& ruled(before, r.1@) == (Built { parts: Ok(r.0@), key, memo: final(memo)@ })
        }),
{
    let kind = match key.kind {
        OperationKind::ContentGeneration(kind) => Some(kind),
        OperationKind::Provider(_) => None,
    };
    let named = memo.inbound_model(wire, &ctx.body);
    let ghost peeked = optional(named);
    let ghost mut path_model: Option<Seq<char>> = None;
    let filter = match named {
        Some(named) => named,
        None => {
            let found = wire.path_model_id(ctx.path.as_str());
            proof {
                path_model = optional(found);
                assert(finds_in_path(wire, ctx.path@, path_model));
            }
            match found {
                Some(found) => found,
                None => model.to_owned(),
            }
        },
    };
    let headers = clone_headers(&ctx.headers);
    let ghost body_before = octets(parts.body);
    let (headers, body) = wire.apply_rules(rules, key, kind, filter.as_str(), headers, parts.body);
    let ghost b = RuleReplies { peeked, path_model, rewritten: (fields(headers), octets(body)) };
    assert(rewrites(
        wire,
        rules,
        key,
        kind,
        filter@,
        (fields(ctx.headers), body_before),
        b.rewritten,
    ));
    let after = RequestParts {
        method: parts.method,
        path: parts.path,
        query: parts.query,
        body,
        headers: Some(headers),
    };
    (after, Ghost(b))
}

/// The request for one candidate: the model is rewritten first, so that a
/// conversion sees the real one; then the body is converted, once per target
/// and model; then the endpoint is filled in; and at the end the rules act on
/// the provider-native request.
pub fn request_parts<W: Wire>(
    wire: &W,
    ctx: &RequestCtx,
    cand: &Candidate,
    plan: &TransformPlan,
    rules: Option<&[W::Rule]>,
    memo: &mut AttemptMemo,
    preserve_raw_body: bool,
) -> (r: Result<RequestParts, PipelineError>)
    requires
        ctx.op is Some,
    ensures
        exists|a: Replies, b: RuleReplies| #[trigger]
            is_outcome(
                wire,
                *ctx,
                cand.upstream_model_id@,
                *plan,
                rules,
                old(memo)@,
                preserve_raw_body,
                a,
                b,
                parts_result(r),
                final(memo)@,
            ),
{
    let op = ctx.op.expect("classified before failover");
    let model = cand.upstream_model_id.as_str();
    let (parts, key, Ghost(a)) = build(wire, ctx, op, model, plan, memo, preserve_raw_body);
    let ghost mut b: RuleReplies = arbitrary();
    let r = match (parts, rules) {
        (Ok(parts), Some(rules)) => if rules.len() > 0 {
            let (parts, Ghost(answers)) = run_rules(wire, ctx, model, rules, parts, key, memo);
            proof {
                b = answers;
            }
            Ok(parts)
        } else {
            Ok(parts)
        },
        (parts, _) => parts,
    };
    assert(is_outcome(
        wire,
        *ctx,
        cand.upstream_model_id@,
        *plan,
        rules,
        old(memo)@,
        preserve_raw_body,
        a,
        b,
        parts_result(r),
        memo@,
    ));
    r
}

} // verus!
