//! A request on its way to an upstream: what each plan makes of it.

use crate::pipeline::error::{PipelineError, PipelineFault, TransformFault};
use crate::pipeline::memo::Memo;
use crate::pipeline::patch::{carries_model, is_chat, merged, patch, patch_reads_back};
use crate::pipeline::plan::{TransformPair, TransformPlan};
use crate::pipeline::wire::{
    converts_request, finds_in_path, lists, locates, peeks, rewrites, Conversion, Endpoint, Wire,
};
use crate::protocol::{ContentGenerationKind, Operation, OperationKey, OperationKind};
use crate::text::optional;
use crate::transport::{fields, method_name, octets};
use bytes::Bytes;
use http::{HeaderMap, HeaderValue, Method};
use vstd::prelude::*;

verus! {

/// An inbound request.
pub struct RequestCtx {
    pub method: Method,
    pub path: String,
    pub query: Option<String>,
    pub headers: HeaderMap<HeaderValue>,
    pub body: Bytes,
    /// The operation, once the request has been classified.
    pub op: Option<OperationKey>,
    pub stream: bool,
}

/// An upstream that the request may go to.
pub struct Candidate {
    /// The model at the upstream; empty where the request keeps its own.
    pub upstream_model_id: String,
}

/// The request that goes to an upstream for one attempt.
pub struct RequestParts {
    pub method: Method,
    pub path: String,
    pub query: Option<String>,
    pub body: Bytes,
    /// The headers, where rules have had a hand in them; otherwise the inbound
    /// ones hold.
    pub headers: Option<HeaderMap<HeaderValue>>,
}

/// What a `RequestParts` says.
pub struct Parts {
    pub method: Seq<char>,
    pub path: Seq<char>,
    pub query: Option<Seq<char>>,
    pub body: Seq<u8>,
    pub fields: Option<Map<Seq<char>, Seq<Seq<u8>>>>,
}

impl View for RequestParts {
    type V = Parts;

    open spec fn view(&self) -> Parts {
        Parts {
            method: method_name(self.method),
            path: self.path@,
            query: optional(self.query),
            body: octets(self.body),
            fields: match self.headers {
                Some(headers) => Some(fields(headers)),
                None => None,
            },
        }
    }
}

/// What `wire` answers while a plan is carried out.
pub struct Replies {
    pub peeked: Option<Seq<char>>,
    pub endpoint: Endpoint,
    pub listing: Option<Seq<char>>,
    pub converted: Result<Seq<u8>, TransformFault>,
}

/// What `wire` answers while rules are applied.
pub struct RuleReplies {
    pub peeked: Option<Seq<char>>,
    pub path_model: Option<Seq<char>>,
    pub rewritten: (Map<Seq<char>, Seq<Seq<u8>>>, Seq<u8>),
}

/// A request as a plan leaves it, the operation that it asks for, and the memo
/// afterwards.
pub struct Built {
    pub parts: Result<Parts, PipelineFault>,
    pub key: OperationKey,
    pub memo: Memo,
}

/// Whether a conversion may have to name the member model in the body that it
/// reads: one of the two formats has a place for it there, and there is a
/// member model. Where the source has none, the converter takes the model all
/// the same and the target has a place for it.
pub open spec fn may_name_model(
    source: OperationKey,
    target: OperationKey,
    model: Seq<char>,
) -> bool {
    (carries_model(source.kind) || carries_model(target.kind)) && model.len() > 0
}

/// The memo after the body for a conversion has been prepared.
pub open spec fn memo_after_inbound(
    source: OperationKey,
    target: OperationKey,
    model: Seq<char>,
    memo: Memo,
    peeked: Option<Seq<char>>,
) -> Memo {
    if may_name_model(source, target, model) {
        memo.asked(peeked)
    } else {
        memo
    }
}

/// The body that a conversion reads: the inbound one, with the member model
/// where it names another.
pub open spec fn inbound_body(
    source: OperationKey,
    target: OperationKey,
    model: Seq<char>,
    named: Option<Seq<char>>,
    body: Seq<u8>,
) -> Result<Seq<u8>, PipelineFault> {
    if may_name_model(source, target, model) && named != Some(model) {
        patch(body, Some(model), None, false)
    } else {
        Ok(body)
    }
}

/// The body after the conversion, where there is one.
pub open spec fn after_conversion(
    pair: Option<TransformPair>,
    inbound: Result<Seq<u8>, PipelineFault>,
    answer: Result<Seq<u8>, TransformFault>,
) -> Result<Seq<u8>, PipelineFault> {
    match (pair, inbound) {
        (Some(_), Ok(_)) => match answer {
            Ok(body) => Ok(body),
            Err(e) => Err(PipelineFault::TransformRequest(e)),
        },
        _ => inbound,
    }
}

/// The model to set in the converted body: the member model, where the source
/// format had no place for it.
pub open spec fn late_model(source: OperationKey, model: Seq<char>) -> Option<Seq<char>> {
    if !carries_model(source.kind) && model.len() > 0 {
        Some(model)
    } else {
        None
    }
}

/// The body that a plain conversion sends.
pub open spec fn transformed_body(
    body: Seq<u8>,
    source: OperationKey,
    target: OperationKey,
    model: Seq<char>,
    stream: bool,
) -> Result<Seq<u8>, PipelineFault> {
    let set_stream = stream && target.operation.generates_content();
    let set_usage = stream && is_chat(target.kind);
    if carries_model(target.kind) && (late_model(source, model) is Some || set_stream || set_usage) {
        patch(
            body,
            late_model(source, model),
            if set_stream {
                Some(true)
            } else {
                None
            },
            set_usage,
        )
    } else {
        Ok(body)
    }
}

/// The body sent to an upstream that answers in one piece.
pub open spec fn synthesized_body(
    body: Seq<u8>,
    source: OperationKey,
    target: OperationKey,
    model: Seq<char>,
) -> Result<Seq<u8>, PipelineFault> {
    if carries_model(target.kind) {
        patch(body, late_model(source, model), Some(false), false)
    } else {
        Ok(body)
    }
}

/// The body sent to an upstream that answers with a stream.
pub open spec fn aggregated_body(
    body: Seq<u8>,
    source: OperationKey,
    target: OperationKey,
    model: Seq<char>,
) -> Result<Seq<u8>, PipelineFault> {
    if carries_model(target.kind) {
        patch(body, late_model(source, model), Some(true), is_chat(target.kind))
    } else {
        Ok(body)
    }
}

/// The body that a plain conversion sends, where it was patched, is read again
/// as the patched document.
pub open spec fn transformed_body_reads_back(
    body: Seq<u8>,
    source: OperationKey,
    target: OperationKey,
    model: Seq<char>,
    stream: bool,
) -> bool {
    let set_stream = stream && target.operation.generates_content();
    let set_usage = stream && is_chat(target.kind);
    carries_model(target.kind) && (late_model(source, model) is Some || set_stream || set_usage)
        ==> patch_reads_back(
        body,
        late_model(source, model),
        if set_stream {
            Some(true)
        } else {
            None
        },
        set_usage,
    )
}

/// The body sent to an upstream that answers in one piece, where it was
/// patched, is read again as the patched document.
pub open spec fn synthesized_body_reads_back(
    body: Seq<u8>,
    source: OperationKey,
    target: OperationKey,
    model: Seq<char>,
) -> bool {
    carries_model(target.kind) ==> patch_reads_back(
        body,
        late_model(source, model),
        Some(false),
        false,
    )
}

/// The body sent to an upstream that answers with a stream, where it was
/// patched, is read again as the patched document.
pub open spec fn aggregated_body_reads_back(
    body: Seq<u8>,
    source: OperationKey,
    target: OperationKey,
    model: Seq<char>,
) -> bool {
    carries_model(target.kind) ==> patch_reads_back(
        body,
        late_model(source, model),
        Some(true),
        is_chat(target.kind),
    )
}

/// The generation of content in one piece, in the format of `key`.
pub open spec fn whole(key: OperationKey) -> OperationKey {
    OperationKey { operation: Operation::GenerateContent, kind: key.kind }
}

/// The conversion of the request `ctx`.
pub open spec fn forward(ctx: RequestCtx, source: OperationKey, target: OperationKey) -> Conversion {
    Conversion { source, target, request: Some((ctx.path@, optional(ctx.query))) }
}

/// The query of a request for models: the endpoint's own and the converted one.
pub open spec fn models_query(base: Option<Seq<char>>, listing: Option<Seq<char>>) -> Option<
    Seq<char>,
> {
    match (base, listing) {
        (Some(b), Some(extra)) => Some(merged(Some(b), extra)),
        (_, Some(extra)) => Some(extra),
        (b, None) => b,
    }
}

/// The parts of a request to `endpoint` with `body`.
pub open spec fn parts_to(endpoint: Endpoint, body: Result<Seq<u8>, PipelineFault>) -> Result<
    Parts,
    PipelineFault,
> {
    match body {
        Ok(b) => Ok(
            Parts {
                method: endpoint.method,
                path: endpoint.path,
                query: endpoint.query,
                body: b,
                fields: None,
            },
        ),
        Err(e) => Err(e),
    }
}

/// Whether passing a request through asks for the model that its body names.
pub open spec fn passthrough_asks(op: OperationKey, model: Seq<char>) -> bool {
    op.operation.carries_body() && model.len() > 0
}

/// Whether passing a request through replaces the model that it names.
pub open spec fn passthrough_rewrites(
    op: OperationKey,
    model: Seq<char>,
    named: Option<Seq<char>>,
) -> bool {
    passthrough_asks(op, model) && named != Some(model)
}

/// The body of a request that is passed through.
pub open spec fn passed_body(
    body: Seq<u8>,
    op: OperationKey,
    model: Seq<char>,
    named: Option<Seq<char>>,
    stream: bool,
) -> Result<Seq<u8>, PipelineFault> {
    let set_usage = stream && is_chat(op.kind);
    if passthrough_rewrites(op, model, named) {
        if carries_model(op.kind) {
            patch(body, Some(model), None, set_usage)
        } else {
            Ok(body)
        }
    } else if set_usage {
        patch(body, None, None, true)
    } else {
        Ok(body)
    }
}

/// Whether the body of a request that is passed through, where it was patched,
/// reads back as the patched document.
pub open spec fn passed_body_reads_back(
    body: Seq<u8>,
    op: OperationKey,
    model: Seq<char>,
    named: Option<Seq<char>>,
    stream: bool,
) -> bool {
    let set_usage = stream && is_chat(op.kind);
    if passthrough_rewrites(op, model, named) {
        carries_model(op.kind) ==> patch_reads_back(body, Some(model), None, set_usage)
    } else {
        set_usage ==> patch_reads_back(body, None, None, true)
    }
}

/// The request `ctx` exactly as it came in.
pub open spec fn untouched(ctx: RequestCtx) -> Parts {
    Parts {
        method: method_name(ctx.method),
        path: ctx.path@,
        query: optional(ctx.query),
        body: octets(ctx.body),
        fields: None,
    }
}

/// The request that is passed through: the member model goes into the body, or
/// into the path where the format keeps it there.
pub open spec fn passthrough_built(
    ctx: RequestCtx,
    op: OperationKey,
    model: Seq<char>,
    memo: Memo,
    a: Replies,
) -> Built {
    let named = memo.model(a.peeked);
    let moved = passthrough_rewrites(op, model, named) && !carries_model(op.kind);
    Built {
        parts: match passed_body(octets(ctx.body), op, model, named, ctx.stream) {
            Ok(body) => Ok(
                Parts {
                    path: if moved {
                        a.endpoint.path
                    } else {
                        ctx.path@
                    },
                    query: match (moved, a.endpoint.query) {
                        (true, Some(extra)) => Some(merged(optional(ctx.query), extra)),
                        _ => optional(ctx.query),
                    },
                    body,
                    ..untouched(ctx)
                },
            ),
            Err(e) => Err(e),
        },
        key: op,
        memo: if passthrough_asks(op, model) {
            memo.asked(a.peeked)
        } else {
            memo
        },
    }
}

/// `a` is what `wire` answers while a request is passed through, and the body
/// reads back.
pub open spec fn passthrough_answered<W: Wire>(
    wire: &W,
    ctx: RequestCtx,
    op: OperationKey,
    model: Seq<char>,
    memo: Memo,
    a: Replies,
) -> bool {
    &&& passthrough_asks(op, model) && memo.inbound is None ==> peeks(wire, ctx.body, a.peeked)
    &&& passthrough_rewrites(op, model, memo.model(a.peeked)) && !carries_model(op.kind)
        ==> locates(wire, op, model, ctx.stream, a.endpoint)
    &&& passed_body_reads_back(octets(ctx.body), op, model, memo.model(a.peeked), ctx.stream)
}

/// The request for models, which has no body to convert.
pub open spec fn models_built(
    ctx: RequestCtx,
    target: OperationKey,
    memo: Memo,
    a: Replies,
) -> Built {
    Built {
        parts: Ok(
            Parts {
                method: a.endpoint.method,
                path: a.endpoint.path,
                query: models_query(a.endpoint.query, a.listing),
                body: octets(ctx.body),
                fields: None,
            },
        ),
        key: target,
        memo,
    }
}

/// `a` is what `wire` answers while a request for models is built.
pub open spec fn models_answered<W: Wire>(
    wire: &W,
    ctx: RequestCtx,
    pair: TransformPair,
    source: OperationKey,
    target: OperationKey,
    model: Seq<char>,
    a: Replies,
) -> bool {
    &&& locates(wire, target, model, ctx.stream, a.endpoint)
    &&& lists(wire, pair, forward(ctx, source, target), a.listing)
}

/// The body that comes out of a conversion, where there is one.
pub open spec fn leg_body(
    ctx: RequestCtx,
    pair: Option<TransformPair>,
    source: OperationKey,
    target: OperationKey,
    model: Seq<char>,
    memo: Memo,
    a: Replies,
) -> Result<Seq<u8>, PipelineFault> {
    after_conversion(
        pair,
        inbound_body(source, target, model, memo.model(a.peeked), octets(ctx.body)),
        a.converted,
    )
}

/// `a` is what `wire` answers while a body is converted; the converter is told
/// that it comes from `from`. Where the member model was set before, the body
/// is read again.
pub open spec fn leg_answered<W: Wire>(
    wire: &W,
    ctx: RequestCtx,
    pair: Option<TransformPair>,
    from: OperationKey,
    source: OperationKey,
    target: OperationKey,
    model: Seq<char>,
    memo: Memo,
    a: Replies,
) -> bool {
    let inbound = inbound_body(source, target, model, memo.model(a.peeked), octets(ctx.body));
    &&& may_name_model(source, target, model) && memo.inbound is None ==> peeks(
        wire,
        ctx.body,
        a.peeked,
    )
    &&& may_name_model(source, target, model) && memo.model(a.peeked) != Some(model)
        ==> patch_reads_back(octets(ctx.body), Some(model), None, false)
    &&& match (pair, inbound) {
        (Some(p), Ok(body)) => converts_request(
            wire,
            p,
            forward(ctx, from, target),
            body,
            a.converted,
        ),
        _ => true,
    }
}

/// The body of a converted request: the one in the memo, or else a new one.
pub open spec fn transform_body(
    ctx: RequestCtx,
    pair: TransformPair,
    source: OperationKey,
    target: OperationKey,
    model: Seq<char>,
    memo: Memo,
    a: Replies,
) -> Result<Seq<u8>, PipelineFault> {
    if memo.bodies.contains_key((target, model)) {
        Ok(memo.bodies[(target, model)])
    } else {
        match leg_body(ctx, Some(pair), source, target, model, memo, a) {
            Ok(body) => transformed_body(body, source, target, model, ctx.stream),
            Err(e) => Err(e),
        }
    }
}

/// The converted request. A body that was converted now goes into the memo.
pub open spec fn transform_built(
    ctx: RequestCtx,
    pair: TransformPair,
    source: OperationKey,
    target: OperationKey,
    model: Seq<char>,
    memo: Memo,
    a: Replies,
) -> Built {
    let body = transform_body(ctx, pair, source, target, model, memo, a);
    let asked = memo_after_inbound(source, target, model, memo, a.peeked);
    Built {
        parts: parts_to(a.endpoint, body),
        key: target,
        memo: if memo.bodies.contains_key((target, model)) {
            memo
        } else {
            match body {
                Ok(b) => asked.with_body(target, model, b),
                Err(_) => asked,
            }
        },
    }
}

/// `a` is what `wire` answers while a request is converted, and a body that was
/// converted now is read again.
pub open spec fn transform_answered<W: Wire>(
    wire: &W,
    ctx: RequestCtx,
    pair: TransformPair,
    source: OperationKey,
    target: OperationKey,
    model: Seq<char>,
    memo: Memo,
    a: Replies,
) -> bool {
    &&& memo.bodies.contains_key((target, model)) || leg_answered(
        wire,
        ctx,
        Some(pair),
        source,
        source,
        target,
        model,
        memo,
        a,
    )
    &&& !memo.bodies.contains_key((target, model)) ==> match leg_body(
        ctx,
        Some(pair),
        source,
        target,
        model,
        memo,
        a,
    ) {
        Ok(body) => transformed_body_reads_back(body, source, target, model, ctx.stream),
        Err(_) => true,
    }
    &&& transform_body(ctx, pair, source, target, model, memo, a) is Ok ==> locates(
        wire,
        target,
        model,
        ctx.stream,
        a.endpoint,
    )
}

/// The body sent where the stream is made, or collapsed, on the way back.
pub open spec fn restreamed_body(
    ctx: RequestCtx,
    pair: Option<TransformPair>,
    source: OperationKey,
    target: OperationKey,
    model: Seq<char>,
    memo: Memo,
    stream: bool,
    a: Replies,
) -> Result<Seq<u8>, PipelineFault> {
    match leg_body(ctx, pair, source, target, model, memo, a) {
        Ok(body) => if stream {
            aggregated_body(body, source, target, model)
        } else {
            synthesized_body(body, source, target, model)
        },
        Err(e) => Err(e),
    }
}

/// The request to an upstream that streams although the client does not
/// (`stream`), or the other way round.
pub open spec fn restreamed_built(
    ctx: RequestCtx,
    pair: Option<TransformPair>,
    source: OperationKey,
    target: OperationKey,
    model: Seq<char>,
    memo: Memo,
    stream: bool,
    a: Replies,
) -> Built {
    Built {
        parts: parts_to(
            a.endpoint,
            restreamed_body(ctx, pair, source, target, model, memo, stream, a),
        ),
        key: target,
        memo: memo_after_inbound(source, target, model, memo, a.peeked),
    }
}

/// `a` is what `wire` answers while such a request is built, and the body is
/// read again. A converter for a whole answer is told that the source is one,
/// too.
pub open spec fn restreamed_answered<W: Wire>(
    wire: &W,
    ctx: RequestCtx,
    pair: Option<TransformPair>,
    source: OperationKey,
    target: OperationKey,
    model: Seq<char>,
    memo: Memo,
    stream: bool,
    a: Replies,
) -> bool {
    &&& leg_answered(
        wire,
        ctx,
        pair,
        if stream {
            source
        } else {
            whole(source)
        },
        source,
        target,
        model,
        memo,
        a,
    )
    &&& match leg_body(ctx, pair, source, target, model, memo, a) {
        Ok(body) => if stream {
            aggregated_body_reads_back(body, source, target, model)
        } else {
            synthesized_body_reads_back(body, source, target, model)
        },
        Err(_) => true,
    }
    &&& restreamed_body(ctx, pair, source, target, model, memo, stream, a) is Ok ==> locates(
        wire,
        target,
        model,
        stream,
        a.endpoint,
    )
}

/// What carrying out `plan` comes to, where `wire` answers `a`.
pub open spec fn built(
    ctx: RequestCtx,
    model: Seq<char>,
    plan: TransformPlan,
    memo: Memo,
    preserve_raw_body: bool,
    a: Replies,
) -> Built {
    let op = ctx.op->0;
    match plan {
        TransformPlan::Local => Built {
            parts: Err(PipelineFault::LocalUnimplemented),
            key: op,
            memo,
        },
        TransformPlan::Passthrough => if preserve_raw_body {
            Built { parts: Ok(untouched(ctx)), key: op, memo }
        } else {
            passthrough_built(ctx, op, model, memo, a)
        },
        TransformPlan::Transform { request_pair, source, target, .. } =>
            if target.operation.carries_body() {
            transform_built(ctx, request_pair, source, target, model, memo, a)
        } else {
            models_built(ctx, target, memo, a)
        },
        TransformPlan::SynthesizeStream { request_pair, source, target, .. } => restreamed_built(
            ctx,
            request_pair,
            source,
            target,
            model,
            memo,
            false,
            a,
        ),
        TransformPlan::AggregateStream { request_pair, source, target, .. } => restreamed_built(
            ctx,
            request_pair,
            source,
            target,
            model,
            memo,
            true,
            a,
        ),
    }
}

/// `a` is what `wire` answers while `plan` is carried out.
pub open spec fn answered<W: Wire>(
    wire: &W,
    ctx: RequestCtx,
    model: Seq<char>,
    plan: TransformPlan,
    memo: Memo,
    preserve_raw_body: bool,
    a: Replies,
) -> bool {
    match plan {
        TransformPlan::Local => true,
        TransformPlan::Passthrough => preserve_raw_body || passthrough_answered(
            wire,
            ctx,
            ctx.op->0,
            model,
            memo,
            a,
        ),
        TransformPlan::Transform { request_pair, source, target, .. } =>
            if target.operation.carries_body() {
            transform_answered(wire, ctx, request_pair, source, target, model, memo, a)
        } else {
            models_answered(wire, ctx, request_pair, source, target, model, a)
        },
        TransformPlan::SynthesizeStream { request_pair, source, target, .. } =>
            restreamed_answered(
            wire,
            ctx,
            request_pair,
            source,
            target,
            model,
            memo,
            false,
            a,
        ),
        TransformPlan::AggregateStream { request_pair, source, target, .. } =>
            restreamed_answered(
            wire,
            ctx,
            request_pair,
            source,
            target,
            model,
            memo,
            true,
            a,
        ),
    }
}

/// The model that the rules' filters see: the one that the inbound body names,
/// else the one that the path names, else the member model.
pub open spec fn filter_model(model: Seq<char>, memo: Memo, b: RuleReplies) -> Seq<char> {
    match memo.model(b.peeked) {
        Some(named) => named,
        None => match b.path_model {
            Some(named) => named,
            None => model,
        },
    }
}

/// The format of a content generation, for the rules that ask for it.
pub open spec fn content_kind(key: OperationKey) -> Option<ContentGenerationKind> {
    match key.kind {
        OperationKind::ContentGeneration(kind) => Some(kind),
        OperationKind::Provider(_) => None,
    }
}

/// The request after the rules, which act on the provider-native one.
pub open spec fn ruled(before: Built, b: RuleReplies) -> Built {
    match before.parts {
        Ok(parts) => Built {
            parts: Ok(Parts { body: b.rewritten.1, fields: Some(b.rewritten.0), ..parts }),
            memo: before.memo.asked(b.peeked),
            ..before
        },
        Err(_) => before,
    }
}

/// `b` is what `wire` answers while `rules` are applied.
pub open spec fn rules_answered<W: Wire>(
    wire: &W,
    ctx: RequestCtx,
    model: Seq<char>,
    rules: &[W::Rule],
    before: Built,
    b: RuleReplies,
) -> bool {
    match before.parts {
        Ok(parts) => {
            &&& before.memo.inbound is None ==> peeks(wire, ctx.body, b.peeked)
            &&& before.memo.model(b.peeked) is None ==> finds_in_path(
                wire,
                ctx.path@,
                b.path_model,
            )
            &&& rewrites(
                wire,
                rules,
                before.key,
                content_kind(before.key),
                filter_model(model, before.memo, b),
                (fields(ctx.headers), parts.body),
                b.rewritten,
            )
        },
        Err(_) => true,
    }
}

/// The parts or the fault that a result holds.
pub open spec fn parts_result(result: Result<RequestParts, PipelineError>) -> Result<
    Parts,
    PipelineFault,
> {
    match result {
        Ok(parts) => Ok(parts@),
        Err(e) => Err(e@),
    }
}

/// Whether there are rules to apply.
pub open spec fn has_rules<R>(rules: Option<&[R]>) -> bool {
    match rules {
        Some(some) => some@.len() > 0,
        None => false,
    }
}

/// `result`, with the memo `memo_after`, is what an attempt comes to where
/// `wire` answers `a` and `b`.
pub open spec fn is_outcome<W: Wire>(
    wire: &W,
    ctx: RequestCtx,
    model: Seq<char>,
    plan: TransformPlan,
    rules: Option<&[W::Rule]>,
    memo: Memo,
    preserve_raw_body: bool,
    a: Replies,
    b: RuleReplies,
    result: Result<Parts, PipelineFault>,
    memo_after: Memo,
) -> bool {
    let before = built(ctx, model, plan, memo, preserve_raw_body, a);
    let after = if has_rules(rules) {
        ruled(before, b)
    } else {
        before
    };
    &&& answered(wire, ctx, model, plan, memo, preserve_raw_body, a)
    &&& has_rules(rules) ==> rules_answered(wire, ctx, model, rules->0, before, b)
    &&& result == after.parts
    &&& memo_after == after.memo
}

} // verus!
