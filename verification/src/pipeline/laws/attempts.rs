//! The attempts at one request: what they share, and what rules add.

use crate::pipeline::error::{PipelineFault, TransformFault};
use crate::pipeline::memo::Memo;
use crate::pipeline::plan::{TransformPair, TransformPlan};
use crate::pipeline::request::{
    answered, built, content_kind, filter_model, has_rules, is_outcome, leg_answered,
    transform_body, untouched, Parts, Replies, RequestCtx, RuleReplies,
};
use crate::pipeline::wire::{
    converts_request, finds_in_path, lists, locates, peeks, rewrites, Conversion, Endpoint, Wire,
};
use crate::protocol::{ContentGenerationKind, OperationKey};
use crate::transport::{fields, octets};
use bytes::Bytes;
use vstd::prelude::*;

verus! {

/// Rules apply to raw requests, too: they are given the headers and the body as
/// they came in, and nothing but what they make of these is changed.
pub proof fn rules_apply_to_raw_requests<W: Wire>(
    wire: &W,
    ctx: RequestCtx,
    model: Seq<char>,
    rules: Option<&[W::Rule]>,
    memo: Memo,
    a: Replies,
    b: RuleReplies,
    result: Result<Parts, PipelineFault>,
    memo_after: Memo,
)
    requires
        ctx.op is Some,
        has_rules(rules),
        is_outcome(
            wire,
            ctx,
            model,
            TransformPlan::Passthrough,
            rules,
            memo,
            true,
            a,
            b,
            result,
            memo_after,
        ),
    ensures
        rewrites(
            wire,
            rules->0,
            ctx.op->0,
            content_kind(ctx.op->0),
            filter_model(model, memo, b),
            (fields(ctx.headers), octets(ctx.body)),
            b.rewritten,
        ),
        result == Ok::<Parts, PipelineFault>(
            Parts { fields: Some(b.rewritten.0), body: b.rewritten.1, ..untouched(ctx) },
        ),
{
}

/// A request has headers of its own exactly where rules have been applied.
pub proof fn only_rules_touch_headers<W: Wire>(
    wire: &W,
    ctx: RequestCtx,
    model: Seq<char>,
    plan: TransformPlan,
    rules: Option<&[W::Rule]>,
    memo: Memo,
    preserve_raw_body: bool,
    a: Replies,
    b: RuleReplies,
    result: Result<Parts, PipelineFault>,
    memo_after: Memo,
)
    requires
        is_outcome(
            wire,
            ctx,
            model,
            plan,
            rules,
            memo,
            preserve_raw_body,
            a,
            b,
            result,
            memo_after,
        ),
    ensures
        result matches Ok(parts) ==> (parts.fields is Some <==> has_rules(rules)),
{
}

/// An attempt forgets nothing: converted bodies stay as they are, and once the
/// inbound model is known it stays what it is. Whether the attempt succeeds
/// makes no difference.
pub proof fn attempts_forget_nothing<W: Wire>(
    wire: &W,
    ctx: RequestCtx,
    model: Seq<char>,
    plan: TransformPlan,
    rules: Option<&[W::Rule]>,
    memo: Memo,
    preserve_raw_body: bool,
    a: Replies,
    b: RuleReplies,
    result: Result<Parts, PipelineFault>,
    memo_after: Memo,
)
    requires
        is_outcome(
            wire,
            ctx,
            model,
            plan,
            rules,
            memo,
            preserve_raw_body,
            a,
            b,
            result,
            memo_after,
        ),
    ensures
        memo.bodies.submap_of(memo_after.bodies),
        memo.inbound is Some ==> memo_after.inbound == memo.inbound,
{
    assert(memo.bodies.submap_of(built(ctx, model, plan, memo, preserve_raw_body, a).memo.bodies));
}

/// A body is converted once per target and model: it is remembered, before any
/// rules, and every later attempt at the same target and model sends it again,
/// whatever a converter would answer then.
pub proof fn bodies_are_converted_once(
    ctx: RequestCtx,
    model: Seq<char>,
    request_pair: TransformPair,
    response_pair: TransformPair,
    source: OperationKey,
    target: OperationKey,
    memo: Memo,
    preserve_raw_body: bool,
    a: Replies,
    later: Memo,
    again: Replies,
)
    requires
        target.operation.carries_body(),
        built(
            ctx,
            model,
            TransformPlan::Transform { request_pair, response_pair, source, target },
            memo,
            preserve_raw_body,
            a,
        ).parts is Ok,
        built(
            ctx,
            model,
            TransformPlan::Transform { request_pair, response_pair, source, target },
            memo,
            preserve_raw_body,
            a,
        ).memo.bodies.submap_of(later.bodies),
    ensures
        ({
            let plan = TransformPlan::Transform { request_pair, response_pair, source, target };
            let first = built(ctx, model, plan, memo, preserve_raw_body, a);
            let second = built(ctx, model, plan, later, preserve_raw_body, again);
            &&& second.parts is Ok
            &&& second.parts->Ok_0.body == first.parts->Ok_0.body
            &&& second.memo == later
        }),
{
    let plan = TransformPlan::Transform { request_pair, response_pair, source, target };
    let first = built(ctx, model, plan, memo, preserve_raw_body, a);
    assert(first.memo.bodies.contains_key((target, model)));
    assert(later.bodies.contains_key((target, model)));
}

/// A memo that knows nothing.
pub open spec fn fresh() -> Memo {
    Memo { bodies: Map::empty(), inbound: None }
}

/// Whether `wire` gives the same answer whenever it is asked the same.
pub open spec fn answers_alike<W: Wire>(wire: &W) -> bool {
    &&& forall|body: Bytes, m: Option<Seq<char>>, n: Option<Seq<char>>|
        #[trigger] peeks(wire, body, m) && #[trigger] peeks(wire, body, n) ==> m == n
    &&& forall|path: Seq<char>, m: Option<Seq<char>>, n: Option<Seq<char>>|
        #[trigger] finds_in_path(wire, path, m) && #[trigger] finds_in_path(wire, path, n) ==> m
            == n
    &&& forall|key: OperationKey, model: Seq<char>, stream: bool, d: Endpoint, e: Endpoint|
        #[trigger] locates(wire, key, model, stream, d) && #[trigger] locates(
            wire,
            key,
            model,
            stream,
            e,
        ) ==> d == e
    &&& forall|
        pair: TransformPair,
        conversion: Conversion,
        q: Option<Seq<char>>,
        r: Option<Seq<char>>,
    |
        #[trigger] lists(wire, pair, conversion, q) && #[trigger] lists(wire, pair, conversion, r)
            ==> q == r
    &&& forall|
        pair: TransformPair,
        conversion: Conversion,
        body: Seq<u8>,
        q: Result<Seq<u8>, TransformFault>,
        r: Result<Seq<u8>, TransformFault>,
    |
        #[trigger] converts_request(wire, pair, conversion, body, q)
            && #[trigger] converts_request(wire, pair, conversion, body, r) ==> q == r
}

/// Whether the rules of `wire` make the same of the same request each time.
pub open spec fn rules_answer_alike<W: Wire>(wire: &W) -> bool {
    forall|
        rules: &[W::Rule],
        key: OperationKey,
        kind: Option<ContentGenerationKind>,
        model: Seq<char>,
        before: (Map<Seq<char>, Seq<Seq<u8>>>, Seq<u8>),
        q: (Map<Seq<char>, Seq<Seq<u8>>>, Seq<u8>),
        r: (Map<Seq<char>, Seq<Seq<u8>>>, Seq<u8>),
    |
        #[trigger] rewrites(wire, rules, key, kind, model, before, q) && #[trigger] rewrites(
            wire,
            rules,
            key,
            kind,
            model,
            before,
            r,
        ) ==> q == r
}

/// Whether `body` is what converting the request `ctx` now, with no memo, would
/// give where `wire` answers `a`.
pub open spec fn converting_gives<W: Wire>(
    wire: &W,
    ctx: RequestCtx,
    pair: TransformPair,
    source: OperationKey,
    target: OperationKey,
    model: Seq<char>,
    body: Seq<u8>,
    a: Replies,
) -> bool {
    &&& leg_answered(wire, ctx, Some(pair), source, source, target, model, fresh(), a)
    &&& transform_body(ctx, pair, source, target, model, fresh(), a) == Ok::<
        Seq<u8>,
        PipelineFault,
    >(body)
}

/// Whether `memo` holds nothing but what asking and converting now would give:
/// the requests come from `source`, and `pair_to` is the converter for each
/// target.
pub open spec fn is_faithful<W: Wire>(
    wire: &W,
    ctx: RequestCtx,
    source: OperationKey,
    pair_to: spec_fn(OperationKey) -> TransformPair,
    memo: Memo,
) -> bool {
    &&& memo.inbound matches Some(named) ==> peeks(wire, ctx.body, named)
    &&& forall|target: OperationKey, model: Seq<char>| #[trigger]
        memo.bodies.contains_key((target, model)) ==> exists|a: Replies| #[trigger]
            converting_gives(
                wire,
                ctx,
                pair_to(target),
                source,
                target,
                model,
                memo.bodies[(target, model)],
                a,
            )
}

/// Whether a plan that converts bodies does so from `source` and with the
/// converter for its target.
pub open spec fn converts_from(
    plan: TransformPlan,
    source: OperationKey,
    pair_to: spec_fn(OperationKey) -> TransformPair,
) -> bool {
    match plan {
        TransformPlan::Transform { request_pair, source: from, target, .. } => from == source
            && request_pair == pair_to(target),
        _ => true,
    }
}

/// A memo that knows nothing is faithful.
pub proof fn fresh_memos_are_faithful<W: Wire>(
    wire: &W,
    ctx: RequestCtx,
    source: OperationKey,
    pair_to: spec_fn(OperationKey) -> TransformPair,
)
    ensures
        is_faithful(wire, ctx, source, pair_to, fresh()),
{
}

/// Every attempt, whether it succeeds or not, leaves a faithful memo faithful:
/// whatever the candidate, the plan and the rules.
pub proof fn memos_stay_faithful<W: Wire>(
    wire: &W,
    ctx: RequestCtx,
    source: OperationKey,
    pair_to: spec_fn(OperationKey) -> TransformPair,
    model: Seq<char>,
    plan: TransformPlan,
    rules: Option<&[W::Rule]>,
    memo: Memo,
    preserve_raw_body: bool,
    a: Replies,
    b: RuleReplies,
    result: Result<Parts, PipelineFault>,
    memo_after: Memo,
)
    requires
        is_faithful(wire, ctx, source, pair_to, memo),
        converts_from(plan, source, pair_to),
        is_outcome(
            wire,
            ctx,
            model,
            plan,
            rules,
            memo,
            preserve_raw_body,
            a,
            b,
            result,
            memo_after,
        ),
    ensures
        is_faithful(wire, ctx, source, pair_to, memo_after),
{
    let after = built(ctx, model, plan, memo, preserve_raw_body, a).memo;
    assert(after.inbound matches Some(named) ==> peeks(wire, ctx.body, named));
    assert(memo_after.bodies == after.bodies);
    assert forall|t: OperationKey, m: Seq<char>| #[trigger]
        memo_after.bodies.contains_key((t, m)) implies exists|r: Replies| #[trigger]
        converting_gives(wire, ctx, pair_to(t), source, t, m, memo_after.bodies[(t, m)], r) by {
        if memo.bodies.contains_key((t, m)) {
            assert(memo_after.bodies[(t, m)] == memo.bodies[(t, m)]);
        } else {
            let r = Replies { peeked: memo.model(a.peeked), ..a };
            assert(fresh().model(r.peeked) == memo.model(a.peeked));
            assert(t == plan->Transform_target && m == model);
            assert(converting_gives(
                wire,
                ctx,
                pair_to(t),
                source,
                t,
                m,
                memo_after.bodies[(t, m)],
                r,
            ));
        }
    }
}

/// Where `wire` answers alike, a plan comes to the same with a faithful memo as
/// with one that knows nothing.
proof fn plans_come_to_the_same<W: Wire>(
    wire: &W,
    ctx: RequestCtx,
    source: OperationKey,
    pair_to: spec_fn(OperationKey) -> TransformPair,
    model: Seq<char>,
    plan: TransformPlan,
    memo: Memo,
    preserve_raw_body: bool,
    a: Replies,
    first: Replies,
)
    requires
        answers_alike(wire),
        is_faithful(wire, ctx, source, pair_to, memo),
        converts_from(plan, source, pair_to),
        answered(wire, ctx, model, plan, memo, preserve_raw_body, a),
        answered(wire, ctx, model, plan, fresh(), preserve_raw_body, first),
    ensures
        built(ctx, model, plan, memo, preserve_raw_body, a).parts == built(
            ctx,
            model,
            plan,
            fresh(),
            preserve_raw_body,
            first,
        ).parts,
        built(ctx, model, plan, memo, preserve_raw_body, a).key == built(
            ctx,
            model,
            plan,
            fresh(),
            preserve_raw_body,
            first,
        ).key,
{
    match plan {
        TransformPlan::Transform { request_pair, target, .. } => {
            if target.operation.carries_body() && memo.bodies.contains_key((target, model)) {
                let w = choose|w: Replies| #[trigger]
                    converting_gives(
                        wire,
                        ctx,
                        pair_to(target),
                        source,
                        target,
                        model,
                        memo.bodies[(target, model)],
                        w,
                    );
                assert(transform_body(ctx, request_pair, source, target, model, fresh(), w)
                    == transform_body(ctx, request_pair, source, target, model, fresh(), first));
            }
        },
        _ => {},
    }
}

/// What earlier attempts at a request left in the memo does not show: where
/// `wire` answers alike, an attempt with a memo that only attempts at this
/// request have filled comes to what it would come to with a fresh one. Earlier
/// candidates, targets, rules and failures make no difference.
pub proof fn used_memos_give_what_fresh_ones_do<W: Wire>(
    wire: &W,
    ctx: RequestCtx,
    source: OperationKey,
    pair_to: spec_fn(OperationKey) -> TransformPair,
    model: Seq<char>,
    plan: TransformPlan,
    rules: Option<&[W::Rule]>,
    memo: Memo,
    preserve_raw_body: bool,
    a: Replies,
    b: RuleReplies,
    result: Result<Parts, PipelineFault>,
    memo_after: Memo,
    first_a: Replies,
    first_b: RuleReplies,
    first_result: Result<Parts, PipelineFault>,
    first_memo: Memo,
)
    requires
        answers_alike(wire),
        rules_answer_alike(wire),
        is_faithful(wire, ctx, source, pair_to, memo),
        converts_from(plan, source, pair_to),
        is_outcome(
            wire,
            ctx,
            model,
            plan,
            rules,
            memo,
            preserve_raw_body,
            a,
            b,
            result,
            memo_after,
        ),
        is_outcome(
            wire,
            ctx,
            model,
            plan,
            rules,
            fresh(),
            preserve_raw_body,
            first_a,
            first_b,
            first_result,
            first_memo,
        ),
    ensures
        result == first_result,
{
    plans_come_to_the_same(
        wire,
        ctx,
        source,
        pair_to,
        model,
        plan,
        memo,
        preserve_raw_body,
        a,
        first_a,
    );
    let before = built(ctx, model, plan, memo, preserve_raw_body, a);
    let first = built(ctx, model, plan, fresh(), preserve_raw_body, first_a);
    if has_rules(rules) && before.parts is Ok {
        assert(peeks(wire, ctx.body, before.memo.model(b.peeked)));
        assert(peeks(wire, ctx.body, first.memo.model(first_b.peeked)));
        assert(filter_model(model, before.memo, b) == filter_model(model, first.memo, first_b));
    }
}

/// The operation that a request asks the upstream for.
pub open spec fn asked_operation(ctx: RequestCtx, plan: TransformPlan) -> OperationKey {
    match plan {
        TransformPlan::Local => ctx.op->0,
        TransformPlan::Passthrough => ctx.op->0,
        TransformPlan::Transform { target, .. } => target,
        TransformPlan::SynthesizeStream { target, .. } => target,
        TransformPlan::AggregateStream { target, .. } => target,
    }
}

/// An attempt with rules is the attempt without them, and the rules run on what
/// that came to: on the finished body and on the client's headers. Method, path
/// and query stay, and an attempt that fails without rules fails with them in
/// the same way.
pub proof fn rules_run_on_the_finished_request<W: Wire>(
    wire: &W,
    ctx: RequestCtx,
    model: Seq<char>,
    plan: TransformPlan,
    rules: Option<&[W::Rule]>,
    memo: Memo,
    preserve_raw_body: bool,
    a: Replies,
    b: RuleReplies,
    result: Result<Parts, PipelineFault>,
    memo_after: Memo,
)
    requires
        has_rules(rules),
        is_outcome(
            wire,
            ctx,
            model,
            plan,
            rules,
            memo,
            preserve_raw_body,
            a,
            b,
            result,
            memo_after,
        ),
    ensures
        ({
            let plain = built(ctx, model, plan, memo, preserve_raw_body, a);
            let key = asked_operation(ctx, plan);
            &&& is_outcome(
                wire,
                ctx,
                model,
                plan,
                None,
                memo,
                preserve_raw_body,
                a,
                b,
                plain.parts,
                plain.memo,
            )
            &&& match plain.parts {
                Ok(parts) => {
                    &&& result == Ok::<Parts, PipelineFault>(
                        Parts { body: b.rewritten.1, fields: Some(b.rewritten.0), ..parts },
                    )
                    &&& rewrites(
                        wire,
                        rules->0,
                        key,
                        content_kind(key),
                        filter_model(model, plain.memo, b),
                        (fields(ctx.headers), parts.body),
                        b.rewritten,
                    )
                },
                Err(e) => result == Err::<Parts, PipelineFault>(e),
            }
        }),
{
}

/// `filter` is the model that the client asked for: the one that the body
/// names, else the one that the path names, else the member model.
pub open spec fn is_inbound_model<W: Wire>(
    wire: &W,
    ctx: RequestCtx,
    model: Seq<char>,
    filter: Seq<char>,
) -> bool {
    ||| peeks(wire, ctx.body, Some(filter))
    ||| {
        &&& peeks(wire, ctx.body, None)
        &&& finds_in_path(wire, ctx.path@, Some(filter))
    }
    ||| {
        &&& peeks(wire, ctx.body, None)
        &&& finds_in_path(wire, ctx.path@, None)
        &&& filter == model
    }
}

/// Two attempts with fresh memos, one with rules and one without: where `wire`
/// answers alike, the one with rules has the method, path and query of the
/// other, and its headers and body are what the rules make of the client's
/// headers and of the other's body, with a filter on the model that the client
/// asked for. No rules at all make no difference.
pub proof fn rules_change_headers_and_body_alone<W: Wire>(
    wire: &W,
    ctx: RequestCtx,
    model: Seq<char>,
    plan: TransformPlan,
    rules: Option<&[W::Rule]>,
    preserve_raw_body: bool,
    a: Replies,
    b: RuleReplies,
    result: Result<Parts, PipelineFault>,
    memo_after: Memo,
    plain_a: Replies,
    plain_b: RuleReplies,
    plain: Result<Parts, PipelineFault>,
    plain_memo: Memo,
)
    requires
        answers_alike(wire),
        is_outcome(
            wire,
            ctx,
            model,
            plan,
            rules,
            fresh(),
            preserve_raw_body,
            a,
            b,
            result,
            memo_after,
        ),
        is_outcome(
            wire,
            ctx,
            model,
            plan,
            None,
            fresh(),
            preserve_raw_body,
            plain_a,
            plain_b,
            plain,
            plain_memo,
        ),
    ensures
        !has_rules(rules) ==> result == plain,
        plain is Err ==> result == plain,
        has_rules(rules) && plain is Ok ==> {
            let key = asked_operation(ctx, plan);
            &&& result is Ok
            &&& result->Ok_0.method == plain->Ok_0.method
            &&& result->Ok_0.path == plain->Ok_0.path
            &&& result->Ok_0.query == plain->Ok_0.query
            &&& result->Ok_0.fields is Some
            &&& exists|filter: Seq<char>| #[trigger]
                is_inbound_model(wire, ctx, model, filter) && rewrites(
                    wire,
                    rules->0,
                    key,
                    content_kind(key),
                    filter,
                    (fields(ctx.headers), plain->Ok_0.body),
                    (result->Ok_0.fields->0, result->Ok_0.body),
                )
        },
{
    let source: OperationKey = match plan {
        TransformPlan::Transform { source, .. } => source,
        _ => arbitrary(),
    };
    let pair: TransformPair = match plan {
        TransformPlan::Transform { request_pair, .. } => request_pair,
        _ => arbitrary(),
    };
    let pair_to = |target: OperationKey| pair;
    plans_come_to_the_same(
        wire,
        ctx,
        source,
        pair_to,
        model,
        plan,
        fresh(),
        preserve_raw_body,
        a,
        plain_a,
    );
    if has_rules(rules) && plain is Ok {
        let before = built(ctx, model, plan, fresh(), preserve_raw_body, a);
        let filter = filter_model(model, before.memo, b);
        assert(peeks(wire, ctx.body, before.memo.model(b.peeked)));
        assert(is_inbound_model(wire, ctx, model, filter));
    }
}

} // verus!
