//! The pipeline: what goes out for an attempt, and what comes back.

use bytes::Bytes;
use custom_channel::channel::common::PrepareCtx;
use custom_channel::channel::custom::CustomChannel;
use custom_channel::pipeline::error::{PipelineError, TransformError};
use custom_channel::pipeline::memo::AttemptMemo;
use custom_channel::pipeline::patch::{
    body_carries_model, is_openai_chat, merge_query, patch_body, patch_document,
};
use custom_channel::pipeline::plan::{TransformPair, TransformPlan};
use custom_channel::pipeline::request::{Candidate, RequestCtx, RequestParts};
use custom_channel::pipeline::response::{
    aggregate_response_body, response_body, stream_transformer,
};
use custom_channel::pipeline::transform::request_parts;
use custom_channel::pipeline::wire::{RequestTarget, TransformContext, Wire};
use custom_channel::protocol::{
    ContentGenerationKind, Operation, OperationKey, OperationKind, Provider,
};
use http::{HeaderMap, Method};
use serde_json::Value;
use std::cell::RefCell;

const CHAT: OperationKind =
    OperationKind::ContentGeneration(ContentGenerationKind::OpenAiChatCompletions);
const RESPONSES: OperationKind =
    OperationKind::ContentGeneration(ContentGenerationKind::OpenAiResponses);
const CLAUDE: OperationKind =
    OperationKind::ContentGeneration(ContentGenerationKind::ClaudeMessages);
const GEMINI: OperationKind =
    OperationKind::ContentGeneration(ContentGenerationKind::GeminiGenerateContent);

const GENERATE: Operation = Operation::GenerateContent;
const STREAM: Operation = Operation::StreamGenerateContent;

fn key(operation: Operation, kind: OperationKind) -> OperationKey {
    OperationKey { operation, kind }
}

fn pair(from: OperationKind, to: OperationKind) -> TransformPair {
    TransformPair { from, to }
}

fn value(text: &str) -> Value {
    serde_json::from_str(text).unwrap()
}

/// Converts by adding a member that says so, and keeps a list of what it was
/// asked.
#[derive(Default)]
struct Tables {
    calls: RefCell<Vec<String>>,
    fail: bool,
    listing: Option<&'static str>,
    target_query: Option<&'static str>,
}

impl Tables {
    fn note(&self, call: String) {
        self.calls.borrow_mut().push(call);
    }

    fn calls(&self) -> Vec<String> {
        self.calls.borrow().clone()
    }

    fn convert(&self, tag: &str, body: &Bytes) -> Result<Vec<u8>, TransformError> {
        if self.fail {
            return Err(TransformError::InvalidInput { reason: format!("{tag} failed") });
        }
        let mut document: Value = serde_json::from_slice(body).unwrap();
        document[tag] = Value::Bool(true);
        Ok(serde_json::to_vec(&document).unwrap())
    }
}

impl Wire for Tables {
    type Rule = &'static str;

    fn peek_model(&self, body: &Bytes) -> Option<String> {
        self.note("peek".to_owned());
        let document: Value = serde_json::from_slice(body).ok()?;
        document.get("model")?.as_str().map(str::to_owned)
    }

    fn path_model_id(&self, path: &str) -> Option<String> {
        self.note(format!("path {path}"));
        let rest = path.split("/models/").nth(1)?;
        rest.split(':').next().map(str::to_owned)
    }

    fn request_target(&self, key: OperationKey, model: &str, stream: bool) -> RequestTarget {
        RequestTarget {
            method: if key.operation.has_request_body() { Method::POST } else { Method::GET },
            path: format!("/target/{model}/{stream}"),
            query: self.target_query.map(str::to_owned),
        }
    }

    fn list_query(&self, _pair: TransformPair, context: &TransformContext) -> Option<String> {
        let request = context.request.as_ref().unwrap();
        self.note(format!("list {} {:?}", request.path, request.query));
        self.listing.map(str::to_owned)
    }

    fn request_bytes(
        &self,
        pair: TransformPair,
        context: &TransformContext,
        body: &Bytes,
    ) -> Result<Vec<u8>, TransformError> {
        assert_eq!(pair.to, context.target.kind);
        self.note(format!(
            "request {:?} {}",
            context.source.operation,
            String::from_utf8_lossy(body)
        ));
        self.convert("converted", body)
    }

    fn response_bytes(
        &self,
        pair: TransformPair,
        context: &TransformContext,
        body: &Bytes,
    ) -> Result<Vec<u8>, TransformError> {
        assert_eq!(pair.from, context.source.kind);
        assert!(context.request.is_none());
        self.note(format!("response {:?}", context.target.operation));
        self.convert("back", body)
    }

    fn apply_rules(
        &self,
        rules: &[&'static str],
        key: OperationKey,
        kind: Option<ContentGenerationKind>,
        model: &str,
        mut headers: HeaderMap,
        body: Bytes,
    ) -> (HeaderMap, Bytes) {
        self.note(format!("rules {:?} {:?} {model}", key.operation, kind));
        headers.insert("x-ruled", "yes".parse().unwrap());
        let mut document: Value = serde_json::from_slice(&body).unwrap();
        for rule in rules {
            let mut message = value(r#"{"role":"system"}"#);
            message["content"] = Value::String((*rule).to_owned());
            if let Some(messages) = document.get_mut("messages").and_then(Value::as_array_mut) {
                messages.insert(0, message);
            }
        }
        (headers, Bytes::from(serde_json::to_vec(&document).unwrap()))
    }
}

fn settings(raw: bool) -> Value {
    let mut settings = value(
        r#"{
            "base_url": "http://custom.local",
            "api_key_header": "x-api-key",
            "prefetch_stream_before_commit": false
        }"#,
    );
    settings["preserve_raw_request_body"] = Value::Bool(raw);
    settings
}

fn custom_ctx(body: Bytes) -> RequestCtx {
    let mut headers = HeaderMap::new();
    headers.insert("authorization", "Bearer sk-test".parse().unwrap());
    headers.insert("content-type", "application/json".parse().unwrap());
    headers.insert("accept", "text/event-stream".parse().unwrap());
    RequestCtx {
        method: Method::POST,
        path: "/v1/chat/completions".into(),
        query: None,
        headers,
        body,
        op: Some(key(STREAM, CHAT)),
        stream: true,
    }
}

fn ctx(op: OperationKey, path: &str, body: &'static str, stream: bool) -> RequestCtx {
    RequestCtx {
        method: Method::POST,
        path: path.to_owned(),
        query: None,
        headers: HeaderMap::new(),
        body: Bytes::from_static(body.as_bytes()),
        op: Some(op),
        stream,
    }
}

fn member(model: &str) -> Candidate {
    Candidate { upstream_model_id: model.to_owned() }
}

fn streaming_body() -> Bytes {
    Bytes::from_static(
        br#"{ "model" : "client-model", "stream" : true, "messages" : [{"role":"user","content":"hi"}], "custom_extension" : {"unknown":[1,2,3]} }"#,
    )
}

/// Sends a request through the custom channel: the URI and the body that the
/// upstream sees.
fn send(body: Bytes, raw: bool, rules: Option<&[&'static str]>) -> (String, Bytes) {
    let settings = settings(raw);
    let secret = value(r#"{ "api_key": "custom-1" }"#);
    let ctx = custom_ctx(body);
    let mut memo = AttemptMemo::default();
    let parts = request_parts(
        &Tables::default(),
        &ctx,
        &member("server-model"),
        &TransformPlan::Passthrough,
        rules,
        &mut memo,
        CustomChannel.preserve_raw_request_body(&settings),
    )
    .unwrap();
    let request = CustomChannel
        .prepare(PrepareCtx {
            secret: &secret,
            provider_settings: &settings,
            upstream_model_id: "server-model",
            method: parts.method,
            path: &parts.path,
            query: parts.query.as_deref(),
            headers: parts.headers.as_ref().unwrap_or(&ctx.headers),
            body: parts.body,
        })
        .unwrap();
    (request.uri, request.body)
}

fn attempt(
    wire: &Tables,
    ctx: &RequestCtx,
    model: &str,
    plan: &TransformPlan,
    memo: &mut AttemptMemo,
) -> Result<RequestParts, PipelineError> {
    request_parts(wire, ctx, &member(model), plan, None, memo, false)
}

fn body(parts: &RequestParts) -> Value {
    serde_json::from_slice(&parts.body).unwrap()
}

#[test]
fn raw_passthrough_preserves_exact_body_model_and_unknown_fields() {
    let body = streaming_body();
    let (uri, sent) = send(body.clone(), true, None);
    assert_eq!(uri, "http://custom.local/v1/chat/completions");
    assert_eq!(sent, body);
    assert!(sent.windows(b"custom_extension".len()).any(|w| w == b"custom_extension"));
    assert!(sent.windows(b"server-model".len()).all(|w| w != b"server-model"));
    assert!(sent.windows(b"include_usage".len()).all(|w| w != b"include_usage"));
}

#[test]
fn raw_false_retains_model_rewrite_and_usage_injection() {
    let (_, sent) = send(streaming_body(), false, None);
    let body: Value = serde_json::from_slice(&sent).unwrap();
    assert_eq!(body["model"], "server-model");
    assert_eq!(body["stream_options"]["include_usage"], true);
    assert_eq!(body["custom_extension"]["unknown"], value("[1, 2, 3]"));
}

#[test]
fn explicit_process_body_rules_still_apply_in_raw_mode() {
    let original = streaming_body();
    let (_, sent) = send(original.clone(), true, Some(&["EXPLICIT RULE"]));
    assert_ne!(sent, original);
    let body: Value = serde_json::from_slice(&sent).unwrap();
    assert_eq!(body["model"], "client-model");
    assert!(body["messages"].to_string().contains("EXPLICIT RULE"));
    assert!(body.get("stream_options").is_none());
}

#[test]
fn a_raw_attempt_looks_nothing_up() {
    let wire = Tables::default();
    let mut ctx = custom_ctx(Bytes::from_static(b"no json"));
    ctx.query = Some("a=1".to_owned());
    let mut memo = AttemptMemo::default();
    let parts = request_parts(
        &wire,
        &ctx,
        &member("m"),
        &TransformPlan::Passthrough,
        Some(&[]),
        &mut memo,
        true,
    )
    .unwrap();
    assert_eq!(parts.method, Method::POST);
    assert_eq!(parts.path, "/v1/chat/completions");
    assert_eq!(parts.query.as_deref(), Some("a=1"));
    assert_eq!(parts.body, Bytes::from_static(b"no json"));
    assert!(parts.headers.is_none());
    assert!(wire.calls().is_empty());
}

#[test]
fn local_plans_build_no_request() {
    let ctx = custom_ctx(streaming_body());
    let mut memo = AttemptMemo::default();
    let result = attempt(&Tables::default(), &ctx, "m", &TransformPlan::Local, &mut memo);
    assert!(matches!(result, Err(PipelineError::LocalUnimplemented)));
}

#[test]
fn a_body_that_names_the_member_model_is_left_alone() {
    let ctx = ctx(key(GENERATE, CLAUDE), "/v1/messages", r#"{ "model":"m" }"#, true);
    let mut memo = AttemptMemo::default();
    let parts =
        attempt(&Tables::default(), &ctx, "m", &TransformPlan::Passthrough, &mut memo).unwrap();
    assert_eq!(parts.body, ctx.body);
    assert_eq!(parts.path, "/v1/messages");
}

#[test]
fn an_empty_member_model_keeps_the_clients() {
    let wire = Tables::default();
    let ctx = ctx(key(GENERATE, CLAUDE), "/v1/messages", r#"{ "model":"c" }"#, false);
    let mut memo = AttemptMemo::default();
    let parts = attempt(&wire, &ctx, "", &TransformPlan::Passthrough, &mut memo).unwrap();
    assert_eq!(parts.body, ctx.body);
    assert!(wire.calls().is_empty());
}

#[test]
fn a_chat_stream_with_the_right_model_still_asks_for_usage() {
    let ctx = ctx(
        key(STREAM, CHAT),
        "/v1/chat/completions",
        r#"{"model":"m","stream_options":{"other":1},"z":null}"#,
        true,
    );
    let mut memo = AttemptMemo::default();
    let parts =
        attempt(&Tables::default(), &ctx, "m", &TransformPlan::Passthrough, &mut memo).unwrap();
    assert_eq!(
        body(&parts),
        value(r#"{"model":"m","stream_options":{"other":1,"include_usage":true},"z":null}"#)
    );
}

#[test]
fn passthrough_never_sets_the_stream_flag() {
    let ctx = ctx(key(STREAM, RESPONSES), "/v1/responses", r#"{"model":"c"}"#, true);
    let mut memo = AttemptMemo::default();
    let parts =
        attempt(&Tables::default(), &ctx, "m", &TransformPlan::Passthrough, &mut memo).unwrap();
    assert_eq!(body(&parts), value(r#"{"model":"m"}"#));
}

#[test]
fn gemini_moves_to_the_path_of_the_member_model() {
    let wire = Tables { target_query: Some("alt=sse"), ..Tables::default() };
    let mut ctx = ctx(key(STREAM, GEMINI), "/v1beta/models/c:streamGenerateContent", "raw", true);
    ctx.method = Method::PUT;
    ctx.query = Some("key=1&alt=sse".to_owned());
    let mut memo = AttemptMemo::default();
    let parts = attempt(&wire, &ctx, "m", &TransformPlan::Passthrough, &mut memo).unwrap();
    assert_eq!(parts.method, Method::PUT);
    assert_eq!(parts.path, "/target/m/true");
    assert_eq!(parts.query.as_deref(), Some("key=1&alt=sse"));
    assert_eq!(parts.body, ctx.body);

    ctx.query = Some("key=1".to_owned());
    let parts = attempt(&wire, &ctx, "m", &TransformPlan::Passthrough, &mut memo).unwrap();
    assert_eq!(parts.query.as_deref(), Some("key=1&alt=sse"));
    // The body was looked into once for the two attempts.
    assert_eq!(wire.calls(), vec!["peek".to_owned()]);
}

#[test]
fn requests_for_models_have_no_body_to_patch() {
    let wire = Tables::default();
    let op = key(Operation::ListModels, OperationKind::Provider(Provider::OpenAi));
    let ctx = ctx(op, "/v1/models", "", false);
    let mut memo = AttemptMemo::default();
    let parts = attempt(&wire, &ctx, "m", &TransformPlan::Passthrough, &mut memo).unwrap();
    assert_eq!(parts.path, "/v1/models");
    assert!(wire.calls().is_empty());
}

#[test]
fn a_body_that_is_not_json_cannot_be_patched() {
    let ctx = ctx(key(GENERATE, CHAT), "/v1/chat/completions", "no json", false);
    let mut memo = AttemptMemo::default();
    match attempt(&Tables::default(), &ctx, "m", &TransformPlan::Passthrough, &mut memo) {
        Err(PipelineError::TransformRequest(TransformError::InvalidInput { reason })) => {
            let expected = serde_json::from_slice::<Value>(b"no json").unwrap_err().to_string();
            assert_eq!(reason, format!("body patch: body is not JSON: {expected}"));
        }
        _ => panic!("expected invalid input"),
    }
}

fn models_plan() -> TransformPlan {
    let openai = OperationKind::Provider(Provider::OpenAi);
    let claude = OperationKind::Provider(Provider::Claude);
    TransformPlan::Transform {
        request_pair: pair(openai, claude),
        response_pair: pair(claude, openai),
        source: key(Operation::ListModels, openai),
        target: key(Operation::ListModels, claude),
    }
}

#[test]
fn the_query_for_models_is_converted_and_merged() {
    let op = key(Operation::ListModels, OperationKind::Provider(Provider::OpenAi));
    for (target_query, listing, expected) in [
        (Some("a=1"), Some("limit=2"), Some("a=1&limit=2")),
        (Some("limit=2"), Some("limit=2"), Some("limit=2")),
        (None, Some("limit=2"), Some("limit=2")),
        (Some("a=1"), None, Some("a=1")),
        (None, None, None),
    ] {
        let wire = Tables { target_query, listing, ..Tables::default() };
        let mut ctx = ctx(op, "/v1/models", "", false);
        ctx.query = Some("after=x".to_owned());
        let mut memo = AttemptMemo::default();
        let parts = attempt(&wire, &ctx, "m", &models_plan(), &mut memo).unwrap();
        assert_eq!(parts.method, Method::GET);
        assert_eq!(parts.path, "/target/m/false");
        assert_eq!(parts.query.as_deref(), expected);
        assert_eq!(wire.calls(), vec!["list /v1/models Some(\"after=x\")".to_owned()]);
    }
}

fn transform_plan(from: OperationKind, to: OperationKind, operation: Operation) -> TransformPlan {
    TransformPlan::Transform {
        request_pair: pair(from, to),
        response_pair: pair(to, from),
        source: key(operation, from),
        target: key(operation, to),
    }
}

#[test]
fn conversions_see_the_member_model_and_happen_once() {
    let wire = Tables::default();
    let ctx = ctx(key(GENERATE, CHAT), "/v1/chat/completions", r#"{"model":"c"}"#, false);
    let plan = transform_plan(CHAT, CLAUDE, GENERATE);
    let mut memo = AttemptMemo::default();
    let first = attempt(&wire, &ctx, "m", &plan, &mut memo).unwrap();
    assert_eq!(body(&first), value(r#"{"model":"m","converted":true}"#));
    assert_eq!(first.method, Method::POST);
    assert_eq!(first.path, "/target/m/false");
    assert_eq!(
        wire.calls(),
        vec!["peek".to_owned(), "request GenerateContent {\"model\":\"m\"}".to_owned()]
    );
    // The same target and model again: nothing is converted.
    let again = attempt(&wire, &ctx, "m", &plan, &mut memo).unwrap();
    assert_eq!(again.body, first.body);
    assert_eq!(wire.calls().len(), 2);
    // Another model is another body.
    let other = attempt(&wire, &ctx, "n", &plan, &mut memo).unwrap();
    assert_eq!(body(&other), value(r#"{"model":"n","converted":true}"#));
    assert_eq!(wire.calls().len(), 3);
    // And so is another operation in the same format.
    let streamed = transform_plan(CHAT, CLAUDE, STREAM);
    attempt(&wire, &ctx, "m", &streamed, &mut memo).unwrap();
    assert_eq!(wire.calls().len(), 4);
}

#[test]
fn what_a_conversion_could_not_do_is_tried_again() {
    let failing = Tables { fail: true, ..Tables::default() };
    let ctx = ctx(key(GENERATE, CHAT), "/v1/chat/completions", r#"{"model":"c"}"#, false);
    let plan = transform_plan(CHAT, CLAUDE, GENERATE);
    let mut memo = AttemptMemo::default();
    match attempt(&failing, &ctx, "m", &plan, &mut memo) {
        Err(PipelineError::TransformRequest(TransformError::InvalidInput { reason })) => {
            assert_eq!(reason, "converted failed")
        }
        _ => panic!("expected invalid input"),
    }
    let wire = Tables::default();
    assert!(attempt(&wire, &ctx, "m", &plan, &mut memo).is_ok());
    // The inbound model is known from the first attempt.
    assert_eq!(wire.calls(), vec!["request GenerateContent {\"model\":\"m\"}".to_owned()]);
}

#[test]
fn gemini_sources_get_model_and_stream_in_the_body() {
    let wire = Tables::default();
    let ctx = ctx(
        key(STREAM, GEMINI),
        "/v1beta/models/c:streamGenerateContent",
        r#"{"contents":[]}"#,
        true,
    );
    let mut memo = AttemptMemo::default();
    let plan = transform_plan(GEMINI, CHAT, STREAM);
    let parts = attempt(&wire, &ctx, "m", &plan, &mut memo).unwrap();
    assert_eq!(
        body(&parts),
        value(
            r#"{"contents":[],"converted":true,"model":"m","stream":true,
                "stream_options":{"include_usage":true}}"#
        )
    );
    assert_eq!(
        wire.calls()[1],
        "request StreamGenerateContent {\"contents\":[],\"model\":\"m\"}"
    );
}

#[test]
fn gemini_targets_keep_the_converted_body() {
    let wire = Tables::default();
    let ctx = ctx(key(STREAM, CHAT), "/v1/chat/completions", r#"{"model":"m"}"#, true);
    let mut memo = AttemptMemo::default();
    let plan = transform_plan(CHAT, GEMINI, STREAM);
    let parts = attempt(&wire, &ctx, "m", &plan, &mut memo).unwrap();
    assert_eq!(body(&parts), value(r#"{"model":"m","converted":true}"#));
    assert_eq!(parts.path, "/target/m/true");
}

#[test]
fn only_content_gets_a_stream_flag() {
    let openai = OperationKind::Provider(Provider::OpenAi);
    let gemini = OperationKind::Provider(Provider::Gemini);
    let ctx = ctx(
        key(Operation::CreateEmbedding, gemini),
        "/v1beta/models/c:embedContent",
        r#"{"input":"x"}"#,
        true,
    );
    let mut memo = AttemptMemo::default();
    let plan = transform_plan(gemini, openai, Operation::CreateEmbedding);
    let parts = attempt(&Tables::default(), &ctx, "m", &plan, &mut memo).unwrap();
    assert_eq!(body(&parts), value(r#"{"input":"x","converted":true,"model":"m"}"#));
}

#[test]
fn a_synthesized_stream_asks_for_one_piece() {
    for stream in [false, true] {
        let wire = Tables::default();
        let ctx = ctx(
            key(STREAM, CHAT),
            "/v1/chat/completions",
            r#"{"model":"c","stream":true}"#,
            stream,
        );
        let plan = TransformPlan::SynthesizeStream {
            request_pair: Some(pair(CHAT, CLAUDE)),
            response_pair: Some(pair(CLAUDE, CHAT)),
            source: key(STREAM, CHAT),
            target: key(GENERATE, CLAUDE),
        };
        let mut memo = AttemptMemo::default();
        let parts = attempt(&wire, &ctx, "m", &plan, &mut memo).unwrap();
        assert_eq!(body(&parts), value(r#"{"model":"m","stream":false,"converted":true}"#));
        assert_eq!(parts.path, "/target/m/false");
        // The converter is told that the source is one piece, too.
        assert!(wire.calls()[1].starts_with("request GenerateContent "));
        let back = response_body(&wire, &plan, Bytes::from_static(b"{}")).unwrap();
        assert_eq!(back, Bytes::from_static(br#"{"back":true}"#));
        assert_eq!(wire.calls()[2], "response GenerateContent");
        let whole = aggregate_response_body(&wire, &plan, Bytes::from_static(b"x")).unwrap();
        assert_eq!(whole, Bytes::from_static(b"x"));
        assert!(stream_transformer(&plan).is_none());
    }
}

#[test]
fn an_aggregated_stream_is_forced_and_collapsed() {
    for stream in [false, true] {
        let wire = Tables::default();
        let ctx = ctx(key(GENERATE, CLAUDE), "/v1/messages", r#"{"model":"m"}"#, stream);
        let plan = TransformPlan::AggregateStream {
            request_pair: Some(pair(CLAUDE, CHAT)),
            response_pair: Some(pair(CHAT, CLAUDE)),
            source: key(GENERATE, CLAUDE),
            target: key(STREAM, CHAT),
        };
        let mut memo = AttemptMemo::default();
        let parts = attempt(&wire, &ctx, "m", &plan, &mut memo).unwrap();
        assert_eq!(
            body(&parts),
            value(
                r#"{"model":"m","stream":true,"converted":true,
                    "stream_options":{"include_usage":true}}"#
            )
        );
        assert_eq!(parts.path, "/target/m/true");
        let relayed = response_body(&wire, &plan, Bytes::from_static(b"x")).unwrap();
        assert_eq!(relayed, Bytes::from_static(b"x"));
        let back = aggregate_response_body(&wire, &plan, Bytes::from_static(b"{}")).unwrap();
        assert_eq!(back, Bytes::from_static(br#"{"back":true}"#));
        let transformer = stream_transformer(&plan).unwrap();
        assert_eq!(transformer.pair, pair(CHAT, CLAUDE));
        assert_eq!(transformer.inbound, ContentGenerationKind::ClaudeMessages);
        assert_eq!(transformer.context.source, key(STREAM, CHAT));
        assert_eq!(transformer.context.target, key(GENERATE, CLAUDE));
    }
}

#[test]
fn same_format_restreaming_converts_nothing() {
    let wire = Tables::default();
    let request = ctx(key(GENERATE, CHAT), "/v1/chat/completions", r#"{"model":"c"}"#, false);
    let plan = TransformPlan::AggregateStream {
        request_pair: None,
        response_pair: None,
        source: key(GENERATE, CHAT),
        target: key(STREAM, CHAT),
    };
    let mut memo = AttemptMemo::default();
    let parts = attempt(&wire, &request, "m", &plan, &mut memo).unwrap();
    assert_eq!(
        body(&parts),
        value(r#"{"model":"m","stream":true,"stream_options":{"include_usage":true}}"#)
    );
    assert!(stream_transformer(&plan).is_none());
    let back = aggregate_response_body(&wire, &plan, Bytes::from_static(b"x")).unwrap();
    assert_eq!(back, Bytes::from_static(b"x"));

    let gemini = ctx(key(STREAM, GEMINI), "/v1beta/models/c:streamGenerateContent", "{ }", true);
    let plan = TransformPlan::SynthesizeStream {
        request_pair: None,
        response_pair: None,
        source: key(STREAM, GEMINI),
        target: key(GENERATE, GEMINI),
    };
    let parts = attempt(&wire, &gemini, "m", &plan, &mut memo).unwrap();
    assert_eq!(parts.body, gemini.body);
    let back = response_body(&wire, &plan, Bytes::from_static(b"x")).unwrap();
    assert_eq!(back, Bytes::from_static(b"x"));
    assert_eq!(wire.calls(), vec!["peek".to_owned()]);
}

#[test]
fn responses_are_converted_back() {
    let wire = Tables::default();
    let plan = transform_plan(CHAT, CLAUDE, GENERATE);
    let back = response_body(&wire, &plan, Bytes::from_static(b"{}")).unwrap();
    assert_eq!(back, Bytes::from_static(br#"{"back":true}"#));
    for plan in [TransformPlan::Passthrough, TransformPlan::Local] {
        let same = response_body(&wire, &plan, Bytes::from_static(b"x")).unwrap();
        assert_eq!(same, Bytes::from_static(b"x"));
        assert!(stream_transformer(&plan).is_none());
    }
    let failing = Tables { fail: true, ..Tables::default() };
    match response_body(&failing, &plan, Bytes::from_static(b"{}")) {
        Err(PipelineError::TransformResponse(TransformError::InvalidInput { reason })) => {
            assert_eq!(reason, "back failed")
        }
        _ => panic!("expected invalid input"),
    }
    let transformer = stream_transformer(&transform_plan(CHAT, CLAUDE, STREAM)).unwrap();
    assert_eq!(transformer.pair, pair(CLAUDE, CHAT));
    assert_eq!(transformer.inbound, ContentGenerationKind::OpenAiChatCompletions);
    assert!(stream_transformer(&models_plan()).is_none());
}

#[test]
fn rules_see_the_inbound_model() {
    let rules: [&'static str; 1] = ["R"];
    for (model_in_body, path, expected) in [
        (r#"{"model":"c","messages":[]}"#, "/v1/models/p:x", "c"),
        (r#"{"messages":[]}"#, "/v1/models/p:x", "p"),
        (r#"{"messages":[]}"#, "/v1/chat/completions", "m"),
    ] {
        let wire = Tables::default();
        let mut request = ctx(key(GENERATE, CHAT), path, model_in_body, false);
        request.headers.insert("x-client", "1".parse().unwrap());
        let mut memo = AttemptMemo::default();
        let parts = request_parts(
            &wire,
            &request,
            &member("m"),
            &TransformPlan::Passthrough,
            Some(&rules),
            &mut memo,
            true,
        )
        .unwrap();
        assert_eq!(
            wire.calls().last().unwrap(),
            &format!("rules GenerateContent Some(OpenAiChatCompletions) {expected}")
        );
        assert_eq!(body(&parts)["messages"][0]["content"], "R");
        let headers = parts.headers.unwrap();
        assert_eq!(headers.get("x-client").unwrap(), "1");
        assert_eq!(headers.get("x-ruled").unwrap(), "yes");
        // The client's own headers stay as they are.
        assert!(request.headers.get("x-ruled").is_none());
    }
}

#[test]
fn rules_act_after_the_memo() {
    let wire = Tables::default();
    let request = ctx(
        key(GENERATE, CHAT),
        "/v1/chat/completions",
        r#"{"model":"m","messages":[]}"#,
        false,
    );
    let plan = transform_plan(CHAT, CLAUDE, GENERATE);
    let rules: [&'static str; 1] = ["R"];
    let mut memo = AttemptMemo::default();
    for _ in 0..2 {
        let parts =
            request_parts(&wire, &request, &member("m"), &plan, Some(&rules), &mut memo, false)
                .unwrap();
        assert_eq!(body(&parts)["messages"].as_array().unwrap().len(), 1);
    }
    let kept = memo.body(key(GENERATE, CLAUDE), "m").unwrap();
    let kept: Value = serde_json::from_slice(&kept).unwrap();
    assert!(kept["messages"].as_array().unwrap().is_empty());
}

#[test]
fn the_memo_keeps_the_latest_body() {
    let mut memo = AttemptMemo::default();
    let target = key(GENERATE, CHAT);
    assert!(memo.body(target, "m").is_none());
    memo.remember(target, "m", &Bytes::from_static(b"1"));
    memo.remember(target, "n", &Bytes::from_static(b"2"));
    memo.remember(target, "m", &Bytes::from_static(b"3"));
    assert_eq!(memo.body(target, "m").unwrap(), Bytes::from_static(b"3"));
    assert_eq!(memo.body(target, "n").unwrap(), Bytes::from_static(b"2"));
    assert!(memo.body(key(STREAM, CHAT), "m").is_none());
}

#[test]
fn the_inbound_model_is_looked_up_once() {
    let wire = Tables::default();
    let mut memo = AttemptMemo::default();
    let body = Bytes::from_static(b"{}");
    assert_eq!(memo.inbound_model(&wire, &body), None);
    let other = Bytes::from_static(br#"{"model":"m"}"#);
    assert_eq!(memo.inbound_model(&wire, &other), None);
    assert_eq!(wire.calls().len(), 1);
}

#[test]
fn formats_say_where_the_model_is() {
    assert!(body_carries_model(CHAT));
    assert!(body_carries_model(RESPONSES));
    assert!(body_carries_model(CLAUDE));
    assert!(!body_carries_model(GEMINI));
    assert!(body_carries_model(OperationKind::Provider(Provider::OpenAi)));
    assert!(body_carries_model(OperationKind::Provider(Provider::Claude)));
    assert!(!body_carries_model(OperationKind::Provider(Provider::Gemini)));
    assert!(is_openai_chat(CHAT));
    assert!(!is_openai_chat(RESPONSES));
    assert!(!is_openai_chat(OperationKind::Provider(Provider::OpenAi)));
}

#[test]
fn queries_are_merged_once() {
    assert_eq!(merge_query(None, "alt=sse"), "alt=sse");
    assert_eq!(merge_query(Some(""), "alt=sse"), "alt=sse");
    assert_eq!(merge_query(Some("a=1"), "alt=sse"), "a=1&alt=sse");
    assert_eq!(merge_query(Some("a=1&alt=sse&b"), "alt=sse"), "a=1&alt=sse&b");
    assert_eq!(merge_query(Some("xalt=sse"), "alt=sse"), "xalt=sse&alt=sse");
    let once = merge_query(Some("é=1"), "k");
    assert_eq!(once, "é=1&k");
    assert_eq!(merge_query(Some(&once), "k"), once);
    // Two parameters at once are not recognised as one.
    assert_eq!(merge_query(Some("a&b"), "a&b"), "a&b&a&b");
}

#[test]
fn patches_set_what_they_are_asked() {
    let patch = |text: &'static str, model, stream, usage| {
        let patched = patch_body(&Bytes::from_static(text.as_bytes()), model, stream, usage);
        String::from_utf8(patched.unwrap().to_vec()).unwrap()
    };
    assert_eq!(
        patch(r#"{"z":1,"a":[true]}"#, Some("m"), Some(false), true),
        r#"{"a":[true],"model":"m","stream":false,"stream_options":{"include_usage":true},"z":1}"#
    );
    assert_eq!(
        patch(r#"{"stream_options":null}"#, None, None, true),
        r#"{"stream_options":{"include_usage":true}}"#
    );
    assert_eq!(
        patch(r#"{"stream_options":{"a":1,"include_usage":false}}"#, None, None, true),
        r#"{"stream_options":{"a":1,"include_usage":true}}"#
    );
    assert_eq!(patch(" [1, 2] ", Some("m"), Some(true), true), "[1,2]");
    assert_eq!(patch(r#"{"model":"c"}"#, None, None, false), r#"{"model":"c"}"#);
    let once = patch(r#"{"b":2}"#, Some("m"), Some(true), true);
    let again =
        patch_body(&Bytes::from(once.clone()), Some("m"), Some(true), true).unwrap().to_vec();
    assert_eq!(once.into_bytes(), again);
}

#[test]
fn documents_are_patched_in_place() {
    let mut document = value(r#"{"model":"c","n":7}"#);
    patch_document(&mut document, Some("m"), None, true);
    assert_eq!(
        document,
        value(r#"{"model":"m","n":7,"stream_options":{"include_usage":true}}"#)
    );
}

#[test]
fn bodies_with_reals_read_as_asked() {
    let text = r#"{"model":"c","temperature":0.7,"stop":[1e-3,-2.5e20],"top_p":1.0}"#;
    let others = [("temperature", 0.7), ("top_p", 1.0)];
    let aggregate = TransformPlan::AggregateStream {
        request_pair: None,
        response_pair: None,
        source: key(GENERATE, CHAT),
        target: key(STREAM, CHAT),
    };
    let synthesize = TransformPlan::SynthesizeStream {
        request_pair: None,
        response_pair: None,
        source: key(STREAM, CHAT),
        target: key(GENERATE, CHAT),
    };
    for (plan, flag, usage) in [
        (TransformPlan::Passthrough, None, true),
        (transform_plan(CHAT, CLAUDE, STREAM), Some(true), false),
        (aggregate, Some(true), true),
        (synthesize, Some(false), false),
    ] {
        let ctx = ctx(key(STREAM, CHAT), "/v1/chat/completions", text, true);
        let mut memo = AttemptMemo::default();
        let parts = attempt(&Tables::default(), &ctx, "m", &plan, &mut memo).unwrap();
        let sent = body(&parts);
        assert_eq!(sent["model"], "m");
        assert_eq!(sent.get("stream").and_then(Value::as_bool), flag);
        assert_eq!(sent.get("stream_options").is_some(), usage);
        for (name, number) in others {
            assert_eq!(sent[name].as_f64(), Some(number));
        }
        assert_eq!(sent["stop"], value("[1e-3,-2.5e20]"));
    }
}

#[test]
fn patching_a_text_with_reals_again_changes_nothing() {
    let text = Bytes::from_static(br#"{"temperature":0.7,"n":[1.5e300,5e-324]}"#);
    let once = patch_body(&text, Some("m"), Some(true), true).unwrap();
    let again = patch_body(&once, Some("m"), Some(true), true).unwrap();
    assert_eq!(once, again);
    assert_eq!(
        serde_json::from_slice::<Value>(&once).unwrap()["temperature"].as_f64(),
        Some(0.7)
    );
}

#[test]
fn a_text_that_reads_as_written_is_patched_once() {
    let text = Bytes::from_static(br#"{"x":[1e308,-1.0,12345678901234567890]}"#);
    let once = patch_body(&text, Some("m"), None, false).unwrap();
    let read: Value = serde_json::from_slice(&once).unwrap();
    assert_eq!(read, value(r#"{"model":"m","x":[1e308,-1.0,12345678901234567890]}"#));
    assert_eq!(patch_body(&once, Some("m"), None, false).unwrap(), once);
}

#[test]
fn a_real_that_drifts_leaves_the_rest_alone() {
    let text = Bytes::from_static(br#"{"x":31.2452701914394368,"y":[1]}"#);
    let once = patch_body(&text, Some("m"), Some(true), false).unwrap();
    let again = patch_body(&once, Some("m"), Some(true), false).unwrap();
    let read: Value = serde_json::from_slice(&again).unwrap();
    assert_eq!(read["model"], "m");
    assert_eq!(read["stream"], true);
    assert_eq!(read["y"], value("[1]"));
    assert!(read["x"].is_f64());
}

#[test]
fn earlier_attempts_do_not_show() {
    let wire = Tables::default();
    let request = ctx(
        key(GENERATE, CHAT),
        "/v1/chat/completions",
        r#"{"model":"c","messages":[]}"#,
        false,
    );
    let rules: [&'static str; 1] = ["R"];
    let plans = [
        transform_plan(CHAT, CLAUDE, GENERATE),
        TransformPlan::Local,
        TransformPlan::Transform {
            request_pair: pair(CHAT, CLAUDE),
            response_pair: pair(CLAUDE, CHAT),
            source: key(GENERATE, CHAT),
            target: key(STREAM, CLAUDE),
        },
        TransformPlan::Passthrough,
    ];
    let mut used = AttemptMemo::default();
    for _ in 0..2 {
        for plan in &plans {
            for model in ["m", "n", ""] {
                for rules in [None, Some(rules.as_slice())] {
                    let candidate = member(model);
                    let mut fresh = AttemptMemo::default();
                    let again =
                        request_parts(&wire, &request, &candidate, plan, rules, &mut used, false);
                    let first =
                        request_parts(&wire, &request, &candidate, plan, rules, &mut fresh, false);
                    match (again, first) {
                        (Ok(again), Ok(first)) => {
                            assert_eq!(again.method, first.method);
                            assert_eq!(again.path, first.path);
                            assert_eq!(again.query, first.query);
                            assert_eq!(again.body, first.body);
                            assert_eq!(again.headers, first.headers);
                        }
                        (Err(again), Err(first)) => {
                            assert_eq!(format!("{again:?}"), format!("{first:?}"))
                        }
                        _ => panic!("one failed and the other did not"),
                    }
                }
            }
        }
    }
}

#[test]
fn rules_change_headers_and_body_alone() {
    let wire = Tables { target_query: Some("a=1"), ..Tables::default() };
    let mut request = ctx(
        key(GENERATE, CHAT),
        "/v1/chat/completions",
        r#"{"model":"c","messages":[]}"#,
        false,
    );
    request.headers.insert("x-client", "1".parse().unwrap());
    let plan = transform_plan(CHAT, CLAUDE, GENERATE);
    let rules: [&'static str; 1] = ["R"];
    let run = |rules: Option<&[&'static str]>| {
        let mut memo = AttemptMemo::default();
        request_parts(&wire, &request, &member("m"), &plan, rules, &mut memo, false).unwrap()
    };
    let plain = run(None);
    let ruled = run(Some(&rules));
    assert_eq!(ruled.method, plain.method);
    assert_eq!(ruled.path, plain.path);
    assert_eq!(ruled.query, plain.query);
    let (headers, body) = wire.apply_rules(
        &rules,
        key(GENERATE, CLAUDE),
        Some(ContentGenerationKind::ClaudeMessages),
        "c",
        request.headers.clone(),
        plain.body.clone(),
    );
    assert_eq!(ruled.headers, Some(headers));
    assert_eq!(ruled.body, body);
    let none = run(Some(&[]));
    assert_eq!(none.body, plain.body);
    assert!(none.headers.is_none());
}
