//! The custom channel: a transparent passage to any upstream that speaks one of
//! the known protocols. The upstream's `base_url` has to be set; the header
//! field that authenticates follows the protocol of the request.

pub mod auth;
pub mod auth_laws;
pub mod laws;
pub mod oauth;
pub mod oauth_laws;
pub mod usage;
pub mod usage_laws;

use crate::channel::common::{
    api_key, base_url, bearer, field_value, inject_bearer, join_url, require_api_key,
    resolve_base_url, unsendable, url, PrepareCtx,
};
use crate::channel::custom::auth::{authenticated, carried, carrier, chosen_header, protocol_of};
use crate::channel::custom::oauth::{access_token_of, is_due};
use crate::channel::custom::usage::{
    answer_document, is_parsed, question, usage_request, UsagePayload, UsageReport,
};
use crate::channel::error::{ChannelError, ChannelFault};
use crate::json::{bool_member, json, Json};
use crate::protocol::{
    cg, pass, passed, pv, ContentGenerationKind, Operation, OperationKind, Provider, Route,
    RouteList,
};
use crate::transport::{is_value_text, method_name, octets, Outbound, OutboundRequest};
use bytes::Bytes;
use http::{HeaderMap, StatusCode};
use serde_json::Value;
use vstd::prelude::*;

verus! {

/// The custom channel.
pub struct CustomChannel;

/// The truth value of a setting that is off unless it is true.
pub open spec fn switched_on(settings: Json, key: Seq<char>) -> bool {
    settings.bool_member(key) == Some(true)
}

/// The rows for an operation that every family has a format for.
pub open spec fn family_rows(operation: Operation) -> Seq<Route> {
    seq![
        passed(operation, OperationKind::Provider(Provider::OpenAi)),
        passed(operation, OperationKind::Provider(Provider::Claude)),
        passed(operation, OperationKind::Provider(Provider::Gemini)),
    ]
}

/// The rows for a content generation.
pub open spec fn content_rows(operation: Operation) -> Seq<Route> {
    seq![
        passed(
            operation,
            OperationKind::ContentGeneration(ContentGenerationKind::OpenAiResponses),
        ),
        passed(
            operation,
            OperationKind::ContentGeneration(ContentGenerationKind::OpenAiChatCompletions),
        ),
        passed(
            operation,
            OperationKind::ContentGeneration(ContentGenerationKind::ClaudeMessages),
        ),
        passed(
            operation,
            OperationKind::ContentGeneration(ContentGenerationKind::GeminiGenerateContent),
        ),
    ]
}

/// The routing table: everything is passed through.
pub open spec fn custom_routes() -> Seq<Route> {
    family_rows(Operation::ListModels) + family_rows(Operation::GetModel) + family_rows(
        Operation::CountTokens,
    ) + content_rows(Operation::GenerateContent) + content_rows(Operation::StreamGenerateContent)
        + family_rows(Operation::CreateEmbedding) + family_rows(Operation::CreateImage)
        + family_rows(Operation::EditImage) + family_rows(Operation::CompactContent)
}

/// What preparing a request comes to. A connected account authenticates with
/// its access token; any other credential with its API key. Neither header
/// fields nor query parameters of the client are forwarded.
pub open spec fn prepared(
    secret: Json,
    settings: Json,
    method: Seq<char>,
    path: Seq<char>,
    body: Seq<u8>,
) -> Result<Outbound, ChannelFault> {
    let none = Map::<Seq<char>, Seq<Seq<u8>>>::empty();
    match access_token_of(secret) {
        Some(token) => match base_url(settings) {
            Ok(base) => match url(base, path) {
                Ok(uri) => if is_value_text(bearer(token)) {
                    Ok(
                        Outbound {
                            method,
                            uri,
                            fields: none.insert("authorization"@, field_value(bearer(token))),
                            body,
                        },
                    )
                } else {
                    Err(unsendable())
                },
                Err(e) => Err(e),
            },
            Err(e) => Err(e),
        },
        None => match chosen_header(settings) {
            Ok(header) => match base_url(settings) {
                Ok(base) => match api_key(secret) {
                    Ok(key) => match url(base, path) {
                        Ok(uri) => if is_value_text(
                            carried(carrier(header, protocol_of(path)), key),
                        ) {
                            Ok(
                                Outbound {
                                    method,
                                    uri,
                                    fields: authenticated(none, key, header, protocol_of(path)),
                                    body,
                                },
                            )
                        } else {
                            Err(unsendable())
                        },
                        Err(e) => Err(e),
                    },
                    Err(e) => Err(e),
                },
                Err(e) => Err(e),
            },
            Err(e) => Err(e),
        },
    }
}

/// The request or the fault that a result holds.
pub open spec fn request_result(result: Result<OutboundRequest, ChannelError>) -> Result<
    Outbound,
    ChannelFault,
> {
    match result {
        Ok(request) => Ok(request@),
        Err(e) => Err(e@),
    }
}

impl CustomChannel {
    /// The name of the channel.
    pub fn id(&self) -> (r: &'static str)
        ensures
            r@ == "custom"@,
    {
        "custom"
    }

    /// The family that the channel belongs to.
    pub fn provider_family(&self) -> (r: Provider)
        ensures
            r == Provider::OpenAi,
    {
        Provider::OpenAi
    }

    /// The routing table: every operation in every format is passed through.
    pub fn routing_table(&self) -> (r: RouteList)
        ensures
            r@ == custom_routes(),
    {
        vec![
            pass(Operation::ListModels, pv(Provider::OpenAi)),
            pass(Operation::ListModels, pv(Provider::Claude)),
            pass(Operation::ListModels, pv(Provider::Gemini)),
            pass(Operation::GetModel, pv(Provider::OpenAi)),
            pass(Operation::GetModel, pv(Provider::Claude)),
            pass(Operation::GetModel, pv(Provider::Gemini)),
            pass(Operation::CountTokens, pv(Provider::OpenAi)),
            pass(Operation::CountTokens, pv(Provider::Claude)),
            pass(Operation::CountTokens, pv(Provider::Gemini)),
            pass(Operation::GenerateContent, cg(ContentGenerationKind::OpenAiResponses)),
            pass(Operation::GenerateContent, cg(ContentGenerationKind::OpenAiChatCompletions)),
            pass(Operation::GenerateContent, cg(ContentGenerationKind::ClaudeMessages)),
            pass(Operation::GenerateContent, cg(ContentGenerationKind::GeminiGenerateContent)),
            pass(Operation::StreamGenerateContent, cg(ContentGenerationKind::OpenAiResponses)),
            pass(
                Operation::StreamGenerateContent,
                cg(ContentGenerationKind::OpenAiChatCompletions),
            ),
            pass(Operation::StreamGenerateContent, cg(ContentGenerationKind::ClaudeMessages)),
            pass(
                Operation::StreamGenerateContent,
                cg(ContentGenerationKind::GeminiGenerateContent),
            ),
            pass(Operation::CreateEmbedding, pv(Provider::OpenAi)),
            pass(Operation::CreateEmbedding, pv(Provider::Claude)),
            pass(Operation::CreateEmbedding, pv(Provider::Gemini)),
            pass(Operation::CreateImage, pv(Provider::OpenAi)),
            pass(Operation::CreateImage, pv(Provider::Claude)),
            pass(Operation::CreateImage, pv(Provider::Gemini)),
            pass(Operation::EditImage, pv(Provider::OpenAi)),
            pass(Operation::EditImage, pv(Provider::Claude)),
            pass(Operation::EditImage, pv(Provider::Gemini)),
            pass(Operation::CompactContent, pv(Provider::OpenAi)),
            pass(Operation::CompactContent, pv(Provider::Claude)),
            pass(Operation::CompactContent, pv(Provider::Gemini)),
        ]
    }

    /// The request to the upstream.
    pub fn prepare(&self, ctx: PrepareCtx<'_>) -> (r: Result<OutboundRequest, ChannelError>)
        ensures
            request_result(r) == prepared(
                json(*ctx.secret),
                json(*ctx.provider_settings),
                method_name(ctx.method),
                ctx.path@,
                octets(ctx.body),
            ),
    {
        if let Some(token) = oauth::access_token(ctx.secret) {
            let base = match resolve_base_url(ctx.provider_settings) {
                Ok(base) => base,
                Err(e) => {
                    return Err(e);
                },
            };
            let uri = match join_url(base, ctx.path) {
                Ok(uri) => uri,
                Err(e) => {
                    return Err(e);
                },
            };
            let mut headers = HeaderMap::new();
            return match inject_bearer(&mut headers, token) {
                Ok(_) => Ok(OutboundRequest { method: ctx.method, uri, headers, body: ctx.body }),
                Err(e) => Err(e),
            };
        }
        let header = match auth::configured(ctx.provider_settings) {
            Ok(header) => header,
            Err(e) => {
                return Err(e);
            },
        };
        let proto = auth::detect(ctx.path);
        let base = match resolve_base_url(ctx.provider_settings) {
            Ok(base) => base,
            Err(e) => {
                return Err(e);
            },
        };
        let key = match require_api_key(ctx.secret) {
            Ok(key) => key,
            Err(e) => {
                return Err(e);
            },
        };
        let uri = match join_url(base, ctx.path) {
            Ok(uri) => uri,
            Err(e) => {
                return Err(e);
            },
        };
        let mut headers = HeaderMap::new();
        match auth::apply(&mut headers, key, header, proto) {
            Ok(_) => Ok(OutboundRequest { method: ctx.method, uri, headers, body: ctx.body }),
            Err(e) => Err(e),
        }
    }

    /// Whether a credential is due for a refresh at `now`, in seconds.
    pub fn needs_refresh(&self, secret: &Value, now: i64) -> (r: bool)
        ensures
            r == is_due(json(*secret), now),
    {
        oauth::needs_refresh(secret, now)
    }

    /// Whether requests go out with exactly the body that they came with.
    pub fn preserve_raw_request_body(&self, provider_settings: &Value) -> (r: bool)
        ensures
            r == switched_on(json(*provider_settings), "preserve_raw_request_body"@),
    {
        bool_member(provider_settings, "preserve_raw_request_body").unwrap_or(false)
    }

    /// Whether the beginning of a stream is read before the client sees any of
    /// it.
    pub fn prefetch_stream_before_commit(&self, provider_settings: &Value) -> (r: bool)
        ensures
            r == switched_on(json(*provider_settings), "prefetch_stream_before_commit"@),
    {
        bool_member(provider_settings, "prefetch_stream_before_commit").unwrap_or(false)
    }

    /// The question how much of the account has been used, if it is to be asked.
    pub fn prepare_usage_request(&self, secret: &Value, settings: &Value) -> (r: Result<
        Option<OutboundRequest>,
        ChannelError,
    >)
        ensures
            question(r) == usage_request(json(*secret), json(*settings)),
    {
        usage::request(secret, settings)
    }

    /// What the answer to that question makes known; `decode` reads its
    /// document.
    pub fn parse_usage<A: Copy, D: Fn(&Value) -> Option<UsagePayload<A>>>(
        &self,
        status: StatusCode,
        body: &Bytes,
        decode: D,
    ) -> (r: Option<UsageReport<A>>)
        requires
            forall|value: Value| #[trigger] call_requires(decode, (&value,)),
        ensures
            is_parsed(decode, answer_document(status, octets(*body)), r),
    {
        usage::parse(status, body, decode)
    }
}

} // verus!
