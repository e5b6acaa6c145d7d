//! The protocol tables, converters and rules that a deployment brings along.

use crate::pipeline::error::{TransformError, TransformFault};
use crate::pipeline::plan::TransformPair;
use crate::protocol::{ContentGenerationKind, OperationKey};
use crate::text::{optional, optional_str};
use crate::transport::{fields, method_name, octets};
use bytes::Bytes;
use http::{HeaderMap, HeaderValue, Method};
use vstd::prelude::*;

verus! {

/// Where an operation lives at an upstream.
pub struct RequestTarget {
    pub method: Method,
    pub path: String,
    pub query: Option<String>,
}

/// What a `RequestTarget` says.
pub struct Endpoint {
    pub method: Seq<char>,
    pub path: Seq<char>,
    pub query: Option<Seq<char>>,
}

impl View for RequestTarget {
    type V = Endpoint;

    open spec fn view(&self) -> Endpoint {
        Endpoint {
            method: method_name(self.method),
            path: self.path@,
            query: optional(self.query),
        }
    }
}

/// What a conversion is told besides the body: the operation that it comes
/// from, the one that it goes to, and for a request where it came in.
pub struct TransformContext {
    pub source: OperationKey,
    pub target: OperationKey,
    pub request: Option<InboundRequest>,
}

/// Where a request came in.
pub struct InboundRequest {
    pub path: String,
    pub query: Option<String>,
}

/// What a `TransformContext` says.
pub struct Conversion {
    pub source: OperationKey,
    pub target: OperationKey,
    pub request: Option<(Seq<char>, Option<Seq<char>>)>,
}

impl View for TransformContext {
    type V = Conversion;

    open spec fn view(&self) -> Conversion {
        Conversion {
            source: self.source,
            target: self.target,
            request: match self.request {
                Some(inbound) => Some((inbound.path@, optional(inbound.query))),
                None => None,
            },
        }
    }
}

impl TransformContext {
    /// A conversion from `source` to `target`.
    pub fn new(source: OperationKey, target: OperationKey) -> (r: TransformContext)
        ensures
            r@ == (Conversion { source, target, request: None }),
    {
        TransformContext { source, target, request: None }
    }

    /// This conversion, of a request that came in at `path` with `query`.
    pub fn with_request(self, path: &str, query: Option<&str>) -> (r: TransformContext)
        ensures
            r@ == (Conversion {
                request: Some((path@, optional_str(query))),
                ..self@
            }),
    {
        let query = match query {
            Some(q) => Some(q.to_owned()),
            None => None,
        };
        TransformContext {
            source: self.source,
            target: self.target,
            request: Some(InboundRequest { path: path.to_owned(), query }),
        }
    }
}

/// The protocol tables, converters and rules of a deployment. Nothing is taken
/// for granted of them: what the pipeline says about its results, it says for
/// whatever they answer.
pub trait Wire {
    /// A rule that rewrites provider-native requests.
    type Rule;

    /// The model that a request body names.
    fn peek_model(&self, body: &Bytes) -> Option<String>;

    /// The model that a request path names.
    fn path_model_id(&self, path: &str) -> Option<String>;

    /// Where the operation `key` lives for `model`, streamed or not.
    fn request_target(&self, key: OperationKey, model: &str, stream: bool) -> RequestTarget;

    /// The converted query of a request that lists models.
    fn list_query(&self, pair: TransformPair, context: &TransformContext) -> Option<String>;

    /// The converted body of a request.
    fn request_bytes(
        &self,
        pair: TransformPair,
        context: &TransformContext,
        body: &Bytes,
    ) -> Result<Vec<u8>, TransformError>;

    /// The converted body of a response.
    fn response_bytes(
        &self,
        pair: TransformPair,
        context: &TransformContext,
        body: &Bytes,
    ) -> Result<Vec<u8>, TransformError>;

    /// Headers and body of the provider-native request `key` after `rules`.
    fn apply_rules(
        &self,
        rules: &[Self::Rule],
        key: OperationKey,
        kind: Option<ContentGenerationKind>,
        model: &str,
        headers: HeaderMap<HeaderValue>,
        body: Bytes,
    ) -> (HeaderMap<HeaderValue>, Bytes);
}

/// What a conversion came to.
pub open spec fn converted(result: Result<Vec<u8>, TransformError>) -> Result<
    Seq<u8>,
    TransformFault,
> {
    match result {
        Ok(body) => Ok(body@),
        Err(e) => Err(e@),
    }
}

/// `wire` answers `model` for the model that `body` names.
pub open spec fn peeks<W: Wire>(wire: &W, body: Bytes, model: Option<Seq<char>>) -> bool {
    exists|answer: Option<String>| #[trigger]
        call_ensures(W::peek_model, (wire, &body), answer) && optional(answer) == model
}

/// `wire` answers `model` for the model that `path` names.
pub open spec fn finds_in_path<W: Wire>(
    wire: &W,
    path: Seq<char>,
    model: Option<Seq<char>>,
) -> bool {
    exists|text: &str, answer: Option<String>| #[trigger]
        call_ensures(W::path_model_id, (wire, text), answer) && text@ == path && optional(answer)
            == model
}

/// `wire` answers `endpoint` for where `key` lives.
pub open spec fn locates<W: Wire>(
    wire: &W,
    key: OperationKey,
    model: Seq<char>,
    stream: bool,
    endpoint: Endpoint,
) -> bool {
    exists|text: &str, answer: RequestTarget| #[trigger]
        call_ensures(W::request_target, (wire, key, text, stream), answer) && text@ == model
            && answer@ == endpoint
}

/// `wire` answers `query` for the converted query of a request that lists
/// models.
pub open spec fn lists<W: Wire>(
    wire: &W,
    pair: TransformPair,
    conversion: Conversion,
    query: Option<Seq<char>>,
) -> bool {
    exists|context: TransformContext, answer: Option<String>| #[trigger]
        call_ensures(W::list_query, (wire, pair, &context), answer) && context@ == conversion
            && optional(answer) == query
}

/// `wire` answers `result` for the conversion of a request `body`.
pub open spec fn converts_request<W: Wire>(
    wire: &W,
    pair: TransformPair,
    conversion: Conversion,
    body: Seq<u8>,
    result: Result<Seq<u8>, TransformFault>,
) -> bool {
    exists|context: TransformContext, bytes: Bytes, answer: Result<Vec<u8>, TransformError>|
     #[trigger]
        call_ensures(W::request_bytes, (wire, pair, &context, &bytes), answer) && context@
            == conversion && octets(bytes) == body && converted(answer) == result
}

/// `wire` answers `result` for the conversion of a response `body`.
pub open spec fn converts_response<W: Wire>(
    wire: &W,
    pair: TransformPair,
    conversion: Conversion,
    body: Seq<u8>,
    result: Result<Seq<u8>, TransformFault>,
) -> bool {
    exists|context: TransformContext, bytes: Bytes, answer: Result<Vec<u8>, TransformError>|
     #[trigger]
        call_ensures(W::response_bytes, (wire, pair, &context, &bytes), answer) && context@
            == conversion && octets(bytes) == body && converted(answer) == result
}

/// `wire` answers the header fields `after.0` and the body `after.1` for the
/// request `key` with `before.0` and `before.1`.
pub open spec fn rewrites<W: Wire>(
    wire: &W,
    rules: &[W::Rule],
    key: OperationKey,
    kind: Option<ContentGenerationKind>,
    model: Seq<char>,
    before: (Map<Seq<char>, Seq<Seq<u8>>>, Seq<u8>),
    after: (Map<Seq<char>, Seq<Seq<u8>>>, Seq<u8>),
) -> bool {
    exists|
        text: &str,
        headers: HeaderMap<HeaderValue>,
        body: Bytes,
        answer: (HeaderMap<HeaderValue>, Bytes),
    | #[trigger]
        call_ensures(W::apply_rules, (wire, rules, key, kind, text, headers, body), answer)
            && text@ == model && (fields(headers), octets(body)) == before && (
        fields(answer.0), octets(answer.1)) == after
}

} // verus!
