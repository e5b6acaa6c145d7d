//! Changes to a provider-native body: the member model, the stream flag and the
//! request for a final usage chunk.

use crate::json::{
    bool_value, from_slice, get_mut, json, json_document, json_text, like_without_reals_is_same,
    max_depth, members, object_value, text_value, to_vec, Json,
};
use crate::pipeline::error::{PipelineError, PipelineFault, TransformError, TransformFault};
use crate::protocol::{ContentGenerationKind, OperationKind, Provider};
use crate::text::{any_is, optional_str, split, split_text};
use crate::transport::octets;
use bytes::Bytes;
use serde_json::Value;
use vstd::prelude::*;
use vstd::string::StringExecFns;

verus! {

/// Whether this wire format carries the model in the request body. Gemini keeps
/// the model and the stream flag in the path; every other family has them in
/// the body, whatever the operation.
pub open spec fn carries_model(kind: OperationKind) -> bool {
    match kind {
        OperationKind::ContentGeneration(k) => !(k is GeminiGenerateContent),
        OperationKind::Provider(p) => !(p is Gemini),
    }
}

/// Whether this is the wire format of OpenAI's chat completions.
pub open spec fn is_chat(kind: OperationKind) -> bool {
    kind == OperationKind::ContentGeneration(ContentGenerationKind::OpenAiChatCompletions)
}

/// The query with `extra`: added behind the others unless one of them is it.
pub open spec fn merged(existing: Option<Seq<char>>, extra: Seq<char>) -> Seq<char> {
    match existing {
        Some(query) => if split(query, '&').contains(extra) {
            query
        } else if query.len() > 0 {
            query + seq!['&'] + extra
        } else {
            extra
        },
        None => extra,
    }
}

/// `options` with `include_usage` set; where `options` is no object, an object
/// with that alone.
pub open spec fn with_usage(options: Option<Json>) -> Json {
    match options {
        Some(Json::Object(others)) => Json::Object(
            others.insert("include_usage"@, Json::Bool(true)),
        ),
        _ => Json::Object(Map::empty().insert("include_usage"@, Json::Bool(true))),
    }
}

/// The members of a request with the model set.
pub open spec fn with_model(
    request: Map<Seq<char>, Json>,
    model: Option<Seq<char>>,
) -> Map<Seq<char>, Json> {
    match model {
        Some(m) => request.insert("model"@, Json::Text(m)),
        None => request,
    }
}

/// The members of a request with the stream flag set.
pub open spec fn with_stream(
    request: Map<Seq<char>, Json>,
    stream: Option<bool>,
) -> Map<Seq<char>, Json> {
    match stream {
        Some(b) => request.insert("stream"@, Json::Bool(b)),
        None => request,
    }
}

/// The document with the model, the stream flag and the request for usage that
/// are given. A document that is no object stays as it is.
pub open spec fn patched(
    document: Json,
    model: Option<Seq<char>>,
    stream: Option<bool>,
    include_usage: bool,
) -> Json {
    match document {
        Json::Object(request) => {
            let named = with_stream(with_model(request, model), stream);
            Json::Object(
                if include_usage {
                    named.insert(
                        "stream_options"@,
                        with_usage(Json::Object(named).get("stream_options"@)),
                    )
                } else {
                    named
                },
            )
        },
        _ => document,
    }
}

/// What patching `body` comes to.
pub open spec fn patch(
    body: Seq<u8>,
    model: Option<Seq<char>>,
    stream: Option<bool>,
    include_usage: bool,
) -> Result<Seq<u8>, PipelineFault> {
    match json_document(body) {
        Ok(document) => Ok(json_text(patched(document, model, stream, include_usage))),
        Err(message) => Err(
            PipelineFault::TransformRequest(
                TransformFault::InvalidInput("body patch: body is not JSON: "@ + message),
            ),
        ),
    }
}

/// What patching `body` writes is read again as the patched document, with
/// other reals at most, unless a real in `body` is close to the largest ones.
pub open spec fn patch_reads_back(
    body: Seq<u8>,
    model: Option<Seq<char>>,
    stream: Option<bool>,
    include_usage: bool,
) -> bool {
    match json_document(body) {
        Ok(document) => {
            let after = patched(document, model, stream, include_usage);
            let read = json_document(json_text(after));
            &&& document.is_readable() ==> read is Ok && after.may_be_read_as(read->Ok_0)
            &&& document.is_moderate() ==> read->Ok_0.is_readable()
        },
        Err(_) => true,
    }
}

/// The octets or the fault that a result holds.
pub open spec fn bytes_result(result: Result<Bytes, PipelineError>) -> Result<
    Seq<u8>,
    PipelineFault,
> {
    match result {
        Ok(bytes) => Ok(octets(bytes)),
        Err(e) => Err(e@),
    }
}

/// Whether this wire format carries the model in the request body.
pub fn body_carries_model(kind: OperationKind) -> (r: bool)
    ensures
        r == carries_model(kind),
{
    !matches!(
        kind,
        OperationKind::ContentGeneration(ContentGenerationKind::GeminiGenerateContent)
            | OperationKind::Provider(Provider::Gemini)
    )
}

/// Whether this is the wire format of OpenAI's chat completions.
pub fn is_openai_chat(kind: OperationKind) -> (r: bool)
    ensures
        r == is_chat(kind),
{
    matches!(
        kind,
        OperationKind::ContentGeneration(ContentGenerationKind::OpenAiChatCompletions)
    )
}

/// The query with `extra`: added behind the others unless one of them is it.
pub fn merge_query(existing: Option<&str>, extra: &str) -> (r: String)
    ensures
        r@ == merged(optional_str(existing), extra@),
{
    match existing {
        Some(query) => {
            let pieces = split_text(query, '&');
            if any_is(&pieces, extra) {
                query.to_owned()
            } else if !query.is_empty() {
                proof {
                    reveal_strlit("&");
                    assert("&"@ == seq!['&']);
                }
                query.to_owned().concat("&").concat(extra)
            } else {
                extra.to_owned()
            }
        },
        None => extra.to_owned(),
    }
}

/// Sets the model, the stream flag and the request for usage in the document.
pub fn patch_document(
    document: &mut Value,
    model: Option<&str>,
    stream: Option<bool>,
    include_usage: bool,
)
    ensures
        json(*final(document)) == patched(
            json(*old(document)),
            optional_str(model),
            stream,
            include_usage,
        ),
{
    if let Some(request) = document.as_object_mut() {
        if let Some(model) = model {
            request.insert("model".to_owned(), text_value(model.to_owned()));
        }
        if let Some(stream) = stream {
            request.insert("stream".to_owned(), bool_value(stream));
        }
        if include_usage {
            let ghost named = members(*request);
            let merged_in = match get_mut(request, "stream_options") {
                Some(options) => match options.as_object_mut() {
                    Some(others) => {
                        others.insert("include_usage".to_owned(), bool_value(true));
                        true
                    },
                    None => false,
                },
                None => false,
            };
            if !merged_in {
                let mut options = serde_json::Map::new();
                options.insert("include_usage".to_owned(), bool_value(true));
                request.insert("stream_options".to_owned(), object_value(options));
                assert(members(*request) == named.insert(
                    "stream_options"@,
                    with_usage(Json::Object(named).get("stream_options"@)),
                ));
            }
        }
    }
}

/// A patch adds neither reals nor nesting to speak of.
pub proof fn patched_stays_legible(
    document: Json,
    model: Option<Seq<char>>,
    stream: Option<bool>,
    include_usage: bool,
    depth: nat,
    top: int,
)
    requires
        depth >= 2,
        document.is_legible(depth, top),
    ensures
        patched(document, model, stream, include_usage).is_legible(depth, top),
{
    if let Json::Object(request) = document {
        let below = (depth - 1) as nat;
        let named = with_stream(with_model(request, model), stream);
        assert forall|key: Seq<char>| named.contains_key(key) implies (
        #[trigger] named[key]).is_legible(below, top) by {
            if request.contains_key(key) {
                assert(request[key].is_legible(below, top));
            }
        }
        let options = Json::Object(named).get("stream_options"@);
        if let Some(Json::Object(others)) = options {
            assert(named["stream_options"@].is_legible(below, top));
        }
        assert(with_usage(options).is_legible(below, top)) by {
            reveal_with_fuel(Json::is_legible, 3);
        }
    }
}

/// What is read in the text of a patched document.
proof fn patched_text_is_read(
    document: Json,
    model: Option<Seq<char>>,
    stream: Option<bool>,
    include_usage: bool,
    read: Result<Json, Seq<char>>,
)
    requires
        ({
            let after = patched(document, model, stream, include_usage);
            &&& after.is_readable() ==> read is Ok && after.like(read->Ok_0, max_depth())
            &&& after.is_moderate() ==> read->Ok_0.is_readable()
        }),
    ensures
        ({
            let after = patched(document, model, stream, include_usage);
            &&& document.is_readable() ==> read is Ok && after.may_be_read_as(read->Ok_0)
            &&& document.is_moderate() ==> read->Ok_0.is_readable()
        }),
{
    let after = patched(document, model, stream, include_usage);
    if document.is_readable() {
        patched_stays_legible(document, model, stream, include_usage, max_depth(), 2016);
        if after.is_exact() {
            like_without_reals_is_same(after, read->Ok_0, max_depth());
        }
    }
    if document.is_moderate() {
        patched_stays_legible(document, model, stream, include_usage, max_depth(), 2000);
    }
}

/// The provider-native body with the member model, with the stream flag, where
/// the converted body would otherwise ask for an answer in one piece, and with
/// the request for the final usage chunk. One parse does for all of them.
pub fn patch_body(
    body: &Bytes,
    model: Option<&str>,
    stream: Option<bool>,
    include_usage: bool,
) -> (r: Result<Bytes, PipelineError>)
    ensures
        bytes_result(r) == patch(octets(*body), optional_str(model), stream, include_usage),
        patch_reads_back(octets(*body), optional_str(model), stream, include_usage),
{
    match from_slice(body) {
        Ok(mut document) => {
            let ghost before = json(document);
            patch_document(&mut document, model, stream, include_usage);
            match to_vec(&document) {
                Ok(text) => {
                    proof {
                        patched_text_is_read(
                            before,
                            optional_str(model),
                            stream,
                            include_usage,
                            json_document(text@),
                        );
                    }
                    Ok(Bytes::from(text))
                },
                Err(reason) => Err(
                    PipelineError::TransformRequest(TransformError::Serialization { reason }),
                ),
            }
        },
        Err(message) => {
            let reason = "body patch: body is not JSON: ".to_owned().concat(message.as_str());
            Err(PipelineError::TransformRequest(TransformError::InvalidInput { reason }))
        },
    }
}

} // verus!
