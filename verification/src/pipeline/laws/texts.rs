//! Calls that change bodies and queries: what they come to, told on the members
//! and the pieces that they are given and that they give.

use crate::json::{json_document, json_text, Json};
use crate::pipeline::error::{PipelineError, PipelineFault, TransformFault};
use crate::pipeline::laws::patches::patched_keys;
use crate::pipeline::memo::Memo;
use crate::pipeline::patch::{
    body_carries_model, is_openai_chat, merge_query, merged, patch, patch_body, patched,
};
use crate::pipeline::transform::{finish_aggregated, finish_synthesized, finish_transformed};
use crate::protocol::{ContentGenerationKind, Operation, OperationKey, OperationKind, Provider};
use crate::text::split;
use crate::transport::octets;
use bytes::Bytes;
use vstd::prelude::*;

verus! {

/// One of Gemini's formats, which keep model and stream flag in the path.
pub open spec fn is_gemini(kind: OperationKind) -> bool {
    kind == OperationKind::ContentGeneration(ContentGenerationKind::GeminiGenerateContent) || kind
        == OperationKind::Provider(Provider::Gemini)
}

/// The format of chat completions, whose streams tell usage on request.
pub open spec fn is_completions(kind: OperationKind) -> bool {
    kind == OperationKind::ContentGeneration(ContentGenerationKind::OpenAiChatCompletions)
}

/// An operation that generates content, streamed or in one piece.
pub open spec fn is_generation(operation: Operation) -> bool {
    operation == Operation::GenerateContent || operation == Operation::StreamGenerateContent
}

/// An operation that reads models and has no body.
pub open spec fn reads_models(operation: Operation) -> bool {
    operation == Operation::ListModels || operation == Operation::GetModel
}

/// Every format but Gemini's has the model in the body, whatever the operation;
/// one format alone is that of chat completions.
pub proof fn formats_differ_in_where_the_model_is(kind: OperationKind, in_body: bool, chat: bool)
    requires
        call_ensures(body_carries_model, (kind,), in_body),
        call_ensures(is_openai_chat, (kind,), chat),
    ensures
        in_body <==> !is_gemini(kind),
        chat <==> is_completions(kind),
{
}

/// Two operations have no body, and two generate content.
pub proof fn operations_differ_in_what_they_send(operation: Operation, body: bool, content: bool)
    requires
        call_ensures(Operation::has_request_body, (operation,), body),
        call_ensures(Operation::is_content_generation, (operation,), content),
    ensures
        body <==> !reads_models(operation),
        content <==> is_generation(operation),
{
}

/// `after` holds what is set, the option of the stream beside the other options
/// that `before` holds, and every other member of `before`, and nothing else.
pub open spec fn is_set(
    before: Map<Seq<char>, Json>,
    after: Map<Seq<char>, Json>,
    model: Option<Seq<char>>,
    stream: Option<bool>,
    usage: bool,
) -> bool {
    &&& model is Some ==> after.contains_key("model"@) && after["model"@] == Json::Text(model->0)
    &&& stream is Some ==> after.contains_key("stream"@) && after["stream"@] == Json::Bool(
        stream->0,
    )
    &&& usage ==> {
        let kept = before.contains_key("stream_options"@) && before["stream_options"@] is Object;
        let options = before["stream_options"@]->Object_0;
        &&& after.contains_key("stream_options"@)
        &&& after["stream_options"@] is Object
        &&& after["stream_options"@]->Object_0.contains_key("include_usage"@)
        &&& after["stream_options"@]->Object_0["include_usage"@] == Json::Bool(true)
        &&& forall|key: Seq<char>|
            key != "include_usage"@ ==> (
            #[trigger] after["stream_options"@]->Object_0.contains_key(key) == (kept
                && options.contains_key(key)) && (kept && options.contains_key(key)
                ==> after["stream_options"@]->Object_0[key] == options[key]))
    }
    &&& forall|key: Seq<char>|
        (key == "model"@ ==> model is None) && (key == "stream"@ ==> stream is None) && (key
            == "stream_options"@ ==> !usage) ==> (#[trigger] after.contains_key(key)
            == before.contains_key(key) && (before.contains_key(key) ==> after[key]
            == before[key]))
}

/// `result` is the text `before` with what is set: an object gets its members,
/// any other document is written as it is, and a text that is no JSON is
/// refused.
pub open spec fn is_patched(
    before: Seq<u8>,
    model: Option<Seq<char>>,
    stream: Option<bool>,
    usage: bool,
    result: Result<Seq<u8>, PipelineFault>,
) -> bool {
    match json_document(before) {
        Ok(Json::Object(request)) => exists|after: Map<Seq<char>, Json>| #[trigger]
            is_set(request, after, model, stream, usage) && result == Ok::<
                Seq<u8>,
                PipelineFault,
            >(json_text(Json::Object(after))),
        Ok(document) => result == Ok::<Seq<u8>, PipelineFault>(json_text(document)),
        Err(message) => result == Err::<Seq<u8>, PipelineFault>(
            PipelineFault::TransformRequest(
                TransformFault::InvalidInput("body patch: body is not JSON: "@ + message),
            ),
        ),
    }
}

/// What a call that gives bytes came to.
pub open spec fn came_to(result: Result<Bytes, PipelineError>) -> Result<Seq<u8>, PipelineFault> {
    if result is Ok {
        Ok(octets(result->Ok_0))
    } else {
        Err(result->Err_0@)
    }
}

/// A patched object holds what is set, and otherwise what it held.
pub proof fn patched_objects_hold_what_is_set(
    request: Map<Seq<char>, Json>,
    model: Option<Seq<char>>,
    stream: Option<bool>,
    usage: bool,
)
    ensures
        patched(Json::Object(request), model, stream, usage) is Object,
        is_set(
            request,
            patched(Json::Object(request), model, stream, usage)->Object_0,
            model,
            stream,
            usage,
        ),
{
    patched_keys();
}

/// A patched text is the text with what is set.
pub proof fn patched_texts_hold_what_is_set(
    body: Seq<u8>,
    model: Option<Seq<char>>,
    stream: Option<bool>,
    usage: bool,
)
    ensures
        is_patched(body, model, stream, usage, patch(body, model, stream, usage)),
{
    if let Ok(Json::Object(request)) = json_document(body) {
        patched_objects_hold_what_is_set(request, model, stream, usage);
        let after = patched(Json::Object(request), model, stream, usage)->Object_0;
        assert(is_set(request, after, model, stream, usage));
    }
}

/// The text of an optional argument.
pub open spec fn given(text: Option<&str>) -> Option<Seq<char>> {
    if text is Some {
        Some(text->0@)
    } else {
        None
    }
}

/// A patch of a body sets what it is told to, and nothing else.
pub proof fn patches_set_what_they_are_told(
    body: &Bytes,
    model: Option<&str>,
    stream: Option<bool>,
    usage: bool,
    result: Result<Bytes, PipelineError>,
)
    requires
        call_ensures(patch_body, (body, model, stream, usage), result),
    ensures
        is_patched(octets(*body), given(model), stream, usage, came_to(result)),
{
    patched_texts_hold_what_is_set(octets(*body), given(model), stream, usage);
}

/// The member model, where the source format has no place for it in the body.
pub open spec fn missing_model(source: OperationKey, model: Seq<char>) -> Option<Seq<char>> {
    if is_gemini(source.kind) && model.len() > 0 {
        Some(model)
    } else {
        None
    }
}

/// `result` is the converted `body` as it is sent: with the model where the
/// source had no place for it, with the stream flag where content is streamed,
/// and with the request for usage where chat completions are; one of Gemini's
/// formats has none of these in the body, and where there is none to set the
/// body is as it is.
pub open spec fn is_finished(
    body: Seq<u8>,
    source: OperationKey,
    target: OperationKey,
    model: Seq<char>,
    stream: bool,
    result: Result<Seq<u8>, PipelineFault>,
) -> bool {
    let flag: Option<bool> = if stream && is_generation(target.operation) {
        Some(true)
    } else {
        None
    };
    let usage = stream && is_completions(target.kind);
    if is_gemini(target.kind) || (missing_model(source, model) is None && flag is None && !usage) {
        result == Ok::<Seq<u8>, PipelineFault>(body)
    } else {
        is_patched(body, missing_model(source, model), flag, usage, result)
    }
}

/// `result` is the converted `body` as it is sent to an upstream that is to
/// stream, or not to, whatever the client wants.
pub open spec fn is_restreamed(
    body: Seq<u8>,
    source: OperationKey,
    target: OperationKey,
    model: Seq<char>,
    stream: bool,
    result: Result<Seq<u8>, PipelineFault>,
) -> bool {
    if is_gemini(target.kind) {
        result == Ok::<Seq<u8>, PipelineFault>(body)
    } else {
        is_patched(
            body,
            missing_model(source, model),
            Some(stream),
            stream && is_completions(target.kind),
            result,
        )
    }
}

/// Converted bodies are finished as the target and the client want them.
pub proof fn converted_bodies_are_finished(
    body: Bytes,
    source: OperationKey,
    target: OperationKey,
    model: &str,
    stream: bool,
    plain: Result<Bytes, PipelineError>,
    synthesized: Result<Bytes, PipelineError>,
    aggregated: Result<Bytes, PipelineError>,
)
    requires
        call_ensures(finish_transformed, (body, source, target, model, stream), plain),
        call_ensures(finish_synthesized, (body, source, target, model), synthesized),
        call_ensures(finish_aggregated, (body, source, target, model), aggregated),
    ensures
        is_finished(octets(body), source, target, model@, stream, came_to(plain)),
        is_restreamed(octets(body), source, target, model@, false, came_to(synthesized)),
        is_restreamed(octets(body), source, target, model@, true, came_to(aggregated)),
{
    let flag: Option<bool> = if stream && is_generation(target.operation) {
        Some(true)
    } else {
        None
    };
    let late = missing_model(source, model@);
    patched_texts_hold_what_is_set(
        octets(body),
        late,
        flag,
        stream && is_completions(target.kind),
    );
    patched_texts_hold_what_is_set(octets(body), late, Some(false), false);
    patched_texts_hold_what_is_set(octets(body), late, Some(true), is_completions(target.kind));
}

/// `result` is the query `existing` and `extra`: it is `extra` where there was
/// nothing, stays as it was where one of its pieces is `extra`, and else gets
/// `extra` as one more piece behind it.
pub open spec fn is_merged(
    existing: Option<Seq<char>>,
    extra: Seq<char>,
    result: Seq<char>,
) -> bool {
    if existing is None || existing->0.len() == 0 {
        result == extra
    } else if exists|i: int|
        0 <= i < split(existing->0, '&').len() && #[trigger] split(existing->0, '&')[i] == extra {
        result == existing->0
    } else {
        result == existing->0 + "&"@ + extra
    }
}

/// Queries are merged piece by piece.
pub proof fn queries_get_one_more_piece(existing: Option<&str>, extra: &str, result: String)
    requires
        call_ensures(merge_query, (existing, extra), result),
    ensures
        is_merged(given(existing), extra@, result@),
{
    merged_queries_are_merged(given(existing), extra@);
}

/// What merging comes to.
pub proof fn merged_queries_are_merged(existing: Option<Seq<char>>, extra: Seq<char>)
    ensures
        is_merged(existing, extra, merged(existing, extra)),
{
    reveal_strlit("&");
    assert("&"@ =~= seq!['&']);
    if let Some(query) = existing {
        if query.len() == 0 {
            assert(split(query, '&') =~= seq![query]);
            if split(query, '&').contains(extra) {
                assert(extra == query);
            }
        }
    }
}

/// The memo answers with what it learnt first and forgets no body: the inbound
/// model is what was answered first, and the body for a target and a model is
/// the one that was put there last.
pub proof fn memos_keep_what_they_learn(
    memo: Memo,
    answer: Option<Seq<char>>,
    later: Option<Seq<char>>,
    target: OperationKey,
    model: Seq<char>,
    body: Seq<u8>,
    other: (OperationKey, Seq<char>),
)
    ensures
        memo.inbound is None ==> memo.model(answer) == answer,
        memo.inbound is Some ==> memo.model(answer) == memo.inbound->0,
        memo.asked(answer).inbound == Some(memo.model(answer)),
        memo.asked(answer).bodies == memo.bodies,
        memo.asked(answer).model(later) == memo.model(answer),
        memo.asked(answer).asked(later) == memo.asked(answer),
        memo.with_body(target, model, body).inbound == memo.inbound,
        memo.with_body(target, model, body).bodies.contains_key((target, model)),
        memo.with_body(target, model, body).bodies[(target, model)] == body,
        other != (target, model) ==> memo.with_body(target, model, body).bodies.contains_key(other)
            == memo.bodies.contains_key(other),
        other != (target, model) && memo.bodies.contains_key(other) ==> memo.with_body(
            target,
            model,
            body,
        ).bodies[other] == memo.bodies[other],
{
}

} // verus!
