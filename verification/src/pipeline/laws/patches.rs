//! Patches of documents and texts, and merged queries.

use crate::json::{
    json_document, json_text, legible_within_more, like_itself, like_members, max_depth, Json,
};
use crate::pipeline::error::PipelineFault;
use crate::pipeline::patch::{
    merged, patch, patch_reads_back, patched, patched_stays_legible, with_model, with_stream,
    with_usage,
};
use crate::text::{split, split_joins, split_of_one_piece};
use vstd::prelude::*;

verus! {

/// The keys that a patch sets are three.
pub(crate) proof fn patched_keys()
    ensures
        "model"@ != "stream"@,
        "model"@ != "stream_options"@,
        "stream"@ != "stream_options"@,
{
    reveal_strlit("model");
    reveal_strlit("stream");
    reveal_strlit("stream_options");
    assert("model"@.len() == 5 && "stream"@.len() == 6 && "stream_options"@.len() == 14);
}

/// A patch sets what it is asked to set, whatever the object held before; the
/// other options of the stream stay.
pub proof fn patch_sets_what_is_asked(
    request: Map<Seq<char>, Json>,
    model: Option<Seq<char>>,
    stream: Option<bool>,
    include_usage: bool,
)
    ensures
        ({
            let after = patched(Json::Object(request), model, stream, include_usage);
            &&& model matches Some(m) ==> after.get("model"@) == Some(Json::Text(m))
            &&& stream matches Some(b) ==> after.get("stream"@) == Some(Json::Bool(b))
            &&& include_usage ==> after.get("stream_options"@) is Some && after.get(
                "stream_options"@,
            )->0.get("include_usage"@) == Some(Json::Bool(true))
        }),
{
    patched_keys();
}

/// A patch leaves every other member of the object alone.
pub proof fn patch_keeps_the_rest(
    request: Map<Seq<char>, Json>,
    model: Option<Seq<char>>,
    stream: Option<bool>,
    include_usage: bool,
    key: Seq<char>,
)
    requires
        key == "model"@ ==> model is None,
        key == "stream"@ ==> stream is None,
        key == "stream_options"@ ==> !include_usage,
    ensures
        patched(Json::Object(request), model, stream, include_usage).get(key) == Json::Object(
            request,
        ).get(key),
{
    patched_keys();
}

/// A patch keeps every option of the stream but `include_usage`.
pub proof fn patch_keeps_other_stream_options(
    request: Map<Seq<char>, Json>,
    options: Map<Seq<char>, Json>,
    model: Option<Seq<char>>,
    stream: Option<bool>,
    key: Seq<char>,
)
    requires
        Json::Object(request).get("stream_options"@) == Some(Json::Object(options)),
        key != "include_usage"@,
    ensures
        ({
            let after = patched(Json::Object(request), model, stream, true);
            &&& after.get("stream_options"@) is Some
            &&& after.get("stream_options"@)->0.get(key) == Json::Object(options).get(key)
        }),
{
    patched_keys();
}

/// Patching twice is patching once.
pub proof fn patching_again_changes_nothing(
    document: Json,
    model: Option<Seq<char>>,
    stream: Option<bool>,
    include_usage: bool,
)
    ensures
        ({
            let once = patched(document, model, stream, include_usage);
            patched(once, model, stream, include_usage) == once
        }),
{
    patched_keys();
    if let Json::Object(request) = document {
        let named = with_stream(with_model(request, model), stream);
        let once = patched(document, model, stream, include_usage)->Object_0;
        let again = with_stream(with_model(once, model), stream);
        assert(again =~= once);
        if include_usage {
            let options = with_usage(Json::Object(named).get("stream_options"@));
            assert(once["stream_options"@] == options);
            let members = options->Object_0;
            assert(members.insert("include_usage"@, Json::Bool(true)) =~= members);
            assert(once.insert("stream_options"@, options) =~= once);
        }
    }
}

/// `sent` is `request` with the model, the stream flag and the request for usage
/// that are given, and otherwise as the client wrote it. Reals may come out as
/// others; where there are none, `sent` is exactly that document.
pub open spec fn reads_as_patched(
    sent: Json,
    request: Map<Seq<char>, Json>,
    model: Option<Seq<char>>,
    stream: Option<bool>,
    include_usage: bool,
) -> bool {
    let before = Json::Object(request);
    &&& sent is Object
    &&& model matches Some(m) ==> sent.get("model"@) == Some(Json::Text(m))
    &&& stream matches Some(b) ==> sent.get("stream"@) == Some(Json::Bool(b))
    &&& include_usage ==> sent.get("stream_options"@) is Some && sent.get("stream_options"@)->0.get(
        "include_usage"@,
    ) == Some(Json::Bool(true)) && like_members(
        Some(with_usage(before.get("stream_options"@))),
        sent.get("stream_options"@),
    )
    &&& forall|key: Seq<char>|
        (key == "model"@ ==> model is None) && (key == "stream"@ ==> stream is None) && (key
            == "stream_options"@ ==> !include_usage) ==> like_members(
            before.get(key),
            #[trigger] sent.get(key),
        )
    &&& before.is_exact() ==> sent == patched(before, model, stream, include_usage)
}

/// What a patched object may be read as shows the patch.
pub proof fn reading_shows_the_patch(
    request: Map<Seq<char>, Json>,
    model: Option<Seq<char>>,
    stream: Option<bool>,
    include_usage: bool,
    sent: Json,
)
    requires
        patched(Json::Object(request), model, stream, include_usage).may_be_read_as(sent),
    ensures
        reads_as_patched(sent, request, model, stream, include_usage),
{
    patched_keys();
    let before = Json::Object(request);
    let after = patched(before, model, stream, include_usage);
    let members = after->Object_0;
    let below = (max_depth() - 1) as nat;
    assert forall|key: Seq<char>| like_members(after.get(key), #[trigger] sent.get(key)) by {
        if members.contains_key(key) {
            assert(members[key].like(sent->Object_0[key], below));
        }
    }
    assert(like_members(after.get("model"@), sent.get("model"@)));
    assert(like_members(after.get("stream"@), sent.get("stream"@)));
    if include_usage {
        let options = with_usage(before.get("stream_options"@));
        assert(after.get("stream_options"@) == Some(options));
        assert(like_members(after.get("stream_options"@), sent.get("stream_options"@)));
        let others = options->Object_0;
        assert(others.contains_key("include_usage"@));
        assert(others["include_usage"@].like(
            sent.get("stream_options"@)->0->Object_0["include_usage"@],
            (below - 1) as nat,
        ));
    }
    assert forall|key: Seq<char>|
        (key == "model"@ ==> model is None) && (key == "stream"@ ==> stream is None) && (key
            == "stream_options"@ ==> !include_usage) implies like_members(
        before.get(key),
        #[trigger] sent.get(key),
    ) by {
        patch_keeps_the_rest(request, model, stream, include_usage, key);
        assert(like_members(after.get(key), sent.get(key)));
    }
    if before.is_exact() {
        patched_stays_legible(before, model, stream, include_usage, max_depth(), 0);
    }
}

/// An object in which nothing is set reads as itself.
pub proof fn an_unpatched_object_reads_as_itself(request: Map<Seq<char>, Json>)
    requires
        Json::Object(request).is_readable(),
    ensures
        reads_as_patched(Json::Object(request), request, None, None, false),
{
    like_itself(Json::Object(request), max_depth(), 2016);
    reading_shows_the_patch(request, None, None, false, Json::Object(request));
}

/// Documents that are the same but for reals are so after the same patch.
pub proof fn patches_respect_likeness(
    document: Json,
    other: Json,
    model: Option<Seq<char>>,
    stream: Option<bool>,
    include_usage: bool,
    depth: nat,
)
    requires
        depth >= 3,
        document.like(other, depth),
    ensures
        patched(document, model, stream, include_usage).like(
            patched(other, model, stream, include_usage),
            depth,
        ),
{
    patched_keys();
    if let Json::Object(request) = document {
        let below = (depth - 1) as nat;
        let others = other->Object_0;
        let named = with_stream(with_model(request, model), stream);
        let other_named = with_stream(with_model(others, model), stream);
        assert(named.dom() =~= other_named.dom());
        assert forall|key: Seq<char>| named.contains_key(key) implies (#[trigger] named[key]).like(
            other_named[key],
            below,
        ) by {
            if request.contains_key(key) {
                assert(request[key].like(others[key], below));
            }
        }
        if include_usage {
            let options = Json::Object(named).get("stream_options"@);
            let other_options = Json::Object(other_named).get("stream_options"@);
            if named.contains_key("stream_options"@) {
                assert(named["stream_options"@].like(other_named["stream_options"@], below));
            }
            let set = with_usage(options)->Object_0;
            let other_set = with_usage(other_options)->Object_0;
            assert(set.dom() =~= other_set.dom());
            let lower = (below - 1) as nat;
            assert forall|key: Seq<char>| set.contains_key(key) implies (#[trigger] set[key]).like(
                other_set[key],
                lower,
            ) by {
                if let Some(Json::Object(old_options)) = options {
                    if old_options.contains_key(key) {
                        assert(old_options[key].like(other_options->0->Object_0[key], lower));
                    }
                }
            }
            assert(with_usage(options).like(with_usage(other_options), below));
            let after = named.insert("stream_options"@, with_usage(options));
            let other_after = other_named.insert("stream_options"@, with_usage(other_options));
            assert(after.dom() =~= other_after.dom());
            assert forall|key: Seq<char>| after.contains_key(key) implies (
            #[trigger] after[key]).like(other_after[key], below) by {
                if key != "stream_options"@ {
                    assert(named[key].like(other_named[key], below));
                }
            }
        }
    }
}

/// Setting the model first and the flags of the stream after it is setting all
/// of them at once.
pub proof fn patches_compose(
    document: Json,
    model: Option<Seq<char>>,
    stream: Option<bool>,
    include_usage: bool,
)
    ensures
        patched(patched(document, model, None, false), None, stream, include_usage) == patched(
            document,
            model,
            stream,
            include_usage,
        ),
{
}

/// Patching a text twice: the second patch succeeds and finds everything set,
/// so that it writes what it has read. Where the first text reads as exactly
/// what was written, as it does without reals, the second is the same text; and
/// in any case the two read as the same document but for reals. The last two
/// premises are what the two calls of `patch_body` ensure; a real close to the
/// largest ones is left out.
pub proof fn patching_a_text_again_changes_nothing(
    body: Seq<u8>,
    model: Option<Seq<char>>,
    stream: Option<bool>,
    include_usage: bool,
    once: Seq<u8>,
)
    requires
        json_document(body) is Ok,
        json_document(body)->Ok_0.is_moderate(),
        patch(body, model, stream, include_usage) == Ok::<Seq<u8>, PipelineFault>(once),
        patch_reads_back(body, model, stream, include_usage),
        patch_reads_back(once, model, stream, include_usage),
    ensures
        json_document(once) is Ok,
        patch(once, model, stream, include_usage) == Ok::<Seq<u8>, PipelineFault>(
            json_text(json_document(once)->Ok_0),
        ),
        ({
            let first = json_document(once)->Ok_0;
            let again = json_document(json_text(first));
            &&& again is Ok
            &&& first.may_be_read_as(again->Ok_0)
            &&& first == patched(json_document(body)->Ok_0, model, stream, include_usage)
                ==> json_text(first) == once
            &&& json_document(body)->Ok_0.is_exact() ==> json_text(first) == once
        }),
{
    patched_keys();
    let document = json_document(body)->Ok_0;
    let after = patched(document, model, stream, include_usage);
    legible_within_more(document, max_depth(), 2000, 2016);
    let first = json_document(once)->Ok_0;
    if let Json::Object(request) = document {
        reading_shows_the_patch(request, model, stream, include_usage, first);
        let members = first->Object_0;
        assert(with_stream(with_model(members, model), stream) =~= members);
        if include_usage {
            let options = members["stream_options"@];
            assert(first.get("stream_options"@) == Some(options));
            assert(options is Object);
            assert(options->Object_0.insert("include_usage"@, Json::Bool(true))
                =~= options->Object_0);
            assert(members.insert("stream_options"@, options) =~= members);
        }
    }
    assert(patched(first, model, stream, include_usage) == first);
    if document.is_exact() {
        patched_stays_legible(document, model, stream, include_usage, max_depth(), 0);
    }
}

/// Where a patched text reads as what was written, whatever it holds, patching
/// it again gives the same text.
pub proof fn a_text_that_reads_as_written_stays(
    body: Seq<u8>,
    model: Option<Seq<char>>,
    stream: Option<bool>,
    include_usage: bool,
    once: Seq<u8>,
)
    requires
        json_document(body) is Ok,
        patch(body, model, stream, include_usage) == Ok::<Seq<u8>, PipelineFault>(once),
        json_document(once) == Ok::<Json, Seq<char>>(
            patched(json_document(body)->Ok_0, model, stream, include_usage),
        ),
    ensures
        patch(once, model, stream, include_usage) == Ok::<Seq<u8>, PipelineFault>(once),
{
    patching_again_changes_nothing(json_document(body)->Ok_0, model, stream, include_usage);
}

/// Adding the same parameter twice adds it once. A parameter that itself holds
/// an ampersand is never found again and left out here.
pub proof fn merging_again_changes_nothing(existing: Option<Seq<char>>, extra: Seq<char>)
    requires
        !extra.contains('&'),
    ensures
        split(merged(existing, extra), '&').contains(extra),
        merged(Some(merged(existing, extra)), extra) == merged(existing, extra),
{
    split_of_one_piece(extra, '&');
    assert(seq![extra][0] == extra);
    match existing {
        Some(query) => if !split(query, '&').contains(extra) && query.len() > 0 {
            split_joins(query, extra, '&');
            let pieces = split(query, '&') + seq![extra];
            assert(pieces[split(query, '&').len() as int] == extra);
            assert(query + (seq!['&'] + extra) == query + seq!['&'] + extra);
        },
        None => {},
    }
}

/// The parameters of a query are all still there after one has been added, in
/// front of it.
pub proof fn merging_keeps_the_query(query: Seq<char>, extra: Seq<char>)
    ensures
        query.is_prefix_of(merged(Some(query), extra)),
        query.len() > 0 ==> split(query, '&').is_prefix_of(split(merged(Some(query), extra), '&')),
{
    if !split(query, '&').contains(extra) && query.len() > 0 {
        split_joins(query, extra, '&');
    }
}

} // verus!
