//! Calls that prepare and authenticate a request: what they come to, told on the
//! settings, the credential and the path that they are given and on the header
//! fields that they give.

use crate::channel::common::{
    below_is_unique, is_below, join_url, joined, one_slash_joins, require_api_key,
    resolve_base_url, PrepareCtx,
};
use crate::channel::custom::auth::{
    authenticated, carried, carrier, configured, detect, without_credentials, ApiKeyHeader, Proto,
};
use crate::channel::custom::laws::{authenticating_names, every_cell_is_served_once};
use crate::channel::custom::CustomChannel;
use crate::channel::error::ChannelError;
use crate::json::{bool_member, i64_member, json, nonblank_member, text_member, Json};
use crate::protocol::{
    Operation, OperationKey, OperationKind, Route, RouteAction, RouteList,
};
use crate::text::{debug_text, occurs, trimmed};
use crate::transport::{fields, is_uri, is_value_text, method_name, octets, OutboundRequest};
use serde_json::Value;
use vstd::prelude::*;
use vstd::utf8::encode_utf8;

verus! {

/// The text that the object states under `key`, without the blanks around it;
/// blank text is none.
pub open spec fn stated(document: Json, key: Seq<char>) -> Option<Seq<char>> {
    match document {
        Json::Object(members) => if members.contains_key(key) {
            match members[key] {
                Json::Text(text) => if trimmed(text).len() > 0 {
                    Some(trimmed(text))
                } else {
                    None
                },
                _ => None,
            }
        } else {
            None
        },
        _ => None,
    }
}

/// The object has the member `key` with the value `member`.
pub open spec fn holds(document: Json, key: Seq<char>, member: Json) -> bool {
    document matches Json::Object(members) && members.contains_key(key) && members[key] == member
}

/// Text is read from a member that is text, and from no other.
pub proof fn text_is_read_from_text(
    value: &Value,
    key: &str,
    whole: Option<&str>,
    nonblank: Option<&str>,
)
    requires
        call_ensures(text_member, (value, key), whole),
        call_ensures(nonblank_member, (value, key), nonblank),
    ensures
        match whole {
            Some(text) => holds(json(*value), key@, Json::Text(text@)),
            None => forall|text: Seq<char>| !#[trigger] holds(json(*value), key@, Json::Text(text)),
        },
        match nonblank {
            Some(text) => stated(json(*value), key@) == Some(text@),
            None => stated(json(*value), key@) is None,
        },
{
}

/// Truth values and integers are read from members that are such, and from no
/// others; an integer has to fit.
pub proof fn truths_and_integers_are_read_from_such(
    value: &Value,
    key: &str,
    truth: Option<bool>,
    integer: Option<i64>,
)
    requires
        call_ensures(bool_member, (value, key), truth),
        call_ensures(i64_member, (value, key), integer),
    ensures
        match truth {
            Some(b) => holds(json(*value), key@, Json::Bool(b)),
            None => forall|b: bool| !#[trigger] holds(json(*value), key@, Json::Bool(b)),
        },
        match integer {
            Some(n) => holds(json(*value), key@, Json::Integer(n as int)),
            None => forall|n: int|
                i64::MIN <= n <= i64::MAX ==> !#[trigger] holds(json(*value), key@, Json::Integer(n)),
        },
{
}

/// The verbs that Gemini's paths end in, and the prefix that they begin with.
pub open spec fn looks_like_gemini(path: Seq<char>) -> bool {
    ||| "/v1beta"@.is_prefix_of(path)
    ||| occurs(path, ":generateContent"@)
    ||| occurs(path, ":streamGenerateContent"@)
    ||| occurs(path, ":countTokens"@)
}

/// A path that holds `/messages` speaks the messages protocol. Of the others, one
/// that begins with `/v1beta` or holds one of Gemini's verbs speaks Gemini's,
/// and every other OpenAI's.
pub proof fn paths_tell_the_protocol(path: &str, proto: Proto)
    requires
        call_ensures(detect, (path,), proto),
    ensures
        proto is Claude <==> occurs(path@, "/messages"@),
        proto is Gemini <==> !occurs(path@, "/messages"@) && looks_like_gemini(path@),
        proto is OpenAi <==> !occurs(path@, "/messages"@) && !looks_like_gemini(path@),
{
}

/// The setting `api_key_header` names the field, is null or not there, or else
/// it is refused with a message that quotes it.
pub proof fn settings_choose_the_field(
    settings: &Value,
    choice: Result<Option<ApiKeyHeader>, ChannelError>,
)
    requires
        call_ensures(configured, (settings,), choice),
    ensures
        choice == Ok::<Option<ApiKeyHeader>, ChannelError>(Some(ApiKeyHeader::Bearer)) <==> holds(
            json(*settings),
            "api_key_header"@,
            Json::Text("bearer"@),
        ),
        choice == Ok::<Option<ApiKeyHeader>, ChannelError>(Some(ApiKeyHeader::XApiKey)) <==> holds(
            json(*settings),
            "api_key_header"@,
            Json::Text("x-api-key"@),
        ),
        choice == Ok::<Option<ApiKeyHeader>, ChannelError>(Some(ApiKeyHeader::XGoogApiKey))
            <==> holds(json(*settings), "api_key_header"@, Json::Text("x-goog-api-key"@)),
        choice == Ok::<Option<ApiKeyHeader>, ChannelError>(None) <==> holds(
            json(*settings),
            "api_key_header"@,
            Json::Null,
        ) || !(json(*settings) is Object && json(*settings)->Object_0.contains_key(
            "api_key_header"@,
        )),
        choice matches Err(e) ==> {
            let setting = json(*settings)->Object_0["api_key_header"@];
            e matches ChannelError::Build(message) && message@ == match setting {
                Json::Text(name) => "invalid custom api_key_header "@ + debug_text(name)
                    + "; expected bearer, x-api-key, or x-goog-api-key"@,
                _ => "custom api_key_header must be a string"@,
            }
        },
{
    reveal_strlit("bearer");
    reveal_strlit("x-api-key");
    reveal_strlit("x-goog-api-key");
    assert("bearer"@.len() == 6 && "x-api-key"@.len() == 9 && "x-goog-api-key"@.len() == 14);
}

/// The values of a field with the one value `text`.
pub open spec fn just(text: Seq<char>) -> Seq<Seq<u8>> {
    seq![encode_utf8(text)]
}

/// A key goes where the choice says, and without a choice where the protocol
/// says: as a bearer token in OpenAI's, and as it is, in a field of its own, in
/// the messages protocol and in Gemini's. No other credential is left, whatever
/// was there; the messages protocol has its version exactly without a choice;
/// and everything else stays.
pub proof fn keys_go_where_they_belong(
    before: Map<Seq<char>, Seq<Seq<u8>>>,
    key: Seq<char>,
    chosen: Option<ApiKeyHeader>,
    proto: Proto,
)
    ensures
        ({
            let after = authenticated(before, key, chosen, proto);
            let as_bearer = chosen == Some(ApiKeyHeader::Bearer) || (chosen is None && proto
                is OpenAi);
            let as_key = chosen == Some(ApiKeyHeader::XApiKey) || (chosen is None && proto
                is Claude);
            let as_goog = chosen == Some(ApiKeyHeader::XGoogApiKey) || (chosen is None && proto
                is Gemini);
            &&& after.contains_key("authorization"@) == as_bearer
            &&& after.contains_key("x-api-key"@) == as_key
            &&& after.contains_key("x-goog-api-key"@) == as_goog
            &&& as_bearer ==> after["authorization"@] == just("Bearer "@ + key)
            &&& as_key ==> after["x-api-key"@] == just(key)
            &&& as_goog ==> after["x-goog-api-key"@] == just(key)
            &&& as_bearer ==> carried(carrier(chosen, proto), key) == "Bearer "@ + key
            &&& !as_bearer ==> carried(carrier(chosen, proto), key) == key
            &&& chosen is Some ==> !after.contains_key("anthropic-version"@)
            &&& chosen is None && proto is Claude ==> after.contains_key("anthropic-version"@)
                && after["anthropic-version"@] == just("2023-06-01"@)
            &&& forall|name: Seq<char>|
                name != "authorization"@ && name != "x-api-key"@ && name != "x-goog-api-key"@ && (
                name == "anthropic-version"@ ==> chosen is None && !(proto is Claude)) ==> (
                #[trigger] after.contains_key(name) == before.contains_key(name) && (
                before.contains_key(name) ==> after[name] == before[name]))
        }),
{
    authenticating_names();
}

/// Where no field can carry the key, no credential is left at all, and
/// everything else stays.
pub proof fn refused_keys_leave_no_credential(
    before: Map<Seq<char>, Seq<Seq<u8>>>,
    name: Seq<char>,
)
    ensures
        ({
            let after = without_credentials(before);
            let carries = name == "authorization"@ || name == "x-api-key"@ || name
                == "x-goog-api-key"@;
            &&& after.contains_key(name) <==> before.contains_key(name) && !carries
            &&& after.contains_key(name) ==> after[name] == before[name]
        }),
{
}

/// Where the upstream is and what authenticates there is read from the setting
/// `base_url` and the member `api_key`, without blanks, and both have to be
/// there.
pub proof fn base_url_and_key_have_to_be_there(
    settings: &Value,
    secret: &Value,
    base: Result<&str, ChannelError>,
    key: Result<&str, ChannelError>,
)
    requires
        call_ensures(resolve_base_url, (settings,), base),
        call_ensures(require_api_key, (secret,), key),
    ensures
        match base {
            Ok(text) => stated(json(*settings), "base_url"@) == Some(text@),
            Err(ChannelError::MissingSetting(name)) => stated(json(*settings), "base_url"@) is None
                && name@ == "base_url"@,
            Err(_) => false,
        },
        match key {
            Ok(text) => stated(json(*secret), "api_key"@) == Some(text@),
            Err(ChannelError::InvalidCredential(message)) => stated(json(*secret), "api_key"@)
                is None && message@ == "missing api_key"@,
            Err(_) => false,
        },
{
}

/// A URL is the path below the base, with one slash between them, wherever that
/// is a URL at all.
pub proof fn urls_are_paths_below_bases(
    base: &str,
    path: &str,
    uri: Seq<char>,
    result: Result<String, ChannelError>,
)
    requires
        call_ensures(join_url, (base, path), result),
        is_below(uri, base@, path@),
    ensures
        match result {
            Ok(text) => text@ == uri && is_uri(uri),
            Err(ChannelError::Build(message)) => !is_uri(uri) && message@
                == "invalid upstream url: "@ + uri,
            Err(_) => false,
        },
{
    below_is_unique(base@, path@, uri);
}

/// A credential with an access token: whatever else it holds, whatever the path
/// and whatever field the settings choose, the request carries the token as a
/// bearer token and no other field. It fails exactly where there is no base URL,
/// where path and base make no URL, and where no field can carry the token.
pub proof fn tokens_go_out_as_bearer_tokens(
    channel: &CustomChannel,
    ctx: PrepareCtx<'_>,
    token: Seq<char>,
    result: Result<OutboundRequest, ChannelError>,
)
    requires
        call_ensures(CustomChannel::prepare, (channel, ctx), result),
        stated(json(*ctx.secret), "access_token"@) == Some(token),
    ensures
        match result {
            Ok(request) => {
                &&& method_name(request.method) == method_name(ctx.method)
                &&& octets(request.body) == octets(ctx.body)
                &&& stated(json(*ctx.provider_settings), "base_url"@) is Some
                &&& is_below(
                    request.uri@,
                    stated(json(*ctx.provider_settings), "base_url"@)->0,
                    ctx.path@,
                )
                &&& is_uri(request.uri@)
                &&& is_value_text("Bearer "@ + token)
                &&& fields(request.headers) == Map::<Seq<char>, Seq<Seq<u8>>>::empty().insert(
                    "authorization"@,
                    just("Bearer "@ + token),
                )
            },
            Err(ChannelError::MissingSetting(name)) => name@ == "base_url"@ && stated(
                json(*ctx.provider_settings),
                "base_url"@,
            ) is None,
            Err(ChannelError::Build(message)) => exists|uri: Seq<char>| #[trigger]
                is_below(uri, stated(json(*ctx.provider_settings), "base_url"@)->0, ctx.path@)
                    && !is_uri(uri) && message@ == "invalid upstream url: "@ + uri,
            Err(ChannelError::InvalidCredential(message)) => !is_value_text("Bearer "@ + token)
                && message@ == "credential is not a valid header value"@,
        },
{
    if let Some(base) = stated(json(*ctx.provider_settings), "base_url"@) {
        one_slash_joins(base, ctx.path@);
        assert(is_below(joined(base, ctx.path@), base, ctx.path@));
    }
}

/// The field that carries an API key, and the text in it: as the setting
/// `api_key_header` says, and where it says nothing as the path does. There is
/// none where the setting says anything else.
pub open spec fn key_field(settings: Json, path: Seq<char>, key: Seq<char>) -> Option<
    (Seq<char>, Seq<char>),
> {
    if holds(settings, "api_key_header"@, Json::Text("bearer"@)) {
        Some(("authorization"@, "Bearer "@ + key))
    } else if holds(settings, "api_key_header"@, Json::Text("x-api-key"@)) {
        Some(("x-api-key"@, key))
    } else if holds(settings, "api_key_header"@, Json::Text("x-goog-api-key"@)) {
        Some(("x-goog-api-key"@, key))
    } else if chooses_nothing(settings) {
        if occurs(path, "/messages"@) {
            Some(("x-api-key"@, key))
        } else if looks_like_gemini(path) {
            Some(("x-goog-api-key"@, key))
        } else {
            Some(("authorization"@, "Bearer "@ + key))
        }
    } else {
        None
    }
}

/// The settings leave the choice of the field to the path.
pub open spec fn chooses_nothing(settings: Json) -> bool {
    holds(settings, "api_key_header"@, Json::Null) || !(settings is Object
        && settings->Object_0.contains_key("api_key_header"@))
}

/// A credential without an access token: the request carries the API key in the
/// field that the setting or else the path says, with a version beside it where
/// the path alone makes it the messages protocol, and no other field. It fails exactly where
/// the setting is none of those known, where there is no base URL or no key,
/// where path and base make no URL, and where no field can carry the key.
pub proof fn keys_go_out_by_setting_or_path(
    channel: &CustomChannel,
    ctx: PrepareCtx<'_>,
    result: Result<OutboundRequest, ChannelError>,
)
    requires
        call_ensures(CustomChannel::prepare, (channel, ctx), result),
        stated(json(*ctx.secret), "access_token"@) is None,
    ensures
        ({
            let settings = json(*ctx.provider_settings);
            let base = stated(settings, "base_url"@);
            let key = stated(json(*ctx.secret), "api_key"@);
            let field = key_field(settings, ctx.path@, key->0);
            let one = Map::<Seq<char>, Seq<Seq<u8>>>::empty().insert((field->0).0, just((field->0).1));
            match result {
                Ok(request) => {
                    &&& method_name(request.method) == method_name(ctx.method)
                    &&& octets(request.body) == octets(ctx.body)
                    &&& base is Some && key is Some && field is Some
                    &&& is_below(request.uri@, base->0, ctx.path@)
                    &&& is_uri(request.uri@)
                    &&& is_value_text((field->0).1)
                    &&& fields(request.headers) == if chooses_nothing(settings) && occurs(
                        ctx.path@,
                        "/messages"@,
                    ) {
                        one.insert("anthropic-version"@, just("2023-06-01"@))
                    } else {
                        one
                    }
                },
                Err(ChannelError::MissingSetting(name)) => name@ == "base_url"@ && base is None
                    && field is Some,
                Err(ChannelError::InvalidCredential(message)) => field is Some && base is Some
                    && match key {
                    None => message@ == "missing api_key"@,
                    Some(_) => !is_value_text((field->0).1) && message@
                        == "credential is not a valid header value"@,
                },
                Err(ChannelError::Build(message)) => field is None || (base is Some && key is Some
                    && exists|uri: Seq<char>| #[trigger]
                    is_below(uri, base->0, ctx.path@) && !is_uri(uri) && message@
                        == "invalid upstream url: "@ + uri),
            }
        }),
{
    authenticating_names();
    reveal_strlit("bearer");
    assert("bearer"@.len() == 6);
    reveal_strlit("x-api-key");
    reveal_strlit("x-goog-api-key");
    let settings = json(*ctx.provider_settings);
    if let Some(base) = stated(settings, "base_url"@) {
        one_slash_joins(base, ctx.path@);
        assert(is_below(joined(base, ctx.path@), base, ctx.path@));
    }
    if let Ok(request) = result {
        let key = stated(json(*ctx.secret), "api_key"@)->0;
        let field = key_field(settings, ctx.path@, key)->0;
        let one = Map::<Seq<char>, Seq<Seq<u8>>>::empty().insert(field.0, just(field.1));
        if chooses_nothing(settings) && occurs(ctx.path@, "/messages"@) {
            assert(fields(request.headers) =~= one.insert(
                "anthropic-version"@,
                just("2023-06-01"@),
            ));
        } else {
            assert(fields(request.headers) =~= one);
        }
    }
}

/// A path that neither holds `/messages` nor looks like Gemini's authenticates,
/// where the settings leave it to the path, with the API key as a bearer token
/// and with nothing else.
pub proof fn other_paths_authenticate_as_openai(
    channel: &CustomChannel,
    ctx: PrepareCtx<'_>,
    key: Seq<char>,
    result: Result<OutboundRequest, ChannelError>,
)
    requires
        call_ensures(CustomChannel::prepare, (channel, ctx), result),
        stated(json(*ctx.secret), "access_token"@) is None,
        stated(json(*ctx.secret), "api_key"@) == Some(key),
        chooses_nothing(json(*ctx.provider_settings)),
        !occurs(ctx.path@, "/messages"@),
        !"/v1beta"@.is_prefix_of(ctx.path@),
        !occurs(ctx.path@, ":generateContent"@),
        !occurs(ctx.path@, ":streamGenerateContent"@),
        !occurs(ctx.path@, ":countTokens"@),
    ensures
        result matches Ok(request) ==> fields(request.headers) == Map::<
            Seq<char>,
            Seq<Seq<u8>>,
        >::empty().insert("authorization"@, just("Bearer "@ + key)),
{
    keys_go_out_by_setting_or_path(channel, ctx, result);
    reveal_strlit("bearer");
    reveal_strlit("x-api-key");
    reveal_strlit("x-goog-api-key");
}

/// The two switches are on exactly where the settings say true.
pub proof fn switches_are_on_where_settings_say_true(
    channel: &CustomChannel,
    settings: &Value,
    raw: bool,
    prefetch: bool,
)
    requires
        call_ensures(CustomChannel::preserve_raw_request_body, (channel, settings), raw),
        call_ensures(CustomChannel::prefetch_stream_before_commit, (channel, settings), prefetch),
    ensures
        raw <==> holds(json(*settings), "preserve_raw_request_body"@, Json::Bool(true)),
        prefetch <==> holds(json(*settings), "prefetch_stream_before_commit"@, Json::Bool(true)),
{
}

/// The routing table passes every operation through in every format that it
/// has: content in the four formats of content, everything else in the formats
/// of the three families, and nothing twice.
pub proof fn the_table_passes_every_cell_through(
    channel: &CustomChannel,
    table: RouteList,
    operation: Operation,
    kind: OperationKind,
)
    requires
        call_ensures(CustomChannel::routing_table, (channel,), table),
    ensures
        ({
            let row = Route {
                key: OperationKey { operation, kind },
                action: RouteAction::Passthrough,
            };
            let content = operation == Operation::GenerateContent || operation
                == Operation::StreamGenerateContent;
            table@.contains(row) <==> (content <==> kind is ContentGeneration)
        }),
        table@.no_duplicates(),
{
    every_cell_is_served_once(operation, kind);
}

} // verus!
