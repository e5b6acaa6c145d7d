//! What holds of the custom channel as a whole.

use crate::channel::common::{base_url, bearer, field_value, joined};
use crate::channel::custom::auth::{
    authenticated, carried, carrier, carrier_name, chosen_header, protocol_of, ApiKeyHeader, Proto,
};
use crate::channel::custom::oauth::{
    access_token_of, clamped, expiry, is_due, polled, present, refresh_token_of, renewed, signed,
    succeeded, token_expiry, DeviceProgress, TokenResponse, EXPIRY_SKEW_MS,
};
use crate::channel::custom::usage::{
    answer_document, is_parsed, is_report, setting, usage_fields, usage_request, UsagePayload,
    UsageReport, DEFAULT_USAGE_BASE_URL, DEFAULT_USAGE_PATH,
};
use crate::channel::custom::{custom_routes, prepared};
use crate::channel::error::ChannelFault;
use crate::json::{json, json_document, Json};
use crate::protocol::{passed, ContentGenerationKind, Operation, OperationKind, Provider};
use crate::text::trimmed;
use crate::transport::Outbound;
use http::StatusCode;
use serde_json::Value;
use vstd::prelude::*;

verus! {

/// The names of the fields that authenticate are four.
pub(crate) proof fn authenticating_names()
    ensures
        "authorization"@ != "x-api-key"@,
        "authorization"@ != "x-goog-api-key"@,
        "authorization"@ != "anthropic-version"@,
        "x-api-key"@ != "x-goog-api-key"@,
        "x-api-key"@ != "anthropic-version"@,
        "x-goog-api-key"@ != "anthropic-version"@,
{
    reveal_strlit("authorization");
    reveal_strlit("x-api-key");
    reveal_strlit("x-goog-api-key");
    reveal_strlit("anthropic-version");
    assert("authorization"@.len() == 13 && "x-api-key"@.len() == 9 && "x-goog-api-key"@.len() == 14
        && "anthropic-version"@.len() == 17);
}

/// The members that a renewal sets are four.
pub(crate) proof fn renewed_names()
    ensures
        "access_token"@ != "refresh_token"@,
        "access_token"@ != "expires_at_ms"@,
        "access_token"@ != "auth_kind"@,
        "refresh_token"@ != "expires_at_ms"@,
        "refresh_token"@ != "auth_kind"@,
        "expires_at_ms"@ != "auth_kind"@,
{
    reveal_strlit("access_token");
    reveal_strlit("refresh_token");
    reveal_strlit("expires_at_ms");
    reveal_strlit("auth_kind");
    assert("refresh_token"@[0] == 'r' && "expires_at_ms"@[0] == 'e');
    assert("access_token"@.len() == 12 && "refresh_token"@.len() == 13 && "auth_kind"@.len() == 9);
}

/// Of the fields that can carry a credential exactly one is left, and it
/// carries the key.
pub proof fn one_field_carries_the_key(
    before: Map<Seq<char>, Seq<Seq<u8>>>,
    key: Seq<char>,
    configured: Option<ApiKeyHeader>,
    proto: Proto,
)
    ensures
        ({
            let after = authenticated(before, key, configured, proto);
            let header = carrier(configured, proto);
            &&& after.contains_key("authorization"@) <==> header is Bearer
            &&& after.contains_key("x-api-key"@) <==> header is XApiKey
            &&& after.contains_key("x-goog-api-key"@) <==> header is XGoogApiKey
            &&& after[carrier_name(header)] == field_value(carried(header, key))
        }),
{
    authenticating_names();
}

/// An explicit choice of the field leaves no companion of a protocol behind;
/// without one, the messages protocol gets its version field.
pub proof fn a_choice_owns_authentication(
    before: Map<Seq<char>, Seq<Seq<u8>>>,
    key: Seq<char>,
    configured: Option<ApiKeyHeader>,
    proto: Proto,
)
    ensures
        ({
            let after = authenticated(before, key, configured, proto);
            &&& configured is Some ==> !after.contains_key("anthropic-version"@)
            &&& configured is None && proto is Claude ==> after.contains_key("anthropic-version"@)
                && after["anthropic-version"@] == field_value("2023-06-01"@)
        }),
{
    authenticating_names();
}

/// Fields that have nothing to do with authentication stay as they are.
pub proof fn other_fields_stay(
    before: Map<Seq<char>, Seq<Seq<u8>>>,
    key: Seq<char>,
    configured: Option<ApiKeyHeader>,
    proto: Proto,
    name: Seq<char>,
)
    requires
        name != "authorization"@,
        name != "x-api-key"@,
        name != "x-goog-api-key"@,
        name != "anthropic-version"@,
    ensures
        ({
            let after = authenticated(before, key, configured, proto);
            &&& after.contains_key(name) <==> before.contains_key(name)
            &&& before.contains_key(name) ==> after[name] == before[name]
        }),
{
}

/// Authenticating twice is authenticating once.
pub proof fn authenticating_again_changes_nothing(
    before: Map<Seq<char>, Seq<Seq<u8>>>,
    key: Seq<char>,
    configured: Option<ApiKeyHeader>,
    proto: Proto,
)
    ensures
        ({
            let once = authenticated(before, key, configured, proto);
            authenticated(once, key, configured, proto) == once
        }),
{
    authenticating_names();
    let once = authenticated(before, key, configured, proto);
    assert(authenticated(once, key, configured, proto) =~= once);
}

/// Settings can choose one of three fields or none. Anything else is refused.
pub proof fn only_known_fields_can_be_chosen(settings: Json)
    ensures
        chosen_header(settings) is Ok <==> {
            ||| settings.get("api_key_header"@) is None
            ||| settings.get("api_key_header"@) == Some(Json::Null)
            ||| settings.get("api_key_header"@) == Some(Json::Text("bearer"@))
            ||| settings.get("api_key_header"@) == Some(Json::Text("x-api-key"@))
            ||| settings.get("api_key_header"@) == Some(Json::Text("x-goog-api-key"@))
        },
        chosen_header(settings) matches Err(fault) ==> fault is Build,
{
}

/// A prepared request asks the upstream for what the client asked, below the
/// base URL, and carries no header field but those that authenticate.
pub proof fn requests_are_passed_on(
    secret: Json,
    settings: Json,
    method: Seq<char>,
    path: Seq<char>,
    body: Seq<u8>,
)
    ensures
        prepared(secret, settings, method, path, body) matches Ok(request) ==> {
            &&& base_url(settings) is Ok
            &&& request.method == method
            &&& request.uri == joined(base_url(settings)->Ok_0, path)
            &&& request.body == body
            &&& forall|name: Seq<char>| #[trigger]
                request.fields.contains_key(name) ==> {
                    ||| name == "authorization"@
                    ||| name == "x-api-key"@
                    ||| name == "x-goog-api-key"@
                    ||| name == "anthropic-version"@
                }
        },
{
}

/// Without a base URL nothing is sent.
pub proof fn a_base_url_is_required(
    secret: Json,
    settings: Json,
    method: Seq<char>,
    path: Seq<char>,
    body: Seq<u8>,
)
    requires
        base_url(settings) is Err,
    ensures
        prepared(secret, settings, method, path, body) is Err,
        access_token_of(secret) is Some || chosen_header(settings) is Ok ==> prepared(
            secret,
            settings,
            method,
            path,
            body,
        ) == Err::<Outbound, ChannelFault>(ChannelFault::MissingSetting("base_url"@)),
{
}

/// An access token goes out as a bearer token and alone, whatever API key the
/// credential holds beside it, whatever the path, and whichever field the
/// settings choose for keys.
pub proof fn an_access_token_wins(
    secret: Json,
    settings: Json,
    method: Seq<char>,
    path: Seq<char>,
    body: Seq<u8>,
    token: Seq<char>,
    other_secret: Json,
    other_settings: Json,
)
    requires
        access_token_of(secret) == Some(token),
        access_token_of(other_secret) == Some(token),
        base_url(other_settings) == base_url(settings),
    ensures
        prepared(secret, settings, method, path, body) matches Ok(request) ==> request.fields
            == Map::<Seq<char>, Seq<Seq<u8>>>::empty().insert(
            "authorization"@,
            field_value(bearer(token)),
        ),
        prepared(other_secret, other_settings, method, path, body) == prepared(
            secret,
            settings,
            method,
            path,
            body,
        ),
{
}

/// Usage is never asked for unless the settings say so in as many words.
pub proof fn usage_is_off_by_default(secret: Json, settings: Json)
    ensures
        settings.get("usage_enabled"@) != Some(Json::Bool(true)) ==> usage_request(secret, settings)
            == Ok::<Option<Outbound>, ChannelFault>(None),
        settings.get("usage_enabled"@) == Some(Json::Bool(true)) ==> !(usage_request(
            secret,
            settings,
        ) == Ok::<Option<Outbound>, ChannelFault>(None)),
{
}

/// The question goes, by `GET` and without a body, to where the settings say,
/// and to the default host and path where they do not.
pub proof fn usage_is_asked_where_settings_say(secret: Json, settings: Json)
    ensures
        usage_request(secret, settings) matches Ok(Some(request)) ==> {
            &&& request.method == "GET"@
            &&& request.body.len() == 0
            &&& request.uri == joined(
                setting(settings, "usage_base_url"@, DEFAULT_USAGE_BASE_URL@),
                setting(settings, "usage_path"@, DEFAULT_USAGE_PATH@),
            )
        },
{
}

/// The question authenticates as the requests on OpenAI's paths do.
pub proof fn usage_authenticates_like_requests(
    secret: Json,
    settings: Json,
    method: Seq<char>,
    path: Seq<char>,
    body: Seq<u8>,
)
    requires
        protocol_of(path) is OpenAi,
    ensures
        prepared(secret, settings, method, path, body) matches Ok(request) ==> usage_fields(
            secret,
            settings,
        ) == Ok::<Map<Seq<char>, Seq<Seq<u8>>>, ChannelFault>(request.fields),
{
}

/// An answer says the same whether it comes wrapped or not.
pub proof fn wrapping_makes_no_difference<A>(
    raw: Json,
    payload: UsagePayload<A>,
    wrapper: UsagePayload<A>,
    report: Option<UsageReport<A>>,
)
    requires
        payload.state is None,
        wrapper.state == Some(Box::new(payload)),
    ensures
        is_report(raw, Some(wrapper), report) == is_report(raw, Some(payload), report),
{
}

/// Nothing is reported of an answer that is no success or no JSON, however it
/// would be decoded, and a report carries the whole document of the answer.
pub proof fn reports_carry_the_whole_answer<A, D: Fn(&Value) -> Option<UsagePayload<A>>>(
    status: StatusCode,
    body: Seq<u8>,
    decode: D,
    report: Option<UsageReport<A>>,
)
    requires
        is_parsed(decode, answer_document(status, body), report),
    ensures
        !succeeded(status) || json_document(body) is Err ==> report is None,
        report matches Some(known) ==> json_document(body) == Ok::<Json, Seq<char>>(
            json(known.raw),
        ),
{
}

/// Only a credential with a refresh token is ever due, and one without an
/// access token always is.
pub proof fn only_connected_accounts_are_due(secret: Json, now: i64)
    ensures
        is_due(secret, now) ==> refresh_token_of(secret) is Some,
        refresh_token_of(secret) is Some && access_token_of(secret) is None ==> is_due(secret, now),
{
}

/// Once due, a credential stays due until it is renewed.
pub proof fn due_credentials_stay_due(secret: Json, now: i64, later: i64)
    requires
        is_due(secret, now),
        now <= later,
    ensures
        is_due(secret, later),
{
}

/// A renewal keeps every member but those that it is for, and the refresh
/// token, too, where no new one came.
pub proof fn renewals_keep_the_rest(
    secret: Json,
    response: TokenResponse,
    now: i64,
    key: Seq<char>,
)
    requires
        key != "access_token"@,
        key != "expires_at_ms"@,
        key != "auth_kind"@,
        key == "refresh_token"@ ==> present(response.refresh_token) is None,
    ensures
        renewed(secret, response, now) matches Ok(after) ==> after.get(key) == secret.get(key),
{
}

/// A renewed credential authenticates with the new access token, is refreshed
/// with the new refresh token, or the old one where no new one came, and says
/// what kind it is.
pub proof fn renewals_rotate_the_tokens(secret: Json, response: TokenResponse, now: i64)
    ensures
        renewed(secret, response, now) matches Ok(after) ==> {
            &&& access_token_of(after) == Some(trimmed(response.access_token->0@))
            &&& refresh_token_of(after) == match present(response.refresh_token) {
                Some(token) => Some(trimmed(token)),
                None => refresh_token_of(secret),
            }
            &&& after.get("auth_kind"@) == Some(Json::Text("slate_oauth"@))
        },
{
    renewed_names();
}

/// A renewed credential is due from one minute before its expiry on.
pub proof fn renewed_credentials_are_due_near_their_expiry(
    secret: Json,
    response: TokenResponse,
    now: i64,
    later: i64,
)
    requires
        renewed(secret, response, now) is Ok,
        refresh_token_of(renewed(secret, response, now)->Ok_0) is Some,
        i64::MIN <= expiry(response.access_token->0@, response.expires_in, now) <= i64::MAX,
        expiry(response.access_token->0@, response.expires_in, now) != 0,
    ensures
        is_due(renewed(secret, response, now)->Ok_0, later) <==> clamped(later * 1000) > expiry(
            response.access_token->0@,
            response.expires_in,
            now,
        ) - EXPIRY_SKEW_MS,
{
    renewed_names();
    renewals_rotate_the_tokens(secret, response, now);
}

/// A credential that has just been renewed is not due, unless its token lives
/// less than a minute.
pub proof fn fresh_credentials_are_not_due(secret: Json, response: TokenResponse, now: i64)
    requires
        renewed(secret, response, now) is Ok,
        i64::MIN <= now * 1000,
        (now + 3600) * 1000 <= i64::MAX,
        match response.expires_in {
            Some(seconds) => signed(seconds) >= 60 && now * 1000 + signed(seconds) * 1000
                <= i64::MAX,
            None => match token_expiry(response.access_token->0@) {
                Some(ms) => ms - now * 1000 >= EXPIRY_SKEW_MS,
                None => true,
            },
        },
    ensures
        !is_due(renewed(secret, response, now)->Ok_0, now),
{
    renewed_names();
    renewals_rotate_the_tokens(secret, response, now);
}

/// A device flow is ready only on success, and then with a credential that
/// authenticates; pending and denied come only without.
pub proof fn only_success_is_ready(
    status: StatusCode,
    body: Seq<u8>,
    parsed: Result<TokenResponse, String>,
    now: i64,
)
    ensures
        polled(status, body, parsed, now) matches Ok(progress) ==> {
            &&& progress is Ready <==> succeeded(status)
            &&& progress matches DeviceProgress::Ready(secret) ==> access_token_of(secret) is Some
        },
{
    if let Ok(response) = parsed {
        renewals_rotate_the_tokens(Json::Object(Map::empty()), response, now);
    }
}

/// The place of a cell in the routing table.
spec fn row(operation: Operation, kind: OperationKind) -> int {
    let first: int = match operation {
        Operation::ListModels => 0,
        Operation::GetModel => 3,
        Operation::CountTokens => 6,
        Operation::GenerateContent => 9,
        Operation::StreamGenerateContent => 13,
        Operation::CreateEmbedding => 17,
        Operation::CreateImage => 20,
        Operation::EditImage => 23,
        Operation::CompactContent => 26,
    };
    first + match kind {
        OperationKind::Provider(Provider::OpenAi) => 0int,
        OperationKind::Provider(Provider::Claude) => 1,
        OperationKind::Provider(Provider::Gemini) => 2,
        OperationKind::ContentGeneration(ContentGenerationKind::OpenAiResponses) => 0,
        OperationKind::ContentGeneration(ContentGenerationKind::OpenAiChatCompletions) => 1,
        OperationKind::ContentGeneration(ContentGenerationKind::ClaudeMessages) => 2,
        OperationKind::ContentGeneration(ContentGenerationKind::GeminiGenerateContent) => 3,
    }
}

/// The routing table serves every operation in every format that it has, each
/// once.
pub proof fn every_cell_is_served_once(operation: Operation, kind: OperationKind)
    ensures
        custom_routes().contains(passed(operation, kind)) <==> (operation.generates_content()
            <==> kind is ContentGeneration),
        custom_routes().no_duplicates(),
{
    let routes = custom_routes();
    assert(routes.len() == 29);
    assert forall|i: int| 0 <= i < 29 implies {
        let key = (#[trigger] routes[i]).key;
        &&& row(key.operation, key.kind) == i
        &&& key.operation.generates_content() <==> key.kind is ContentGeneration
    } by {
    }
    if operation.generates_content() <==> kind is ContentGeneration {
        assert(routes[row(operation, kind)] == passed(operation, kind));
    }
}

} // verus!
