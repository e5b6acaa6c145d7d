//! Calls about the account of a connected user: what they come to, told on the
//! credential, the answer and the time that they are given and on the members
//! of the credential that they give.

use crate::channel::custom::auth_laws::{holds, stated};
use crate::channel::custom::laws::renewed_names;
use crate::channel::custom::oauth::{
    access_token, base64_decoded, claims_expiry_ms, device_poll_request, device_polled,
    device_start_request, device_started, fits, jwt_expiry_ms, needs_refresh, refresh_request,
    refresh_token, refreshed, status_error, token_secret, DeviceInit, DevicePoll, DeviceResponse,
    TokenResponse,
};
use crate::channel::error::ChannelError;
use crate::channel::form::{encoded_form, percent_encoded};
use crate::json::{json, json_document, Json};
use crate::text::{beginnings_are_prefixes, first_chars, lossy_text, split, trimmed};
use crate::transport::{
    fields, method_name, octets, status_label, status_number, OutboundRequest,
};
use bytes::Bytes;
use http::StatusCode;
use serde_json::Value;
use vstd::prelude::*;
use vstd::utf8::encode_utf8;

verus! {

/// The tokens of a credential are its members `access_token` and
/// `refresh_token`, without blanks around them.
pub proof fn tokens_are_members(secret: &Value, access: Option<&str>, refresh: Option<&str>)
    requires
        call_ensures(access_token, (secret,), access),
        call_ensures(refresh_token, (secret,), refresh),
    ensures
        match access {
            Some(token) => stated(json(*secret), "access_token"@) == Some(token@),
            None => stated(json(*secret), "access_token"@) is None,
        },
        match refresh {
            Some(token) => stated(json(*secret), "refresh_token"@) == Some(token@),
            None => stated(json(*secret), "refresh_token"@) is None,
        },
{
}

/// A number of seconds in milliseconds, or the nearest number that fits.
pub open spec fn milliseconds(seconds: int) -> int {
    if seconds * 1000 > i64::MAX {
        i64::MAX as int
    } else if seconds * 1000 < i64::MIN {
        i64::MIN as int
    } else {
        seconds * 1000
    }
}

/// A credential is due exactly if it has a refresh token and either no access
/// token, or a number `expires_at_ms` that is not zero and less than a minute
/// ahead.
pub proof fn due_is_less_than_a_minute_ahead(secret: &Value, now: i64, due: bool)
    requires
        call_ensures(needs_refresh, (secret, now), due),
    ensures
        due <==> stated(json(*secret), "refresh_token"@) is Some && (stated(
            json(*secret),
            "access_token"@,
        ) is None || exists|at: int| #[trigger]
            holds(json(*secret), "expires_at_ms"@, Json::Integer(at)) && i64::MIN <= at <= i64::MAX
                && at != 0 && milliseconds(now as int) > at - 60_000),
{
    if let Json::Object(members) = json(*secret) {
        if members.contains_key("expires_at_ms"@) {
            if let Json::Integer(at) = members["expires_at_ms"@] {
                assert(holds(json(*secret), "expires_at_ms"@, Json::Integer(at)));
            }
        }
    }
}

/// The expiry in milliseconds that claims state: their member `exp`, a number of
/// seconds, where both fit.
pub open spec fn expiry_in_claims(claims: Json) -> Option<int> {
    match claims {
        Json::Object(members) => if members.contains_key("exp"@) {
            match members["exp"@] {
                Json::Integer(n) => if i64::MIN <= n <= i64::MAX && i64::MIN <= n * 1000
                    <= i64::MAX {
                    Some(n * 1000)
                } else {
                    None
                },
                _ => None,
            }
        } else {
            None
        },
        _ => None,
    }
}

/// The expiry in milliseconds that a token states: in the claims that stand,
/// encoded, behind its first dot and before the next.
pub open spec fn expiry_in_token(token: Seq<char>) -> Option<int> {
    let pieces = split(token, '.');
    if pieces.len() >= 2 && base64_decoded(pieces[1]) is Some && json_document(
        base64_decoded(pieces[1])->0,
    ) is Ok {
        expiry_in_claims(json_document(base64_decoded(pieces[1])->0)->Ok_0)
    } else {
        None
    }
}

/// An expiry is read in the claims of a token, and nowhere else in it.
pub proof fn expiries_are_read_in_claims(
    claims: &Value,
    in_claims: Option<i64>,
    token: &str,
    in_token: Option<i64>,
)
    requires
        call_ensures(claims_expiry_ms, (claims,), in_claims),
        call_ensures(jwt_expiry_ms, (token,), in_token),
    ensures
        match in_claims {
            Some(ms) => expiry_in_claims(json(*claims)) == Some(ms as int),
            None => expiry_in_claims(json(*claims)) is None,
        },
        match in_token {
            Some(ms) => expiry_in_token(token@) == Some(ms as int),
            None => expiry_in_token(token@) is None,
        },
{
}

/// A lifetime in seconds; a number beyond the largest signed one counts down
/// from the one before zero.
pub open spec fn lifetime(seconds: u64) -> int {
    if seconds > i64::MAX {
        seconds - 0x1_0000_0000_0000_0000
    } else {
        seconds as int
    }
}

/// The text, where there is any that is not blank throughout.
pub open spec fn filled(text: Option<String>) -> Option<Seq<char>> {
    match text {
        Some(t) => if trimmed(t@).len() == 0 {
            None
        } else {
            Some(t@)
        },
        None => None,
    }
}

/// When a token that came at `now` expires: after the lifetime that the answer
/// states, else when the token itself says, else after an hour.
pub open spec fn expires_at(token: Seq<char>, expires_in: Option<u64>, now: i64) -> int {
    match expires_in {
        Some(seconds) => milliseconds(now as int) + lifetime(seconds) * 1000,
        None => match expiry_in_token(token) {
            Some(ms) => ms,
            None => if now + 3600 > i64::MAX {
                i64::MAX * 1000
            } else {
                (now + 3600) * 1000
            },
        },
    }
}

/// No number on the way to the expiry of the answer's token is out of range.
pub open spec fn stays_in_range(response: TokenResponse, now: i64) -> bool {
    match filled(response.access_token) {
        Some(token) => {
            let at = expires_at(token, response.expires_in, now);
            &&& i64::MIN <= at <= i64::MAX
            &&& response.expires_in matches Some(seconds) ==> i64::MIN <= lifetime(seconds) * 1000
                <= i64::MAX
        },
        None => true,
    }
}

/// `result` is the credential `before` with what the answer hands out: its
/// access token as it came, when that expires, what kind of credential it is,
/// and its refresh token, if it has one; every other member is as before. An
/// answer without an access token and a credential that is no object are
/// refused.
pub open spec fn renews(
    before: Json,
    response: TokenResponse,
    now: i64,
    result: Result<Value, ChannelError>,
) -> bool {
    match filled(response.access_token) {
        None => result matches Err(ChannelError::Build(message)) && message@
            == "slate token response missing access_token"@,
        Some(token) => match before {
            Json::Object(old_members) => {
                &&& result matches Ok(value)
                &&& json(value) matches Json::Object(members)
                &&& members.contains_key("access_token"@) && members["access_token"@] == Json::Text(
                    token,
                )
                &&& members.contains_key("expires_at_ms"@) && members["expires_at_ms"@]
                    == Json::Integer(expires_at(token, response.expires_in, now))
                &&& members.contains_key("auth_kind"@) && members["auth_kind"@] == Json::Text(
                    "slate_oauth"@,
                )
                &&& filled(response.refresh_token) matches Some(refresh) ==> members.contains_key(
                    "refresh_token"@,
                ) && members["refresh_token"@] == Json::Text(refresh)
                &&& forall|key: Seq<char>|
                    key != "access_token"@ && key != "expires_at_ms"@ && key != "auth_kind"@ && (key
                        == "refresh_token"@ ==> filled(response.refresh_token) is None) ==> (
                    #[trigger] members.contains_key(key) == old_members.contains_key(key) && (
                    old_members.contains_key(key) ==> members[key] == old_members[key]))
            },
            _ => result matches Err(ChannelError::InvalidCredential(message)) && message@
                == "secret must be an object"@,
        },
    }
}

/// Tokens go into a credential as `renews` says.
pub proof fn tokens_go_into_the_credential(
    secret: Value,
    response: TokenResponse,
    now: i64,
    result: Result<Value, ChannelError>,
)
    requires
        call_ensures(token_secret, (secret, response, now), result),
    ensures
        renews(json(secret), response, now, result),
{
    renewed_names();
}

/// Where the answer states a lifetime, and the numbers are in range, the
/// credential says that it expires that long from now.
pub proof fn a_stated_lifetime_counts_from_now(
    secret: Value,
    response: TokenResponse,
    now: i64,
    result: Result<Value, ChannelError>,
    seconds: u64,
)
    requires
        call_ensures(token_secret, (secret, response, now), result),
        result is Ok,
        response.expires_in == Some(seconds),
        i64::MIN <= now * 1000 <= i64::MAX,
        seconds * 1000 <= i64::MAX,
        now * 1000 + seconds * 1000 <= i64::MAX,
    ensures
        holds(
            json(result->Ok_0),
            "expires_at_ms"@,
            Json::Integer(now * 1000 + seconds * 1000),
        ),
{
    tokens_go_into_the_credential(secret, response, now, result);
}

/// And from one minute before that on it is due, and not before, where it has a
/// refresh token.
pub proof fn a_renewed_credential_is_due_in_time(
    secret: Value,
    response: TokenResponse,
    now: i64,
    renewed: Value,
    seconds: u64,
    later: i64,
    due: bool,
)
    requires
        call_ensures(
            token_secret,
            (secret, response, now),
            Ok::<Value, ChannelError>(renewed),
        ),
        response.expires_in == Some(seconds),
        i64::MIN <= now * 1000 <= i64::MAX,
        seconds * 1000 <= i64::MAX,
        now * 1000 + seconds * 1000 <= i64::MAX,
        now * 1000 + seconds * 1000 != 0,
        stated(json(renewed), "refresh_token"@) is Some,
        i64::MIN <= later * 1000 <= i64::MAX,
        call_ensures(needs_refresh, (&renewed, later), due),
    ensures
        due <==> later * 1000 > now * 1000 + seconds * 1000 - 60_000,
{
    let result = Ok::<Value, ChannelError>(renewed);
    tokens_go_into_the_credential(secret, response, now, result);
    a_stated_lifetime_counts_from_now(secret, response, now, result, seconds);
    due_is_less_than_a_minute_ahead(&renewed, later, due);
    assert(stated(json(renewed), "access_token"@) is Some);
}

/// A success is a status from 200 to 299.
pub open spec fn went_well(status: StatusCode) -> bool {
    status_number(status) >= 200 && status_number(status) < 300
}

/// `message` names the context and the status and begins to tell the body: 256
/// characters of it, or all.
pub open spec fn tells(
    message: Seq<char>,
    context: Seq<char>,
    status: StatusCode,
    body: Bytes,
) -> bool {
    let text = lossy_text(octets(body));
    exists|snippet: Seq<char>|
        #![trigger snippet.is_prefix_of(text)]
        snippet.is_prefix_of(text) && (snippet.len() == 256 || (snippet.len() < 256 && snippet
            == text)) && message == context + " "@ + status_label(status_number(status)) + ": "@
            + snippet
}

/// A status that is no success is told with the beginning of the body.
pub proof fn failures_are_told(context: &str, status: StatusCode, body: &Bytes, error: ChannelError)
    requires
        call_ensures(status_error, (context, status, body), error),
    ensures
        error matches ChannelError::Build(message) && tells(message@, context@, status, *body),
{
    let text = lossy_text(octets(*body));
    beginnings_are_prefixes(text, 256);
    let snippet = first_chars(text, 256);
    assert(snippet.is_prefix_of(text));
    if snippet.len() < 256 {
        assert(snippet =~= text);
    }
}

/// Whether the expiry of an answer's token can be told is found out beforehand.
pub proof fn ranges_are_tested(response: &TokenResponse, now: i64, r: bool)
    requires
        call_ensures(fits, (response, now), r),
    ensures
        r <==> stays_in_range(*response, now),
{
}

/// What the answer to a refresh comes to: the renewed credential on a success
/// that can be read, the message otherwise; and nothing exactly where the expiry
/// is out of range.
pub proof fn refreshes_renew_the_credential(
    secret: &Value,
    status: StatusCode,
    body: &Bytes,
    parsed: Result<TokenResponse, String>,
    now: i64,
    result: Option<Result<Value, ChannelError>>,
)
    requires
        call_ensures(refreshed, (secret, status, body, parsed, now), result),
    ensures
        match parsed {
            _ if !went_well(status) => result matches Some(Err(ChannelError::Build(message)))
                && tells(message@, "slate token refresh"@, status, *body),
            Err(reason) => result matches Some(Err(ChannelError::Build(message))) && message@
                == "slate refresh response parse: "@ + reason@,
            Ok(response) => match result {
                None => !stays_in_range(response, now),
                Some(renewed) => stays_in_range(response, now) && renews(
                    json(*secret),
                    response,
                    now,
                    renewed,
                ),
            },
        },
{
    renewed_names();
    let text = lossy_text(octets(*body));
    beginnings_are_prefixes(text, 256);
    let snippet = first_chars(text, 256);
    assert(snippet.is_prefix_of(text));
    if snippet.len() < 256 {
        assert(snippet =~= text);
    }
}

/// What the answer to a poll comes to: on success a credential with the tokens
/// and nothing else; else the error in the answer tells whether to wait on or to
/// give up.
pub proof fn polls_follow_the_answer(
    status: StatusCode,
    body: &Bytes,
    parsed: Result<TokenResponse, String>,
    now: i64,
    result: Option<Result<DevicePoll, ChannelError>>,
)
    requires
        call_ensures(device_polled, (status, body, parsed, now), result),
    ensures
        match parsed {
            Err(reason) => result matches Some(Err(ChannelError::Build(message))) && message@
                == "slate device poll parse: "@ + reason@,
            Ok(response) => if went_well(status) {
                match result {
                    None => !stays_in_range(response, now),
                    Some(Ok(DevicePoll::Ready(secret))) => stays_in_range(response, now) && renews(
                        Json::Object(Map::empty()),
                        response,
                        now,
                        Ok(secret),
                    ),
                    Some(Ok(_)) => false,
                    Some(Err(e)) => filled(response.access_token) is None && renews(
                        Json::Object(Map::empty()),
                        response,
                        now,
                        Err(e),
                    ),
                }
            } else {
                let waits = response.error is Some && (response.error->0@
                    == "authorization_pending"@ || response.error->0@ == "slow_down"@);
                let over = response.error is Some && (response.error->0@ == "access_denied"@
                    || response.error->0@ == "expired_token"@);
                &&& result is Some
                &&& (result->0 is Ok && result->0->Ok_0 is Pending) == waits
                &&& (result->0 is Ok && result->0->Ok_0 is Denied) == over
                &&& !waits && !over ==> (result->0 matches Err(ChannelError::Build(message))
                    && tells(message@, "slate device poll"@, status, *body))
            },
        },
{
    renewed_names();
    reveal_strlit("authorization_pending");
    reveal_strlit("slow_down");
    reveal_strlit("access_denied");
    reveal_strlit("expired_token");
    assert("authorization_pending"@.len() == 21 && "slow_down"@.len() == 9);
    assert("access_denied"@.len() == 13 && "expired_token"@.len() == 13);
    assert("access_denied"@[0] == 'a' && "expired_token"@[0] == 'e');
    let text = lossy_text(octets(*body));
    beginnings_are_prefixes(text, 256);
    let snippet = first_chars(text, 256);
    assert(snippet.is_prefix_of(text));
    if snippet.len() < 256 {
        assert(snippet =~= text);
    }
}

/// A device flow starts with the codes of the answer, at the complete address
/// where there is one, and with an interval of a second at least.
pub proof fn flows_start_as_answered(
    status: StatusCode,
    body: &Bytes,
    parsed: Result<DeviceResponse, String>,
    result: Result<DeviceInit, ChannelError>,
)
    requires
        call_ensures(device_started, (status, body, parsed), result),
    ensures
        match parsed {
            _ if !went_well(status) => result matches Err(ChannelError::Build(message)) && tells(
                message@,
                "slate device authorization"@,
                status,
                *body,
            ),
            Err(reason) => result matches Err(ChannelError::Build(message)) && message@
                == "slate device response parse: "@ + reason@,
            Ok(response) => {
                &&& result matches Ok(init)
                &&& init.device_code@ == response.device_code@
                &&& init.user_code@ == response.user_code@
                &&& response.verification_uri_complete matches Some(complete)
                    ==> init.verification_url@ == complete@
                &&& response.verification_uri_complete is None ==> init.verification_url@
                    == response.verification_uri@
                &&& init.interval_secs >= 1
                &&& response.interval >= 1 ==> init.interval_secs == response.interval
                &&& response.interval == 0 ==> init.interval_secs == 1
            },
        },
{
    let text = lossy_text(octets(*body));
    beginnings_are_prefixes(text, 256);
    let snippet = first_chars(text, 256);
    assert(snippet.is_prefix_of(text));
    if snippet.len() < 256 {
        assert(snippet =~= text);
    }
}

/// The request posts the form `form` to `uri`, as a form, and accepts JSON.
pub open spec fn posts(request: OutboundRequest, uri: Seq<char>, form: Seq<char>) -> bool {
    &&& method_name(request.method) == "POST"@
    &&& request.uri@ == uri
    &&& octets(request.body) == encode_utf8(form)
    &&& fields(request.headers) == Map::<Seq<char>, Seq<Seq<u8>>>::empty().insert(
        "content-type"@,
        seq![encode_utf8("application/x-www-form-urlencoded"@)],
    ).insert("accept"@, seq![encode_utf8("application/json"@)])
}

/// `name=value`, both encoded.
pub open spec fn assigns(name: Seq<char>, value: Seq<char>) -> Seq<char> {
    percent_encoded(name) + "="@ + percent_encoded(value)
}

/// The three requests of an account post forms with what they are for: the
/// client alone, the device code, and the refresh token, which has to be there.
pub proof fn accounts_post_forms(
    start: OutboundRequest,
    device_code: &str,
    poll: OutboundRequest,
    secret: &Value,
    renewal: Result<OutboundRequest, ChannelError>,
)
    requires
        call_ensures(device_start_request, (), start),
        call_ensures(device_poll_request, (device_code,), poll),
        call_ensures(refresh_request, (secret,), renewal),
    ensures
        ({
            let client = assigns("client_id"@, "client_01JCYX20PEAQN6NHBM1RM7ZTF4"@);
            let tokens = "https://api.workos.com/user_management/authenticate"@;
            &&& posts(
                start,
                "https://api.workos.com/user_management/authorize/device"@,
                client,
            )
            &&& posts(
                poll,
                tokens,
                assigns("grant_type"@, "urn:ietf:params:oauth:grant-type:device_code"@) + "&"@
                    + assigns("device_code"@, device_code@) + "&"@ + client,
            )
            &&& match stated(json(*secret), "refresh_token"@) {
                Some(token) => (renewal matches Ok(request) && posts(
                    request,
                    tokens,
                    assigns("grant_type"@, "refresh_token"@) + "&"@ + assigns(
                        "refresh_token"@,
                        token,
                    ) + "&"@ + client,
                )),
                None => (renewal matches Err(ChannelError::InvalidCredential(message)) && message@
                    == "missing refresh_token"@),
            }
        }),
{
    reveal_strlit("=");
    reveal_strlit("&");
    assert("="@ =~= seq!['=']);
    assert("&"@ =~= seq!['&']);
    reveal_with_fuel(encoded_form, 4);
    let id = ("client_id"@, "client_01JCYX20PEAQN6NHBM1RM7ZTF4"@);
    let one = seq![id];
    assert(one.last() == id);
    let grant = ("grant_type"@, "urn:ietf:params:oauth:grant-type:device_code"@);
    let device = ("device_code"@, device_code@);
    let three = seq![grant, device, id];
    assert(three.drop_last() =~= seq![grant, device]);
    assert(seq![grant, device].drop_last() =~= seq![grant]);
    let again = ("grant_type"@, "refresh_token"@);
    if let Some(token) = stated(json(*secret), "refresh_token"@) {
        let fresh = ("refresh_token"@, token);
        let asked = seq![again, fresh, id];
        assert(asked.drop_last() =~= seq![again, fresh]);
        assert(seq![again, fresh].drop_last() =~= seq![again]);
    }
}

} // verus!
