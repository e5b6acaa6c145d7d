//! The account of a connected user at a custom upstream. A device flow, run
//! once, yields a credential of access token, refresh token and expiry; after
//! that requests carry the access token and a refresh rotates it.

use crate::channel::error::{ChannelError, ChannelFault};
use crate::channel::form::{form_fields, form_request, posted};
use crate::json::{
    from_slice, i64_member, integer_value, json, json_document, nonblank_member, object_value,
    text_value, Json,
};
use crate::text::{
    first_chars, from_utf8_lossy, lossy_text, optional, optional_str, same, split, split_text,
    take_chars, texts, trimmed,
};
use crate::transport::{octets, status_label, status_number, status_text, Outbound, OutboundRequest};
use base64::engine::general_purpose::URL_SAFE_NO_PAD;
use base64::Engine;
use bytes::Bytes;
use http::StatusCode;
use serde_json::Value;
use vstd::prelude::*;
use vstd::string::StringExecFns;

verus! {

/// The client that asks for authorization.
pub const CLIENT_ID: &'static str = "client_01JCYX20PEAQN6NHBM1RM7ZTF4";

/// Where a device flow starts.
pub const DEVICE_URL: &'static str = "https://api.workos.com/user_management/authorize/device";

/// Where tokens are handed out.
pub const TOKEN_URL: &'static str = "https://api.workos.com/user_management/authenticate";

/// How long before its expiry a token is refreshed, in milliseconds.
pub const EXPIRY_SKEW_MS: i64 = 60_000;

/// The answer to the start of a device flow.
pub struct DeviceResponse {
    pub device_code: String,
    pub user_code: String,
    pub verification_uri: String,
    pub verification_uri_complete: Option<String>,
    pub interval: u64,
}

/// The answer to a request for tokens.
pub struct TokenResponse {
    pub access_token: Option<String>,
    pub refresh_token: Option<String>,
    /// Seconds until the access token expires.
    pub expires_in: Option<u64>,
    pub error: Option<String>,
}

/// A device flow that has been started.
#[derive(Debug)]
pub struct DeviceInit {
    pub device_code: String,
    pub user_code: String,
    pub verification_url: String,
    pub interval_secs: u64,
}

/// How far a device flow has got.
#[derive(Debug)]
pub enum DevicePoll {
    Pending,
    Denied,
    /// The credential.
    Ready(Value),
}

/// What a `DeviceInit` says.
pub struct DeviceStart {
    pub device_code: Seq<char>,
    pub user_code: Seq<char>,
    pub verification_url: Seq<char>,
    pub interval_secs: u64,
}

/// What a `DevicePoll` says.
pub enum DeviceProgress {
    Pending,
    Denied,
    Ready(Json),
}

impl View for DeviceInit {
    type V = DeviceStart;

    open spec fn view(&self) -> DeviceStart {
        DeviceStart {
            device_code: self.device_code@,
            user_code: self.user_code@,
            verification_url: self.verification_url@,
            interval_secs: self.interval_secs,
        }
    }
}

impl View for DevicePoll {
    type V = DeviceProgress;

    open spec fn view(&self) -> DeviceProgress {
        match *self {
            DevicePoll::Pending => DeviceProgress::Pending,
            DevicePoll::Denied => DeviceProgress::Denied,
            DevicePoll::Ready(secret) => DeviceProgress::Ready(json(secret)),
        }
    }
}

/// `base64::DecodeError`, opaque.
#[verifier::external_type_specification]
#[verifier::external_body]
pub struct ExDecodeError(base64::DecodeError);

/// What the URL-safe base64 decoder without padding reads in `text`.
pub uninterp spec fn base64_decoded(text: Seq<char>) -> Option<Seq<u8>>;

/// `URL_SAFE_NO_PAD.decode`. Only that the result is a function of the text is
/// claimed.
#[verifier::external_body]
pub(crate) fn decode_base64(text: &str) -> (r: Result<Vec<u8>, base64::DecodeError>)
    ensures
        match r {
            Ok(decoded) => base64_decoded(text@) == Some(decoded@),
            Err(_) => base64_decoded(text@) is None,
        },
{
    URL_SAFE_NO_PAD.decode(text)
}

/// The access token of a credential.
pub open spec fn access_token_of(secret: Json) -> Option<Seq<char>> {
    secret.nonblank_member("access_token"@)
}

/// The refresh token of a credential.
pub open spec fn refresh_token_of(secret: Json) -> Option<Seq<char>> {
    secret.nonblank_member("refresh_token"@)
}

/// `n`, or the nearest number to it that fits `i64`.
pub open spec fn clamped(n: int) -> int {
    if n < i64::MIN {
        i64::MIN as int
    } else if n > i64::MAX {
        i64::MAX as int
    } else {
        n
    }
}

/// Whether a credential is due for a refresh at `now`, in seconds: it can be
/// refreshed, and it either has no access token or states an expiry that is
/// less than the skew away. An expiry of zero is none.
pub open spec fn is_due(secret: Json, now: i64) -> bool {
    let expiry: i64 = match secret.i64_member("expires_at_ms"@) {
        Some(ms) => ms,
        None => 0,
    };
    refresh_token_of(secret) is Some && (access_token_of(secret) is None || (expiry != 0
        && clamped(now * 1000) > expiry - EXPIRY_SKEW_MS))
}

/// The expiry that a token's claims state, in milliseconds.
pub open spec fn claims_expiry(claims: Json) -> Option<i64> {
    match claims.i64_member("exp"@) {
        Some(seconds) => if i64::MIN <= seconds * 1000 <= i64::MAX {
            Some((seconds * 1000) as i64)
        } else {
            None
        },
        None => None,
    }
}

/// The expiry that an access token itself states: its second part, between the
/// dots, holds the claims.
pub open spec fn token_expiry(token: Seq<char>) -> Option<i64> {
    let parts = split(token, '.');
    if parts.len() < 2 {
        None
    } else {
        match base64_decoded(parts[1]) {
            Some(decoded) => match json_document(decoded) {
                Ok(claims) => claims_expiry(claims),
                Err(_) => None,
            },
            None => None,
        }
    }
}

/// A number of seconds as a signed one.
pub open spec fn signed(seconds: u64) -> int {
    if seconds <= i64::MAX {
        seconds as int
    } else {
        seconds - 0x1_0000_0000_0000_0000
    }
}

/// Text that is there and not blank throughout.
pub open spec fn present(text: Option<String>) -> Option<Seq<char>> {
    match text {
        Some(t) => if trimmed(t@).len() > 0 {
            Some(t@)
        } else {
            None
        },
        None => None,
    }
}

/// When a token that was handed out at `now` expires, in milliseconds: as the
/// answer says, else as the token itself says, else in an hour.
pub open spec fn expiry(token: Seq<char>, expires_in: Option<u64>, now: i64) -> int {
    match expires_in {
        Some(seconds) => clamped(now * 1000) + signed(seconds) * 1000,
        None => match token_expiry(token) {
            Some(ms) => ms as int,
            None => clamped(now + 3600) * 1000,
        },
    }
}

/// Whether the expiry of `token` can be computed in milliseconds.
pub open spec fn expiry_is_representable(
    token: Seq<char>,
    expires_in: Option<u64>,
    now: i64,
) -> bool {
    match expires_in {
        Some(seconds) => {
            &&& i64::MIN <= signed(seconds) * 1000 <= i64::MAX
            &&& i64::MIN <= clamped(now * 1000) + signed(seconds) * 1000 <= i64::MAX
        },
        None => token_expiry(token) is Some || i64::MIN <= clamped(now + 3600) * 1000
            <= i64::MAX,
    }
}

/// Whether the expiry of the token in `response`, where there is one, can be
/// computed in milliseconds.
pub open spec fn expiry_fits(response: TokenResponse, now: i64) -> bool {
    match present(response.access_token) {
        Some(token) => expiry_is_representable(token, response.expires_in, now),
        None => true,
    }
}

/// The credential `secret` with the tokens of `response`. Every other member of
/// it is kept, and so is the refresh token where no new one came.
pub open spec fn with_tokens(
    secret: Map<Seq<char>, Json>,
    token: Seq<char>,
    refresh: Option<Seq<char>>,
    expires_at_ms: int,
) -> Map<Seq<char>, Json> {
    let renewed = secret.insert("access_token"@, Json::Text(token)).insert(
        "expires_at_ms"@,
        Json::Integer(expires_at_ms),
    ).insert("auth_kind"@, Json::Text("slate_oauth"@));
    match refresh {
        Some(r) => renewed.insert("refresh_token"@, Json::Text(r)),
        None => renewed,
    }
}

/// What an answer with tokens makes of a credential.
pub open spec fn renewed(secret: Json, response: TokenResponse, now: i64) -> Result<
    Json,
    ChannelFault,
> {
    match present(response.access_token) {
        None => Err(ChannelFault::Build("slate token response missing access_token"@)),
        Some(token) => match secret {
            Json::Object(map) => Ok(
                Json::Object(
                    with_tokens(
                        map,
                        token,
                        present(response.refresh_token),
                        expiry(token, response.expires_in, now),
                    ),
                ),
            ),
            _ => Err(ChannelFault::InvalidCredential("secret must be an object"@)),
        },
    }
}

/// The fault of an answer with a status that is no success: the status and the
/// beginning of the body.
pub open spec fn status_fault(context: Seq<char>, status: StatusCode, body: Seq<u8>) -> ChannelFault {
    ChannelFault::Build(
        context + " "@ + status_label(status_number(status)) + ": "@ + first_chars(
            lossy_text(body),
            256,
        ),
    )
}

/// Whether a status is a success.
pub open spec fn succeeded(status: StatusCode) -> bool {
    200 <= status_number(status) <= 299
}

/// The request that starts a device flow.
pub open spec fn start_request() -> Outbound {
    posted(DEVICE_URL@, seq![("client_id"@, CLIENT_ID@)])
}

/// The request that asks how far a device flow has got.
pub open spec fn poll_request(device_code: Seq<char>) -> Outbound {
    posted(
        TOKEN_URL@,
        seq![
            ("grant_type"@, "urn:ietf:params:oauth:grant-type:device_code"@),
            ("device_code"@, device_code),
            ("client_id"@, CLIENT_ID@),
        ],
    )
}

/// The request that asks for new tokens.
pub open spec fn renewal_request(refresh_token: Seq<char>) -> Outbound {
    posted(
        TOKEN_URL@,
        seq![
            ("grant_type"@, "refresh_token"@),
            ("refresh_token"@, refresh_token),
            ("client_id"@, CLIENT_ID@),
        ],
    )
}

/// Whether an answer hands out a token whose expiry is out of range.
pub open spec fn expires_beyond_range(
    status: StatusCode,
    parsed: Result<TokenResponse, String>,
    now: i64,
) -> bool {
    succeeded(status) && match parsed {
        Ok(response) => !expiry_fits(response, now),
        Err(_) => false,
    }
}

/// What the answer to the start of a device flow comes to.
pub open spec fn started(
    status: StatusCode,
    body: Seq<u8>,
    parsed: Result<DeviceResponse, String>,
) -> Result<DeviceStart, ChannelFault> {
    if !succeeded(status) {
        Err(status_fault("slate device authorization"@, status, body))
    } else {
        match parsed {
            Ok(response) => Ok(
                DeviceStart {
                    device_code: response.device_code@,
                    user_code: response.user_code@,
                    verification_url: match response.verification_uri_complete {
                        Some(complete) => complete@,
                        None => response.verification_uri@,
                    },
                    interval_secs: if response.interval < 1 {
                        1
                    } else {
                        response.interval
                    },
                },
            ),
            Err(message) => Err(ChannelFault::Build("slate device response parse: "@ + message@)),
        }
    }
}

/// What the answer to a poll comes to.
pub open spec fn polled(
    status: StatusCode,
    body: Seq<u8>,
    parsed: Result<TokenResponse, String>,
    now: i64,
) -> Result<DeviceProgress, ChannelFault> {
    match parsed {
        Err(message) => Err(ChannelFault::Build("slate device poll parse: "@ + message@)),
        Ok(response) => if succeeded(status) {
            match renewed(Json::Object(Map::empty()), response, now) {
                Ok(secret) => Ok(DeviceProgress::Ready(secret)),
                Err(e) => Err(e),
            }
        } else {
            let error = optional(response.error);
            if error == Some("authorization_pending"@) || error == Some("slow_down"@) {
                Ok(DeviceProgress::Pending)
            } else if error == Some("access_denied"@) || error == Some("expired_token"@) {
                Ok(DeviceProgress::Denied)
            } else {
                Err(status_fault("slate device poll"@, status, body))
            }
        },
    }
}

/// What the answer to a refresh comes to.
pub open spec fn refreshed_secret(
    secret: Json,
    status: StatusCode,
    body: Seq<u8>,
    parsed: Result<TokenResponse, String>,
    now: i64,
) -> Result<Json, ChannelFault> {
    if !succeeded(status) {
        Err(status_fault("slate token refresh"@, status, body))
    } else {
        match parsed {
            Ok(response) => renewed(secret, response, now),
            Err(message) => Err(ChannelFault::Build("slate refresh response parse: "@ + message@)),
        }
    }
}

/// The document or the fault that a result holds.
pub open spec fn secret_result(result: Result<Value, ChannelError>) -> Result<Json, ChannelFault> {
    match result {
        Ok(value) => Ok(json(value)),
        Err(e) => Err(e@),
    }
}

/// The polling interval, in seconds, of a service that names none.
pub fn default_interval() -> (r: u64)
    ensures
        r == 5,
{
    5
}

/// The access token of a credential.
pub fn access_token(secret: &Value) -> (r: Option<&str>)
    ensures
        optional_str(r) == access_token_of(json(*secret)),
{
    nonblank_member(secret, "access_token")
}

/// The refresh token of a credential.
pub fn refresh_token(secret: &Value) -> (r: Option<&str>)
    ensures
        optional_str(r) == refresh_token_of(json(*secret)),
{
    nonblank_member(secret, "refresh_token")
}

/// `n`, or the nearest number to it that fits `i64`.
fn clamp(n: i128) -> (r: i64)
    ensures
        r == clamped(n as int),
{
    if n < i64::MIN as i128 {
        i64::MIN
    } else if n > i64::MAX as i128 {
        i64::MAX
    } else {
        n as i64
    }
}

/// Whether a credential is due for a refresh at `now`, in seconds.
pub fn needs_refresh(secret: &Value, now: i64) -> (r: bool)
    ensures
        r == is_due(json(*secret), now),
{
    if refresh_token(secret).is_none() {
        return false;
    }
    if access_token(secret).is_none() {
        return true;
    }
    let expires_at_ms: i64 = i64_member(secret, "expires_at_ms").unwrap_or(0);
    let now_ms: i64 = clamp(now as i128 * 1000);
    expires_at_ms != 0 && now_ms as i128 > expires_at_ms as i128 - EXPIRY_SKEW_MS as i128
}

/// The expiry that a token's claims state, in milliseconds.
pub fn claims_expiry_ms(claims: &Value) -> (r: Option<i64>)
    ensures
        r == claims_expiry(json(*claims)),
{
    match i64_member(claims, "exp") {
        Some(seconds) => seconds.checked_mul(1000),
        None => None,
    }
}

/// The expiry that an access token itself states, in milliseconds.
pub fn jwt_expiry_ms(access_token: &str) -> (r: Option<i64>)
    ensures
        r == token_expiry(access_token@),
{
    let parts = split_text(access_token, '.');
    assert(texts(parts@).len() == parts@.len());
    if parts.len() < 2 {
        return None;
    }
    assert(texts(parts@)[1] == parts@[1]@);
    match decode_base64(parts[1].as_str()) {
        Ok(decoded) => match from_slice(decoded.as_slice()) {
            Ok(claims) => claims_expiry_ms(&claims),
            Err(_) => None,
        },
        Err(_) => None,
    }
}

/// The text where it is there and not blank throughout.
fn when_present(text: Option<String>) -> (r: Option<String>)
    ensures
        optional(r) == present(text),
{
    match text {
        Some(t) => if t.as_str().trim().is_empty() {
            None
        } else {
            Some(t)
        },
        None => None,
    }
}

/// When a token that was handed out at `now` expires, in milliseconds.
fn expiry_ms(token: &str, expires_in: Option<u64>, now: i64) -> (r: i64)
    requires
        expiry_is_representable(token@, expires_in, now),
    ensures
        r == expiry(token@, expires_in, now),
{
    match expires_in {
        Some(seconds) => {
            let signed_seconds: i64 = seconds as i64;
            assert(seconds <= 0x7fff_ffff_ffff_ffff ==> seconds as i64 == seconds) by (bit_vector);
            assert(seconds > 0x7fff_ffff_ffff_ffff ==> seconds as i64 == seconds
                - 0x1_0000_0000_0000_0000) by (bit_vector);
            clamp(now as i128 * 1000) + signed_seconds * 1000
        },
        None => match jwt_expiry_ms(token) {
            Some(ms) => ms,
            None => clamp(now as i128 + 3600) * 1000,
        },
    }
}

/// Whether the expiry of the token in `response`, where there is one, can be
/// computed in milliseconds.
pub fn fits(response: &TokenResponse, now: i64) -> (r: bool)
    ensures
        r == expiry_fits(*response, now),
{
    let token = match &response.access_token {
        Some(token) => token.as_str(),
        None => {
            return true;
        },
    };
    if token.trim().is_empty() {
        return true;
    }
    let smallest: i128 = i64::MIN as i128;
    let largest: i128 = i64::MAX as i128;
    match response.expires_in {
        Some(seconds) => {
            let signed_seconds: i128 = if seconds <= i64::MAX as u64 {
                seconds as i128
            } else {
                seconds as i128 - 0x1_0000_0000_0000_0000
            };
            let lifetime: i128 = signed_seconds * 1000;
            let sum: i128 = clamp(now as i128 * 1000) as i128 + lifetime;
            smallest <= lifetime && lifetime <= largest && smallest <= sum && sum <= largest
        },
        None => {
            let ms: i128 = clamp(now as i128 + 3600) as i128 * 1000;
            jwt_expiry_ms(token).is_some() || (smallest <= ms && ms <= largest)
        },
    }
}

/// The credential `secret` with the tokens of `response`, handed out at `now`.
pub fn token_secret(secret: Value, response: TokenResponse, now: i64) -> (r: Result<
    Value,
    ChannelError,
>)
    requires
        expiry_fits(response, now),
    ensures
        secret_result(r) == renewed(json(secret), response, now),
{
    let mut secret = secret;
    let token = match when_present(response.access_token) {
        Some(token) => token,
        None => {
            return Err(
                ChannelError::Build("slate token response missing access_token".to_owned()),
            );
        },
    };
    let expires_at_ms: i64 = expiry_ms(token.as_str(), response.expires_in, now);
    match secret.as_object_mut() {
        Some(object) => {
            object.insert("access_token".to_owned(), text_value(token));
            object.insert("expires_at_ms".to_owned(), integer_value(expires_at_ms));
            object.insert("auth_kind".to_owned(), text_value("slate_oauth".to_owned()));
            if let Some(refresh) = when_present(response.refresh_token) {
                object.insert("refresh_token".to_owned(), text_value(refresh));
            }
        },
        None => {
            return Err(ChannelError::InvalidCredential("secret must be an object".to_owned()));
        },
    }
    Ok(secret)
}

/// The error for an answer with a status that is no success.
pub fn status_error(context: &str, status: StatusCode, body: &Bytes) -> (r: ChannelError)
    ensures
        r@ == status_fault(context@, status, octets(*body)),
{
    let snippet = take_chars(from_utf8_lossy(body).as_str(), 256);
    ChannelError::Build(
        context.to_owned().concat(" ").concat(status_text(status).as_str()).concat(": ").concat(
            snippet.as_str(),
        ),
    )
}

/// The request that starts a device flow.
pub fn device_start_request() -> (r: OutboundRequest)
    ensures
        r@ == start_request(),
{
    let form = [("client_id", CLIENT_ID)];
    assert(form_fields(form@) == seq![("client_id"@, CLIENT_ID@)]);
    form_request(DEVICE_URL, &form)
}

/// The request that asks how far a device flow has got.
pub fn device_poll_request(device_code: &str) -> (r: OutboundRequest)
    ensures
        r@ == poll_request(device_code@),
{
    let form = [
        ("grant_type", "urn:ietf:params:oauth:grant-type:device_code"),
        ("device_code", device_code),
        ("client_id", CLIENT_ID),
    ];
    assert(form_fields(form@) == seq![
        ("grant_type"@, "urn:ietf:params:oauth:grant-type:device_code"@),
        ("device_code"@, device_code@),
        ("client_id"@, CLIENT_ID@),
    ]);
    form_request(TOKEN_URL, &form)
}

/// The request that asks for new tokens for a credential.
pub fn refresh_request(secret: &Value) -> (r: Result<OutboundRequest, ChannelError>)
    ensures
        match r {
            Ok(request) => refresh_token_of(json(*secret)) is Some && request@ == renewal_request(
                refresh_token_of(json(*secret))->0,
            ),
            Err(e) => refresh_token_of(json(*secret)) is None && e@
                == ChannelFault::InvalidCredential("missing refresh_token"@),
        },
{
    match refresh_token(secret) {
        Some(token) => {
            let form = [
                ("grant_type", "refresh_token"),
                ("refresh_token", token),
                ("client_id", CLIENT_ID),
            ];
            assert(form_fields(form@) == seq![
                ("grant_type"@, "refresh_token"@),
                ("refresh_token"@, token@),
                ("client_id"@, CLIENT_ID@),
            ]);
            Ok(form_request(TOKEN_URL, &form))
        },
        None => Err(ChannelError::InvalidCredential("missing refresh_token".to_owned())),
    }
}

/// The device flow that an answer starts; `parsed` is what the answer reads as.
pub fn device_started(
    status: StatusCode,
    body: &Bytes,
    parsed: Result<DeviceResponse, String>,
) -> (r: Result<DeviceInit, ChannelError>)
    ensures
        match r {
            Ok(init) => started(status, octets(*body), parsed) == Ok::<DeviceStart, ChannelFault>(
                init@,
            ),
            Err(e) => started(status, octets(*body), parsed) == Err::<DeviceStart, ChannelFault>(
                e@,
            ),
        },
{
    if !status.is_success() {
        return Err(status_error("slate device authorization", status, body));
    }
    match parsed {
        Ok(response) => {
            let verification_url = match response.verification_uri_complete {
                Some(complete) => complete,
                None => response.verification_uri,
            };
            let interval_secs: u64 = if response.interval < 1 {
                1
            } else {
                response.interval
            };
            Ok(
                DeviceInit {
                    device_code: response.device_code,
                    user_code: response.user_code,
                    verification_url,
                    interval_secs,
                },
            )
        },
        Err(message) => Err(
            ChannelError::Build(
                "slate device response parse: ".to_owned().concat(message.as_str()),
            ),
        ),
    }
}

/// How far a device flow has got; `parsed` is what the answer reads as. There
/// is no result where tokens came and their expiry cannot be computed.
pub fn device_polled(
    status: StatusCode,
    body: &Bytes,
    parsed: Result<TokenResponse, String>,
    now: i64,
) -> (r: Option<Result<DevicePoll, ChannelError>>)
    ensures
        match r {
            Some(Ok(poll)) => polled(status, octets(*body), parsed, now) == Ok::<
                DeviceProgress,
                ChannelFault,
            >(poll@),
            Some(Err(e)) => polled(status, octets(*body), parsed, now) == Err::<
                DeviceProgress,
                ChannelFault,
            >(e@),
            None => true,
        },
        r is None <==> expires_beyond_range(status, parsed, now),
{
    let response = match parsed {
        Ok(response) => response,
        Err(message) => {
            return Some(
                Err(
                    ChannelError::Build(
                        "slate device poll parse: ".to_owned().concat(message.as_str()),
                    ),
                ),
            );
        },
    };
    if status.is_success() {
        if !fits(&response, now) {
            return None;
        }
        let empty = object_value(serde_json::Map::new());
        return match token_secret(empty, response, now) {
            Ok(secret) => Some(Ok(DevicePoll::Ready(secret))),
            Err(e) => Some(Err(e)),
        };
    }
    let progress = match &response.error {
        Some(error) => {
            let error = error.as_str();
            if same(error, "authorization_pending") || same(error, "slow_down") {
                Ok(DevicePoll::Pending)
            } else if same(error, "access_denied") || same(error, "expired_token") {
                Ok(DevicePoll::Denied)
            } else {
                Err(status_error("slate device poll", status, body))
            }
        },
        None => Err(status_error("slate device poll", status, body)),
    };
    Some(progress)
}

/// The credential after a refresh; `parsed` is what the answer reads as. There
/// is no result where tokens came and their expiry cannot be computed.
pub fn refreshed(
    secret: &Value,
    status: StatusCode,
    body: &Bytes,
    parsed: Result<TokenResponse, String>,
    now: i64,
) -> (r: Option<Result<Value, ChannelError>>)
    ensures
        r matches Some(result) ==> secret_result(result) == refreshed_secret(
            json(*secret),
            status,
            octets(*body),
            parsed,
            now,
        ),
        r is None <==> expires_beyond_range(status, parsed, now),
{
    if !status.is_success() {
        return Some(Err(status_error("slate token refresh", status, body)));
    }
    match parsed {
        Ok(response) => if fits(&response, now) {
            Some(token_secret(secret.clone(), response, now))
        } else {
            None
        },
        Err(message) => Some(
            Err(
                ChannelError::Build(
                    "slate refresh response parse: ".to_owned().concat(message.as_str()),
                ),
            ),
        ),
    }
}

} // verus!
