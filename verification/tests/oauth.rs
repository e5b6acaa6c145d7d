//! The account of a connected user: device flow, refresh and expiry.

use bytes::Bytes;
use custom_channel::channel::custom::oauth::{
    access_token, claims_expiry_ms, default_interval, device_poll_request, device_polled,
    device_start_request, device_started, fits, jwt_expiry_ms, needs_refresh, refresh_request,
    refresh_token, refreshed, status_error, token_secret, DevicePoll, DeviceResponse,
    TokenResponse,
};
use custom_channel::channel::custom::CustomChannel;
use custom_channel::channel::error::ChannelError;
use custom_channel::channel::form::{form_body, form_request, percent_encode};
use http::{Method, StatusCode};
use serde_json::Value;

const NOW: i64 = 1_700_000_000;

fn value(text: &str) -> Value {
    serde_json::from_str(text).unwrap()
}

fn text(value: &Value, key: &str) -> Option<String> {
    value.get(key).and_then(Value::as_str).map(str::to_owned)
}

fn tokens(body: &[u8]) -> Result<TokenResponse, String> {
    let value: Value = serde_json::from_slice(body).map_err(|e| e.to_string())?;
    Ok(TokenResponse {
        access_token: text(&value, "access_token"),
        refresh_token: text(&value, "refresh_token"),
        expires_in: value.get("expires_in").and_then(Value::as_u64),
        error: text(&value, "error"),
    })
}

fn poll(status: u16, body: &'static [u8]) -> Result<DevicePoll, ChannelError> {
    device_polled(
        StatusCode::from_u16(status).unwrap(),
        &Bytes::from_static(body),
        tokens(body),
        NOW,
    )
    .unwrap()
}

fn refresh(secret: &Value, status: u16, body: &'static [u8]) -> Result<Value, ChannelError> {
    refreshed(
        secret,
        StatusCode::from_u16(status).unwrap(),
        &Bytes::from_static(body),
        tokens(body),
        NOW,
    )
    .unwrap()
}

fn build_message<T>(result: Result<T, ChannelError>) -> String {
    match result {
        Err(ChannelError::Build(message)) => message,
        _ => panic!("expected a build error"),
    }
}

fn response(access: Option<&str>, expires_in: Option<u64>) -> TokenResponse {
    TokenResponse {
        access_token: access.map(str::to_owned),
        refresh_token: None,
        expires_in,
        error: None,
    }
}

#[test]
fn refresh_is_only_requested_for_expiring_oauth_credentials() {
    assert!(!needs_refresh(&value(r#"{"api_key":"key"}"#), NOW));
    assert!(needs_refresh(&value(r#"{"refresh_token":"refresh"}"#), NOW));
    assert!(needs_refresh(
        &value(r#"{"access_token":"access","refresh_token":"refresh","expires_at_ms":1}"#),
        NOW
    ));
    assert!(!needs_refresh(
        &value(&format!(
            r#"{{"access_token":"access","refresh_token":"refresh","expires_at_ms":{}}}"#,
            i64::MAX
        )),
        NOW
    ));
}

#[test]
fn device_poll_maps_pending_and_ready() {
    assert!(matches!(
        poll(
            400,
            br#"{"error":"authorization_pending","error_description":"pending"}"#
        )
        .unwrap(),
        DevicePoll::Pending
    ));

    let secret = match poll(
        200,
        br#"{"access_token":"access","refresh_token":"refresh","expires_in":60,"user":{}}"#,
    )
    .unwrap()
    {
        DevicePoll::Ready(secret) => secret,
        _ => panic!("expected ready"),
    };
    assert_eq!(secret["access_token"], "access");
    assert_eq!(secret["refresh_token"], "refresh");
    assert_eq!(secret["auth_kind"], "slate_oauth");
}

#[test]
fn refresh_rotates_tokens_and_preserves_fields() {
    let output = refresh(
        &value(r#"{"access_token":"old","refresh_token":"old-refresh","keep":true}"#),
        200,
        br#"{"access_token":"new-access","refresh_token":"new-refresh","expires_in":120}"#,
    )
    .unwrap();
    assert_eq!(output["access_token"], "new-access");
    assert_eq!(output["refresh_token"], "new-refresh");
    assert_eq!(output["keep"], true);
    assert!(output["expires_at_ms"].as_i64().unwrap() > 0);
    assert_eq!(output["expires_at_ms"], NOW * 1000 + 120_000);
}

#[test]
fn a_refresh_without_a_new_refresh_token_keeps_the_old_one() {
    for body in [
        br#"{"access_token":"new","expires_in":120}"#.as_slice(),
        br#"{"access_token":"new","refresh_token":"  ","expires_in":120}"#.as_slice(),
    ] {
        let output = refresh(&value(r#"{"refresh_token":"old-refresh"}"#), 200, body).unwrap();
        assert_eq!(output["refresh_token"], "old-refresh");
        assert_eq!(output["access_token"], "new");
    }
}

#[test]
fn the_minute_before_the_expiry_counts() {
    let secret = value(&format!(
        r#"{{"access_token":"a","refresh_token":"r","expires_at_ms":{}}}"#,
        NOW * 1000 + 60_000
    ));
    assert!(!CustomChannel.needs_refresh(&secret, NOW));
    assert!(CustomChannel.needs_refresh(&secret, NOW + 1));
    // Once due it stays so.
    assert!(CustomChannel.needs_refresh(&secret, i64::MAX));
    assert!(!CustomChannel.needs_refresh(&secret, i64::MIN));
}

#[test]
fn an_expiry_of_zero_or_none_is_never_due() {
    for secret in [
        r#"{"access_token":"a","refresh_token":"r"}"#,
        r#"{"access_token":"a","refresh_token":"r","expires_at_ms":0}"#,
        r#"{"access_token":"a","refresh_token":"r","expires_at_ms":"1"}"#,
        r#"{"access_token":"a","refresh_token":"r","expires_at_ms":1.5}"#,
        r#"{"access_token":"a","refresh_token":" ","expires_at_ms":1}"#,
        r#"[1]"#,
    ] {
        assert!(!needs_refresh(&value(secret), NOW), "{secret}");
    }
    assert!(needs_refresh(&value(r#"{"access_token":" ","refresh_token":"r"}"#), NOW));
}

#[test]
fn a_fresh_credential_is_due_only_a_minute_before_its_end() {
    let secret = value(r#"{"refresh_token":"r"}"#);
    let renewed = token_secret(secret, response(Some("a"), Some(61)), NOW).unwrap();
    assert!(!needs_refresh(&renewed, NOW));
    assert!(!needs_refresh(&renewed, NOW + 1));
    assert!(needs_refresh(&renewed, NOW + 2));
    let secret = value(r#"{"refresh_token":"r"}"#);
    let short = token_secret(secret, response(Some("a"), Some(59)), NOW).unwrap();
    assert!(needs_refresh(&short, NOW));
}

#[test]
fn tokens_are_read_without_blanks() {
    let secret = value(r#"{"access_token":" a b ","refresh_token":"\tr\n"}"#);
    assert_eq!(access_token(&secret), Some("a b"));
    assert_eq!(refresh_token(&secret), Some("r"));
    let none = value(r#"{"access_token":7,"refresh_token":""}"#);
    assert_eq!(access_token(&none), None);
    assert_eq!(refresh_token(&none), None);
}

#[test]
fn an_access_token_is_written_as_it_came() {
    let renewed = token_secret(value("{}"), response(Some(" a "), Some(0)), NOW).unwrap();
    assert_eq!(renewed["access_token"], " a ");
    assert_eq!(access_token(&renewed), Some("a"));
    assert_eq!(renewed["expires_at_ms"], NOW * 1000);
    assert_eq!(renewed["auth_kind"], "slate_oauth");
    assert!(renewed.get("refresh_token").is_none());
}

#[test]
fn an_answer_without_access_token_is_refused() {
    for access in [None, Some(" \n")] {
        let message = build_message(token_secret(value("{}"), response(access, Some(1)), NOW));
        assert_eq!(message, "slate token response missing access_token");
    }
}

#[test]
fn a_secret_that_is_no_object_is_refused() {
    match token_secret(value("[]"), response(Some("a"), Some(1)), NOW) {
        Err(ChannelError::InvalidCredential(message)) => {
            assert_eq!(message, "secret must be an object")
        }
        _ => panic!("expected an invalid credential"),
    }
}

#[test]
fn the_expiry_comes_from_the_token_or_is_an_hour() {
    // The claims are {"exp":1700000000}.
    let stated = token_secret(
        value("{}"),
        response(Some("h.eyJleHAiOjE3MDAwMDAwMDB9.s"), None),
        5,
    )
    .unwrap();
    assert_eq!(stated["expires_at_ms"], 1_700_000_000_000i64);
    let answered = token_secret(
        value("{}"),
        response(Some("h.eyJleHAiOjE3MDAwMDAwMDB9.s"), Some(2)),
        5,
    )
    .unwrap();
    assert_eq!(answered["expires_at_ms"], 7_000);
    let silent = token_secret(value("{}"), response(Some("opaque"), None), 5).unwrap();
    assert_eq!(silent["expires_at_ms"], 3_605_000);
}

#[test]
fn claims_are_read_from_the_second_part() {
    assert_eq!(jwt_expiry_ms("h.eyJleHAiOjE3MDAwMDAwMDB9.s"), Some(1_700_000_000_000));
    assert_eq!(jwt_expiry_ms("h.eyJleHAiOjE3MDAwMDAwMDB9"), Some(1_700_000_000_000));
    // The alphabet is the URL-safe one.
    assert_eq!(jwt_expiry_ms("h.eyJzdWIiOiI_Pz4-fn4iLCJleHAiOjd9"), Some(7_000));
    assert_eq!(jwt_expiry_ms("h.eyJzdWIiOiI/Pz4+fn4iLCJleHAiOjd9"), None);
    // Padding is refused.
    assert_eq!(jwt_expiry_ms("h.eyJleHAiOjE3MDAwMDAwMDB9=.s"), None);
    // The largest number of seconds that fits in milliseconds, and the next.
    assert_eq!(
        jwt_expiry_ms("h.eyJleHAiOjkyMjMzNzIwMzY4NTQ3NzV9.s"),
        Some(9_223_372_036_854_775_000)
    );
    assert_eq!(jwt_expiry_ms("h.eyJleHAiOjkyMjMzNzIwMzY4NTQ3NzZ9.s"), None);
    assert_eq!(jwt_expiry_ms("h.eyJleHAiOiJzb29uIn0.s"), None);
    assert_eq!(jwt_expiry_ms("opaque"), None);
    assert_eq!(jwt_expiry_ms("h..s"), None);
    assert_eq!(jwt_expiry_ms(""), None);
    assert_eq!(claims_expiry_ms(&value(r#"{"exp":-3}"#)), Some(-3_000));
    assert_eq!(claims_expiry_ms(&value("{}")), None);
}

#[test]
fn an_expiry_out_of_range_has_no_result() {
    let ok = StatusCode::OK;
    let body = Bytes::new();
    let huge = Some(i64::MAX as u64);
    assert!(!fits(&response(Some("a"), huge), NOW));
    assert!(fits(&response(None, huge), NOW));
    assert!(fits(&response(Some(" "), huge), NOW));
    assert!(!fits(&response(Some("a"), None), i64::MAX));
    // The token says when it expires, so that nothing is computed from the time.
    assert!(fits(&response(Some("h.eyJleHAiOjE3MDAwMDAwMDB9.s"), None), i64::MAX));
    // The largest number is taken as the one before zero.
    assert!(fits(&response(Some("a"), Some(u64::MAX)), NOW));
    let renewed = token_secret(value("{}"), response(Some("a"), Some(u64::MAX)), 5).unwrap();
    assert_eq!(renewed["expires_at_ms"], 4_000);

    assert!(device_polled(ok, &body, Ok(response(Some("a"), huge)), NOW).is_none());
    assert!(refreshed(&value("{}"), ok, &body, Ok(response(Some("a"), huge)), NOW).is_none());
    let refused = StatusCode::BAD_REQUEST;
    assert!(device_polled(refused, &body, Ok(response(Some("a"), huge)), NOW).is_some());
    assert!(refreshed(&value("{}"), refused, &body, Ok(response(Some("a"), huge)), NOW).is_some());
}

#[test]
fn polls_are_told_apart_by_their_error() {
    assert!(matches!(poll(429, br#"{"error":"slow_down"}"#).unwrap(), DevicePoll::Pending));
    assert!(matches!(poll(400, br#"{"error":"access_denied"}"#).unwrap(), DevicePoll::Denied));
    assert!(matches!(poll(400, br#"{"error":"expired_token"}"#).unwrap(), DevicePoll::Denied));
    assert_eq!(
        build_message(poll(400, br#"{"error":"other"}"#)),
        "slate device poll 400 Bad Request: {\"error\":\"other\"}"
    );
    assert_eq!(build_message(poll(500, b"{}")), "slate device poll 500 Internal Server Error: {}");
    assert_eq!(
        build_message(poll(200, br#"{"error":"slow_down"}"#)),
        "slate token response missing access_token"
    );
    assert!(build_message(poll(400, b"no json")).starts_with("slate device poll parse: "));
}

#[test]
fn refreshes_that_fail_say_why() {
    let secret = value(r#"{"refresh_token":"r"}"#);
    assert_eq!(
        build_message(refresh(&secret, 401, b"nope")),
        "slate token refresh 401 Unauthorized: nope"
    );
    assert!(build_message(refresh(&secret, 200, b"nope"))
        .starts_with("slate refresh response parse: "));
    match refresh_request(&value(r#"{"refresh_token":" "}"#)) {
        Err(ChannelError::InvalidCredential(message)) => {
            assert_eq!(message, "missing refresh_token")
        }
        _ => panic!("expected an invalid credential"),
    }
}

#[test]
fn a_snippet_of_the_body_goes_into_the_error() {
    let long = "é".repeat(300);
    match status_error("context", StatusCode::NOT_FOUND, &Bytes::from(long)) {
        ChannelError::Build(message) => {
            assert_eq!(message, format!("context 404 Not Found: {}", "é".repeat(256)))
        }
        _ => panic!("expected a build error"),
    }
    let broken = Bytes::from_static(b"a\xffb");
    match status_error("context", StatusCode::from_u16(599).unwrap(), &broken) {
        ChannelError::Build(message) => {
            assert_eq!(message, "context 599 <unknown status code>: a\u{fffd}b")
        }
        _ => panic!("expected a build error"),
    }
}

#[test]
fn a_device_flow_starts_with_what_the_answer_says() {
    let answer = |complete: Option<&str>, interval: u64| DeviceResponse {
        device_code: "dev".to_owned(),
        user_code: "ABCD".to_owned(),
        verification_uri: "https://verify".to_owned(),
        verification_uri_complete: complete.map(str::to_owned),
        interval,
    };
    let body = Bytes::from_static(b"body");
    let init = device_started(StatusCode::OK, &body, Ok(answer(None, 0))).unwrap();
    assert_eq!(init.device_code, "dev");
    assert_eq!(init.user_code, "ABCD");
    assert_eq!(init.verification_url, "https://verify");
    assert_eq!(init.interval_secs, 1);
    let init = device_started(
        StatusCode::CREATED,
        &body,
        Ok(answer(Some("https://verify?code=ABCD"), default_interval())),
    )
    .unwrap();
    assert_eq!(init.verification_url, "https://verify?code=ABCD");
    assert_eq!(init.interval_secs, 5);
    assert_eq!(
        build_message(device_started(StatusCode::FORBIDDEN, &body, Ok(answer(None, 1)))),
        "slate device authorization 403 Forbidden: body"
    );
    assert_eq!(
        build_message(device_started(StatusCode::OK, &body, Err("bad".to_owned()))),
        "slate device response parse: bad"
    );
}

#[test]
fn requests_post_forms() {
    let start = device_start_request();
    assert_eq!(start.method, Method::POST);
    assert_eq!(start.uri, "https://api.workos.com/user_management/authorize/device");
    assert_eq!(start.body, Bytes::from_static(b"client_id=client_01JCYX20PEAQN6NHBM1RM7ZTF4"));
    assert_eq!(start.headers.len(), 2);
    assert_eq!(
        start.headers.get("content-type").unwrap(),
        "application/x-www-form-urlencoded"
    );
    assert_eq!(start.headers.get("accept").unwrap(), "application/json");

    let poll = device_poll_request("d&c=1");
    assert_eq!(poll.uri, "https://api.workos.com/user_management/authenticate");
    assert_eq!(
        poll.body,
        Bytes::from_static(
            b"grant_type=urn%3Aietf%3Aparams%3Aoauth%3Agrant-type%3Adevice_code\
              &device_code=d%26c%3D1&client_id=client_01JCYX20PEAQN6NHBM1RM7ZTF4"
        )
    );

    let renewal = refresh_request(&value(r#"{"refresh_token":" r "}"#)).unwrap();
    assert_eq!(renewal.uri, "https://api.workos.com/user_management/authenticate");
    assert_eq!(
        renewal.body,
        Bytes::from_static(
            b"grant_type=refresh_token&refresh_token=r\
              &client_id=client_01JCYX20PEAQN6NHBM1RM7ZTF4"
        )
    );
}

#[test]
fn forms_are_percent_encoded() {
    assert_eq!(percent_encode("aZ09-._~"), "aZ09-._~");
    assert_eq!(percent_encode("a b&c=d/é"), "a%20b%26c%3Dd%2F%C3%A9");
    assert_eq!(percent_encode("\u{1f600}\u{0}"), "%F0%9F%98%80%00");
    assert_eq!(percent_encode(""), "");
    assert_eq!(form_body(&[]), "");
    let form = [("a&", "1"), ("b", "="), ("", "")];
    let body = form_body(&form);
    assert_eq!(body, "a%26=1&b=%3D&=");
    assert_eq!(body.split('&').count(), form.len());
    let request = form_request("http://up.example/form", &form);
    assert_eq!(request.uri, "http://up.example/form");
    assert_eq!(request.body, Bytes::from(body));
}
